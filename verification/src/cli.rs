//! What the command line hands over, once it has been read.
use std::path::PathBuf;
use vstd::prelude::*;
use vstd::string::*;
use crate::cmd::download::{Format, PngSize};

verus! {

/// The order in which the catalog lists its search results.
#[derive(Clone, Copy, Debug, PartialEq, Eq, Structural)]
pub enum Sorting {
    Default,
    AZ,
    Downloads,
    Newest,
}

impl Sorting {
    /// The name by which the catalog knows the order.
    pub open spec fn display_name(self) -> Seq<char> {
        match self {
            Sorting::Default => "default"@,
            Sorting::AZ => "alphabetical"@,
            Sorting::Downloads => "downloads"@,
            Sorting::Newest => "newest"@,
        }
    }
}

impl ToString for Sorting {
    /// The name by which the catalog knows the order.
    fn to_string(&self) -> (s: String)
        ensures
            s@ == self.display_name(),
    {
        match self {
            Sorting::Default => String::from_str("default"),
            Sorting::AZ => String::from_str("alphabetical"),
            Sorting::Downloads => String::from_str("downloads"),
            Sorting::Newest => String::from_str("newest"),
        }
    }
}

/// The two commands of the client, with their arguments as given.
#[derive(Debug)]
pub enum Cli {
    /// Search for color palettes
    Search {
        /// Search for palettes with at most N colors
        max: Option<u16>,
        /// Search for palettes with at least N colors
        min: Option<u16>,
        /// Search for palettes with exactly N colors
        exact: Option<u16>,
        /// Show page N
        page: Option<u16>,
        /// Search results sorting
        sorting: Sorting,
        /// Search for palettes with a tag
        tag: Option<String>,
    },
    /// Download a color palette
    Download {
        /// The palette slug (for example: `fairydust-8`)
        slug: String,
        /// The path to download the file(s) to
        path: Option<PathBuf>,
        /// The output format
        format: Format,
        /// The output file size, no-op if the format is not "png"
        size: Option<PngSize>,
    },
}

} // verus!
