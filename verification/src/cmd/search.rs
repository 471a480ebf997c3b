//! Searching the catalog: the request, the query that it becomes, and the
//! listing of what it finds.
use vstd::prelude::*;
use vstd::string::*;
use crate::cli::Sorting;
use crate::palette::{Color, Palette, PaletteView, Palettes};
use crate::text::{decimal, decimal_text};

verus! {

/// The address that a search is sent to.
pub const ENDPOINT: &'static str = "https://lospec.com/palette-list/load";

/// Color search filter.
#[derive(Clone, Copy, Debug, PartialEq, Eq, Structural)]
pub enum Filter {
    /// Palettes with any number of colors.
    Any,
    /// Palettes with N maximum colors.
    Max(u16),
    /// Palettes with N minimum colors.
    Min(u16),
    /// Palettes with exactly N colors.
    Exact(u16),
}

impl Filter {
    /// The name by which the catalog knows the kind of filter.
    pub open spec fn kind_name(self) -> Seq<char> {
        match self {
            Filter::Any => "any"@,
            Filter::Max(_) => "max"@,
            Filter::Min(_) => "min"@,
            Filter::Exact(_) => "exact"@,
        }
    }

    /// The number of colors that the filter speaks of, if it speaks of
    /// one.
    pub open spec fn number(self) -> Option<u16> {
        match self {
            Filter::Any => None,
            Filter::Max(n) => Some(n),
            Filter::Min(n) => Some(n),
            Filter::Exact(n) => Some(n),
        }
    }

    /// The filter that three optional limits stand for. The first that is
    /// given decides: the maximum, then the minimum, then the exact
    /// number.
    pub open spec fn chosen(max: Option<u16>, min: Option<u16>, exact: Option<u16>) -> Filter {
        if max is Some {
            Filter::Max(max->Some_0)
        } else if min is Some {
            Filter::Min(min->Some_0)
        } else if exact is Some {
            Filter::Exact(exact->Some_0)
        } else {
            Filter::Any
        }
    }

    /// The filter that three optional limits stand for.
    pub fn from_limits(max: Option<u16>, min: Option<u16>, exact: Option<u16>) -> (f: Filter)
        ensures
            f == Filter::chosen(max, min, exact),
    {
        if let Some(max) = max {
            Filter::Max(max)
        } else if let Some(min) = min {
            Filter::Min(min)
        } else if let Some(exact) = exact {
            Filter::Exact(exact)
        } else {
            Filter::Any
        }
    }
}

/// A request to search the catalog.
#[derive(Clone, Debug, PartialEq, Eq)]
pub struct Search {
    /// Which page to show.
    pub page: u16,
    /// Search filter.
    pub filter: Filter,
    /// Search results sorting.
    pub sorting: Sorting,
    /// Search tag (empty if no tag is being searched).
    pub tag: String,
}

impl Search {
    /// The parameters of the request, in the order in which they are
    /// sent: the page, the sorting, the tag and the kind of filter, and
    /// after them the number of colors where the filter has one.
    pub open spec fn query(self) -> Seq<(Seq<char>, Seq<char>)> {
        let always = seq![
            ("page"@, decimal_text(self.page as nat)),
            ("sortingType"@, self.sorting.display_name()),
            ("tag"@, self.tag@),
            ("colorNumberFilterType"@, self.filter.kind_name()),
        ];
        match self.filter.number() {
            Some(n) => always.push(("colorNumber"@, decimal_text(n as nat))),
            None => always,
        }
    }

    /// A search for the first page and for no tag, unless they are given.
    pub fn new(page: Option<u16>, filter: Filter, sorting: Sorting, tag: Option<String>) -> (s:
        Self)
        ensures
            s.page == (match page {
                Some(n) => n,
                None => 1,
            }),
            s.filter == filter,
            s.sorting == sorting,
            s.tag@ == (match tag {
                Some(t) => t@,
                None => Seq::empty(),
            }),
    {
        Self {
            page: match page {
                Some(n) => n,
                None => 1,
            },
            filter,
            sorting,
            tag: match tag {
                Some(t) => t,
                None => String::new(),
            },
        }
    }

    /// Generate query parameters for the request.
    pub fn to_query(self) -> (params: Vec<(&'static str, String)>)
        ensures
            params.deep_view() == self.query(),
    {
        let mut params: Vec<(&'static str, String)> = Vec::new();
        params.push(("page", decimal(self.page)));
        params.push(("sortingType", self.sorting.to_string()));
        params.push(("tag", self.tag));
        match self.filter {
            Filter::Any => params.push(("colorNumberFilterType", String::from_str("any"))),
            Filter::Max(n) => {
                params.push(("colorNumberFilterType", String::from_str("max")));
                params.push(("colorNumber", decimal(n)));
            },
            Filter::Min(n) => {
                params.push(("colorNumberFilterType", String::from_str("min")));
                params.push(("colorNumber", decimal(n)));
            },
            Filter::Exact(n) => {
                params.push(("colorNumberFilterType", String::from_str("exact")));
                params.push(("colorNumber", decimal(n)));
            },
        }
        params
    }
}

/// The number of colors is sent exactly when the filter has one, as the
/// last parameter; a filter for any number sends no parameter of that
/// name. The kind of the filter is always the fourth parameter.
pub proof fn lemma_query_color_number(search: Search)
    ensures
        search.query()[3] == ("colorNumberFilterType"@, search.filter.kind_name()),
        search.filter == Filter::Any ==> search.query().len() == 4 && forall|i: int|
            0 <= i < search.query().len() ==> (#[trigger] search.query()[i]).0 != "colorNumber"@,
        search.filter != Filter::Any ==> search.query().len() == 5 && search.query()[4] == (
            "colorNumber"@,
            decimal_text(search.filter.number()->Some_0 as nat),
        ),
{
    reveal_strlit("page");
    reveal_strlit("sortingType");
    reveal_strlit("tag");
    reveal_strlit("colorNumberFilterType");
    reveal_strlit("colorNumber");
    assert("sortingType"@[0] != "colorNumber"@[0]);
    assert("colorNumberFilterType"@.len() != "colorNumber"@.len());
}

/// The text of a swatch before it is colored: two blanks.
pub const SWATCH: &'static str = "  ";

/// The sequence that ends a style on a terminal.
pub const RESET: &'static str = "\x1b[0m";

/// The sequence that starts the style with the given code on a terminal.
pub open spec fn style_of(code: Seq<char>) -> Seq<char> {
    "\x1b["@ + code + "m"@
}

/// The code of the background that has exactly the channels of `color`.
pub open spec fn true_color_code(color: Color) -> Seq<char> {
    "48;2;"@ + decimal_text(color.red as nat) + ";"@ + decimal_text(color.green as nat) + ";"@
        + decimal_text(color.blue as nat)
}

/// The code of one of the sixteen basic backgrounds, which a terminal
/// without true color shows in place of the color.
pub open spec fn basic_background_code(n: nat) -> Seq<char> {
    decimal_text(n)
}

/// Whether `style` starts a background for `color`: the color itself, or
/// one of the sixteen basic backgrounds.
pub open spec fn is_background_style(color: Color, style: Seq<char>) -> bool {
    ||| style == style_of(true_color_code(color))
    ||| exists|n: nat|
        (40 <= n <= 47 || 100 <= n <= 107) && style == style_of(#[trigger] basic_background_code(n))
}

/// Whether `shown` is `text` on a background of `color`, as a terminal
/// is given it. Where colors are off it is the text alone. Where they are
/// on it is the text between a style for the color and the sequence that
/// resets it. Where they are switched off while the text is written, the
/// style is left out.
pub open spec fn is_swatch(text: Seq<char>, color: Color, shown: Seq<char>) -> bool {
    ||| shown == text
    ||| shown == text + RESET@
    ||| exists|style: Seq<char>|
        is_background_style(color, style) && shown == #[trigger] (style + text) + RESET@
}

/// `colored`'s `on_truecolor`, written out through `Display`. Whether
/// and how the background is colored is decided by the terminal and the
/// environment. Trusted: whatever they decide, the outcome is one that
/// `is_swatch` allows for this text and this color. A text with an escape
/// character in it is left out, because `colored` rewrites reset
/// sequences inside the text.
#[verifier::external_body]
fn swatch(text: &str, color: Color) -> (s: String)
    requires
        forall|i: int| 0 <= i < text@.len() ==> text@[i] != '\x1b',
    ensures
        is_swatch(text@, color, s@),
{
    format!("{}", colored::Colorize::on_truecolor(text, color.red, color.green, color.blue))
}

impl PaletteView {
    /// The line that announces the palette: its title, and for one with
    /// an owner also the owner's name.
    pub open spec fn heading(self) -> Seq<char> {
        match self.user {
            Some(user) => self.title + " by "@ + user.name,
            None => self.title,
        }
    }

    /// The palette as it is listed, for given swatches: its heading on a
    /// line, the swatches side by side on the next, and an empty line.
    pub open spec fn listing(self, swatches: Seq<Seq<char>>) -> Seq<char> {
        self.heading() + "\n"@ + swatches.flatten() + "\n\n"@
    }

    /// Whether `text` lists the palette with one swatch for each of its
    /// colors, each on a background of its color, in their order.
    pub open spec fn is_rendering(self, text: Seq<char>) -> bool {
        exists|swatches: Seq<Seq<char>>|
            {
                &&& swatches.len() == self.colors.len()
                &&& forall|i: int|
                    0 <= i < swatches.len() ==> is_swatch(
                        SWATCH@,
                        self.colors[i],
                        #[trigger] swatches[i],
                    )
                &&& text == #[trigger] self.listing(swatches)
            }
    }
}

/// Whether `text` lists the palettes of a page one after the other, in
/// the order of the page.
pub open spec fn is_page_rendering(page: Seq<PaletteView>, text: Seq<char>) -> bool {
    exists|blocks: Seq<Seq<char>>|
        {
            &&& blocks.len() == page.len()
            &&& forall|i: int| 0 <= i < blocks.len() ==> page[i].is_rendering(#[trigger] blocks[i])
            &&& text == #[trigger] blocks.flatten()
        }
}

impl Palette {
    /// The line that announces the palette in a listing.
    pub fn heading(&self) -> (s: String)
        ensures
            s@ == self@.heading(),
    {
        let mut s = self.title.clone();
        match &self.user {
            Some(user) => {
                s.append(" by ");
                s.append(user.name.as_str());
            },
            None => {},
        }
        s
    }

    /// Lists the palette with the swatches that it is given.
    pub fn listing(&self, swatches: &Vec<String>) -> (s: String)
        ensures
            s@ == self@.listing(swatches.deep_view()),
    {
        let mut s = self.heading();
        s.append("\n");
        let ghost start = s@;
        let ghost texts = swatches.deep_view();
        let mut i: usize = 0;
        while i < swatches.len()
            invariant
                texts == swatches.deep_view(),
                i <= swatches.len(),
                s@ == start + texts.take(i as int).flatten(),
            decreases swatches.len() - i,
        {
            proof {
                texts.take(i as int).lemma_flatten_push(texts[i as int]);
                assert(texts.take(i as int).push(texts[i as int]) =~= texts.take(i + 1));
            }
            s.append(swatches[i].as_str());
            i = i + 1;
        }
        assert(texts.take(i as int) =~= texts);
        s.append("\n\n");
        s
    }

    /// Lists the palette with one swatch for each of its colors, in their
    /// order.
    pub fn render(&self) -> (s: String)
        ensures
            self@.is_rendering(s@),
    {
        proof {
            reveal_strlit("  ");
        }
        let mut swatches: Vec<String> = Vec::new();
        let mut i: usize = 0;
        while i < self.colors.len()
            invariant
                i <= self.colors.len(),
                swatches@.len() == i,
                forall|j: int| 0 <= j < SWATCH@.len() ==> SWATCH@[j] != '\x1b',
                forall|j: int|
                    0 <= j < i ==> is_swatch(SWATCH@, self.colors@[j], #[trigger] swatches@[j]@),
            decreases self.colors.len() - i,
        {
            swatches.push(swatch(SWATCH, self.colors[i]));
            i = i + 1;
        }
        let s = self.listing(&swatches);
        assert(forall|j: int|
            0 <= j < swatches.len() ==> is_swatch(
                SWATCH@,
                self@.colors[j],
                #[trigger] swatches.deep_view()[j],
            ));
        s
    }
}

impl Palettes {
    /// Lists the palettes of the page, in its order.
    pub fn render(&self) -> (s: String)
        ensures
            is_page_rendering(self@, s@),
    {
        let mut s = String::new();
        let ghost mut blocks: Seq<Seq<char>> = Seq::empty();
        let mut i: usize = 0;
        while i < self.palettes.len()
            invariant
                i <= self.palettes.len(),
                blocks.len() == i,
                forall|j: int| 0 <= j < i ==> self@[j].is_rendering(#[trigger] blocks[j]),
                s@ == blocks.flatten(),
            decreases self.palettes.len() - i,
        {
            let block = self.palettes[i].render();
            proof {
                blocks.lemma_flatten_push(block@);
                blocks = blocks.push(block@);
            }
            s.append(block.as_str());
            i = i + 1;
        }
        s
    }
}

} // verus!
