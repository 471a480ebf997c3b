//! Downloading a palette: where it is fetched from, and what has to be
//! written to disk for each export format once its body is there.
use std::path::PathBuf;
use vstd::prelude::*;
use vstd::slice::slice_to_vec;
use vstd::string::*;
use crate::palette::{
    hex_channel_text, leading_colors, lemma_leading_colors, lemma_leading_colors_is, parse_color,
    to_hex_channel, Color, DecodeError, DecodeErrorView,
};
use crate::text::{
    decode_text, decoded_text, lemma_blank_text_has_no_token, lemma_newline_bytes_decode,
    line_tokens, split_tokens,
};

verus! {

/// `std::path::PathBuf`, which the library only carries from the request
/// to the caller that writes.
#[verifier::external_type_specification]
#[verifier::external_body]
pub struct ExPathBuf(PathBuf);

/// The address under which the catalog serves its palettes.
pub const CATALOG: &'static str = "https://lospec.com/palette-list/";

/// The name of the manifest file of a folder.
pub const MANIFEST_NAME: &'static str = "Contents.json";

/// The ending of the folder of one color.
pub const COLORSET_SUFFIX: &'static str = ".colorset";

/// How large the raster image of a palette is.
#[derive(Clone, Copy, Debug, PartialEq, Eq, Structural)]
pub enum PngSize {
    /// 1x1px
    X1,
    /// 8x8px
    X8,
    /// 32x32px
    X32,
}

impl PngSize {
    /// What the catalog appends to a slug for an image of this size.
    pub open spec fn suffix(self) -> Seq<char> {
        match self {
            PngSize::X1 => "-1x"@,
            PngSize::X8 => "-8x"@,
            PngSize::X32 => "-32x"@,
        }
    }

    /// What the catalog appends to a slug for an image of this size.
    pub fn slug(&self) -> (s: &'static str)
        ensures
            s@ == self.suffix(),
    {
        match self {
            PngSize::X1 => "-1x",
            PngSize::X8 => "-8x",
            PngSize::X32 => "-32x",
        }
    }
}

/// The two ways in which a fetched body reaches the disk.
#[derive(Clone, Copy, Debug, PartialEq, Eq, Structural)]
pub enum ExportKind {
    /// The body is written as it came.
    Opaque,
    /// The body is a list of colors, from which a folder is built.
    Structured,
}

/// The formats in which a palette can be exported.
#[derive(Clone, Copy, Debug, PartialEq, Eq, Structural)]
pub enum Format {
    /// Xcode's `.colorset` folder format
    Colorset,
    /// List of hex values
    Hex,
    /// PNG image
    Png,
    /// JASC Pal file
    Pal,
    /// Photoshop ASE file
    Ase,
    /// Paint.NET TXT file
    Txt,
    /// GIMP GPL file
    Gpl,
}

impl Format {
    /// The file extension under which the catalog serves the format.
    pub open spec fn extension(self) -> Seq<char> {
        match self {
            Format::Colorset | Format::Hex => "hex"@,
            Format::Png => "png"@,
            Format::Pal => "pal"@,
            Format::Ase => "ase"@,
            Format::Txt => "txt"@,
            Format::Gpl => "gpl"@,
        }
    }

    /// How a body of the format reaches the disk.
    pub open spec fn kind(self) -> ExportKind {
        match self {
            Format::Colorset => ExportKind::Structured,
            Format::Hex | Format::Png | Format::Pal | Format::Ase | Format::Txt | Format::Gpl =>
                ExportKind::Opaque,
        }
    }

    /// Return the file extension used by Lospec.
    pub fn file_extension(&self) -> (s: &'static str)
        ensures
            s@ == self.extension(),
    {
        match self {
            Format::Colorset | Format::Hex => "hex",
            Format::Png => "png",
            Format::Pal => "pal",
            Format::Ase => "ase",
            Format::Txt => "txt",
            Format::Gpl => "gpl",
        }
    }

    /// How a body of the format reaches the disk.
    pub fn export_kind(&self) -> (k: ExportKind)
        ensures
            k == self.kind(),
    {
        match self {
            Format::Colorset => ExportKind::Structured,
            Format::Hex | Format::Png | Format::Pal | Format::Ase | Format::Txt | Format::Gpl =>
                ExportKind::Opaque,
        }
    }
}

/// One thing to do on disk. Folders are named relative to the
/// destination of the download: `None` is the destination itself, `Some`
/// a folder directly inside it.
#[derive(Clone, Debug, PartialEq, Eq)]
pub enum ExportStep {
    /// Write `bytes` to the destination itself, as a file.
    WriteDestination { bytes: Vec<u8> },
    /// Create the folder, and the folders above it that are missing.
    CreateDir { dir: Option<String> },
    /// Write `contents` to the manifest file of the folder.
    WriteManifest { dir: Option<String>, contents: String },
}

/// An `ExportStep` with its texts and bytes as sequences.
pub enum ExportStepView {
    WriteDestination { bytes: Seq<u8> },
    CreateDir { dir: Option<Seq<char>> },
    WriteManifest { dir: Option<Seq<char>>, contents: Seq<char> },
}

impl View for ExportStep {
    type V = ExportStepView;

    open spec fn view(&self) -> ExportStepView {
        match *self {
            ExportStep::WriteDestination { bytes } => ExportStepView::WriteDestination {
                bytes: bytes@,
            },
            ExportStep::CreateDir { dir } => ExportStepView::CreateDir { dir: dir.deep_view() },
            ExportStep::WriteManifest { dir, contents } => ExportStepView::WriteManifest {
                dir: dir.deep_view(),
                contents: contents@,
            },
        }
    }
}

impl DeepView for ExportStep {
    type V = ExportStepView;

    open spec fn deep_view(&self) -> ExportStepView {
        self@
    }
}

/// The manifest of the palette's folder.
pub const FOLDER_MANIFEST: &'static str =
    "{\n  \"info\": {\n    \"author\": \"xcode\",\n    \"version\": 1\n  }\n}";

/// The manifest of a color, up to its blue channel.
pub const COLOR_MANIFEST_HEAD: &'static str =
    "{\n  \"colors\": [\n    {\n      \"color\": {\n        \"color-space\": \"srgb\",\n        \"components\": {\n          \"alpha\": \"1.000\",\n          \"blue\": \"";

/// The manifest of a color, between its blue and its green channel.
pub const COLOR_MANIFEST_GREEN: &'static str = "\",\n          \"green\": \"";

/// The manifest of a color, between its green and its red channel.
pub const COLOR_MANIFEST_RED: &'static str = "\",\n          \"red\": \"";

/// The manifest of a color, after its red channel.
pub const COLOR_MANIFEST_TAIL: &'static str =
    "\"\n        }\n      },\n      \"idiom\": \"universal\"\n    }\n  ],\n  \"info\": {\n    \"author\": \"xcode\",\n    \"version\": 1\n  }\n}";

/// The manifest of the palette's folder. It does not depend on the
/// palette.
pub open spec fn folder_manifest() -> Seq<char> {
    FOLDER_MANIFEST@
}

/// The manifest of one color: a single sRGB entry at full opacity for
/// every device, with each channel written as `hex_channel_text` gives it.
/// The members of each object stand in the order of their names.
pub open spec fn color_manifest(color: Color) -> Seq<char> {
    COLOR_MANIFEST_HEAD@ + hex_channel_text(color.blue) + COLOR_MANIFEST_GREEN@ + hex_channel_text(
        color.green,
    ) + COLOR_MANIFEST_RED@ + hex_channel_text(color.red) + COLOR_MANIFEST_TAIL@
}

/// Generate the `Contents.json` for the palette folder.
pub fn generate_folder_contents() -> (s: String)
    ensures
        s@ == folder_manifest(),
{
    String::from_str(FOLDER_MANIFEST)
}

/// Generate the `Contents.json` for the `.colorset` folder.
pub fn generate_contents(color: Color) -> (s: String)
    ensures
        s@ == color_manifest(color),
{
    let mut s = String::from_str(COLOR_MANIFEST_HEAD);
    s.append(to_hex_channel(color.blue).as_str());
    s.append(COLOR_MANIFEST_GREEN);
    s.append(to_hex_channel(color.green).as_str());
    s.append(COLOR_MANIFEST_RED);
    s.append(to_hex_channel(color.red).as_str());
    s.append(COLOR_MANIFEST_TAIL);
    s
}

/// The name of the folder of the color that `token` names.
pub open spec fn colorset_dir(token: Seq<char>) -> Seq<char> {
    token + COLORSET_SUFFIX@
}

/// The two steps that one color takes: its folder, then the manifest in
/// it.
pub open spec fn color_steps(token: Seq<char>) -> Seq<ExportStepView> {
    seq![
        ExportStepView::CreateDir { dir: Some(colorset_dir(token)) },
        ExportStepView::WriteManifest {
            dir: Some(colorset_dir(token)),
            contents: color_manifest(parse_color(token)->Ok_0),
        },
    ]
}

/// The steps of a structured export: the destination folder and its
/// manifest, then the two steps of every color, in the order of the
/// tokens.
pub open spec fn colorset_steps(tokens: Seq<Seq<char>>) -> Seq<ExportStepView>
    decreases tokens.len(),
{
    if tokens.len() == 0 {
        seq![
            ExportStepView::CreateDir { dir: None },
            ExportStepView::WriteManifest { dir: None, contents: folder_manifest() },
        ]
    } else {
        colorset_steps(tokens.drop_last()) + color_steps(tokens.last())
    }
}

/// What is planned for an export: the steps to perform on disk, in
/// order, and the error that the export ends with once they are done, if it
/// fails. A failure does not undo the steps before it.
#[derive(Clone, Debug, PartialEq, Eq)]
pub struct ExportPlan {
    pub steps: Vec<ExportStep>,
    pub failure: Option<DecodeError>,
}

/// An `ExportPlan` with its steps and its error as views.
pub struct ExportPlanView {
    pub steps: Seq<ExportStepView>,
    pub failure: Option<DecodeErrorView>,
}

impl View for ExportPlan {
    type V = ExportPlanView;

    open spec fn view(&self) -> ExportPlanView {
        ExportPlanView { steps: self.steps.deep_view(), failure: self.failure.deep_view() }
    }
}

/// What comes next while a plan is carried out.
#[derive(Debug, PartialEq, Eq)]
pub enum ExportAction<'a> {
    /// Perform this step.
    Perform(&'a ExportStep),
    /// The last step failed on disk: nothing more is done, and what was
    /// written stays.
    Stop,
    /// Every step is done, and the export fails with this error.
    Fail(&'a DecodeError),
    /// Every step is done, and the export has succeeded.
    Finish,
}

/// An `ExportAction` with its step or error as a view.
pub enum ExportActionView {
    Perform(ExportStepView),
    Stop,
    Fail(DecodeErrorView),
    Finish,
}

impl View for ExportAction<'_> {
    type V = ExportActionView;

    open spec fn view(&self) -> ExportActionView {
        match *self {
            ExportAction::Perform(step) => ExportActionView::Perform(step@),
            ExportAction::Stop => ExportActionView::Stop,
            ExportAction::Fail(e) => ExportActionView::Fail(e@),
            ExportAction::Finish => ExportActionView::Finish,
        }
    }
}

impl ExportPlanView {
    /// What comes next once `done` steps have been tried, the last of
    /// them with success or not. The steps are taken in order; the first
    /// that fails on disk ends the export; the plan's own error comes
    /// after its last step.
    pub open spec fn next(self, done: nat, last_ok: bool) -> ExportActionView {
        if !last_ok {
            ExportActionView::Stop
        } else if done < self.steps.len() {
            ExportActionView::Perform(self.steps[done as int])
        } else {
            match self.failure {
                Some(e) => ExportActionView::Fail(e),
                None => ExportActionView::Finish,
            }
        }
    }
}

impl ExportPlan {
    /// What comes next once `done` steps have been tried, the last of
    /// them with success (`last_ok`) or not. Before the first step,
    /// `last_ok` is true.
    pub fn next(&self, done: usize, last_ok: bool) -> (action: ExportAction<'_>)
        ensures
            action@ == self@.next(done as nat, last_ok),
    {
        if !last_ok {
            ExportAction::Stop
        } else if done < self.steps.len() {
            ExportAction::Perform(&self.steps[done])
        } else {
            match &self.failure {
                Some(e) => ExportAction::Fail(e),
                None => ExportAction::Finish,
            }
        }
    }
}

/// What a structured export of `tokens` gives. The tokens are taken in
/// order, and for each its folder is created before the token is read as
/// a color. So where every token is a color, the plan is all the steps;
/// and else it is the steps of the colors before the first token that is
/// none, then the folder of that token, and the export fails with the
/// codec's reason for it.
pub open spec fn colorset_plan(tokens: Seq<Seq<char>>) -> ExportPlanView {
    let k = leading_colors(tokens) as int;
    if k < tokens.len() {
        ExportPlanView {
            steps: colorset_steps(tokens.take(k)).push(
                ExportStepView::CreateDir { dir: Some(colorset_dir(tokens[k])) },
            ),
            failure: Some(
                DecodeErrorView::InvalidColor {
                    token: tokens[k],
                    reason: parse_color(tokens[k])->Err_0,
                },
            ),
        }
    } else {
        ExportPlanView { steps: colorset_steps(tokens), failure: None }
    }
}

/// What the export of a body in a format gives. An opaque format takes
/// any body as it is; the structured one reads it as UTF-8 text with one
/// color on each line that is not empty, and plans nothing for a body
/// that is no such text.
pub open spec fn export_plan(format: Format, body: Seq<u8>) -> ExportPlanView {
    match format.kind() {
        ExportKind::Opaque => ExportPlanView {
            steps: seq![ExportStepView::WriteDestination { bytes: body }],
            failure: None,
        },
        ExportKind::Structured => match decoded_text(body) {
            Some(text) => colorset_plan(line_tokens(text)),
            None => ExportPlanView {
                steps: Seq::empty(),
                failure: Some(DecodeErrorView::InvalidText),
            },
        },
    }
}

/// Export a palette as `.colorset`: plans the folder of the palette and
/// one folder for each color, up to the first token that is no color.
pub fn export_colorset(tokens: &Vec<String>) -> (plan: ExportPlan)
    ensures
        plan@ == colorset_plan(tokens.deep_view()),
        plan.failure is None <==> forall|j: int|
            0 <= j < tokens.len() ==> parse_color(#[trigger] tokens.deep_view()[j]) is Ok,
{
    let ghost texts = tokens.deep_view();
    proof {
        lemma_leading_colors(texts);
    }
    let mut steps: Vec<ExportStep> = Vec::new();
    steps.push(ExportStep::CreateDir { dir: None });
    steps.push(ExportStep::WriteManifest { dir: None, contents: generate_folder_contents() });
    assert(steps.deep_view() =~= colorset_steps(texts.take(0)));
    let mut i: usize = 0;
    while i < tokens.len()
        invariant
            texts == tokens.deep_view(),
            i <= tokens.len(),
            forall|j: int| 0 <= j < i ==> parse_color(#[trigger] texts[j]) is Ok,
            steps.deep_view() == colorset_steps(texts.take(i as int)),
        decreases tokens.len() - i,
    {
        let mut dir = tokens[i].clone();
        dir.append(COLORSET_SUFFIX);
        let ghost before = steps.deep_view();
        match <Color as core::str::FromStr>::from_str(tokens[i].as_str()) {
            Ok(color) => {
                steps.push(ExportStep::CreateDir { dir: Some(dir.clone()) });
                steps.push(
                    ExportStep::WriteManifest { dir: Some(dir), contents: generate_contents(color) },
                );
                assert(texts.take(i + 1).drop_last() =~= texts.take(i as int));
                assert(steps.deep_view() =~= before + color_steps(texts[i as int]));
            },
            Err(reason) => {
                steps.push(ExportStep::CreateDir { dir: Some(dir) });
                let failure = Some(DecodeError::InvalidColor { token: tokens[i].clone(), reason });
                proof {
                    lemma_leading_colors_is(texts, i as int);
                    assert(steps.deep_view() =~= before.push(
                        ExportStepView::CreateDir { dir: Some(colorset_dir(texts[i as int])) },
                    ));
                }
                return ExportPlan { steps, failure };
            },
        }
        i = i + 1;
    }
    proof {
        lemma_leading_colors_is(texts, i as int);
        assert(texts.take(i as int) =~= texts);
    }
    ExportPlan { steps, failure: None }
}

impl Format {
    /// What has to be done on disk for a body of this format. An opaque
    /// format never fails and writes the body unchanged.
    pub fn export(&self, body: &[u8]) -> (plan: ExportPlan)
        ensures
            plan@ == export_plan(*self, body@),
            self.kind() == ExportKind::Opaque ==> plan.failure is None && plan.steps.deep_view()
                == seq![ExportStepView::WriteDestination { bytes: body@ }],
            self.kind() == ExportKind::Structured ==> (plan.failure is None <==> decoded_text(
                body@,
            ) is Some && forall|j: int|
                0 <= j < line_tokens(decoded_text(body@)->Some_0).len() ==> parse_color(
                    #[trigger] line_tokens(decoded_text(body@)->Some_0)[j],
                ) is Ok),
    {
        match self.export_kind() {
            ExportKind::Opaque => {
                let mut steps: Vec<ExportStep> = Vec::new();
                steps.push(ExportStep::WriteDestination { bytes: slice_to_vec(body) });
                assert(steps.deep_view() =~= seq![
                    ExportStepView::WriteDestination { bytes: body@ },
                ]);
                ExportPlan { steps, failure: None }
            },
            ExportKind::Structured => match decode_text(body) {
                Some(text) => export_colorset(&split_tokens(text)),
                None => {
                    let steps: Vec<ExportStep> = Vec::new();
                    assert(steps.deep_view() =~= Seq::<ExportStepView>::empty());
                    ExportPlan { steps, failure: Some(DecodeError::InvalidText) }
                },
            },
        }
    }
}

/// A request to download one palette.
#[derive(Debug)]
pub struct Download {
    /// Palette slug.
    slug: String,
    /// Output file path.
    path: PathBuf,
    /// Output file format.
    format: Format,
    /// Output file size (only if PNG).
    size: Option<PngSize>,
}

/// A `Download` with its slug as a sequence.
pub struct DownloadView {
    pub slug: Seq<char>,
    pub path: PathBuf,
    pub format: Format,
    pub size: Option<PngSize>,
}

/// What a slug is extended by before the fetch: the size of a raster
/// image, 32x32 where none was asked for, and nothing for the other
/// formats.
pub open spec fn size_suffix(format: Format, size: Option<PngSize>) -> Seq<char> {
    if format == Format::Png {
        match size {
            Some(size) => size.suffix(),
            None => PngSize::X32.suffix(),
        }
    } else {
        Seq::empty()
    }
}

/// The address from which the palette `slug` is fetched in a format.
pub open spec fn palette_url(slug: Seq<char>, format: Format, size: Option<PngSize>) -> Seq<char> {
    CATALOG@ + slug + size_suffix(format, size) + "."@ + format.extension()
}

impl DownloadView {
    /// The address that the palette is fetched from.
    pub open spec fn url(self) -> Seq<char> {
        palette_url(self.slug, self.format, self.size)
    }
}

impl Format {
    /// The address from which the palette `slug` is fetched in this
    /// format. The size counts for a raster image only.
    pub fn url(&self, slug: &str, size: Option<PngSize>) -> (s: String)
        ensures
            s@ == palette_url(slug@, *self, size),
    {
        let mut s = String::from_str(CATALOG);
        s.append(slug);
        match (self, size) {
            (Format::Png, None) => s.append(PngSize::X32.slug()),
            (Format::Png, Some(size)) => s.append(size.slug()),
            _ => {},
        }
        s.append(".");
        s.append(self.file_extension());
        s
    }
}

impl View for Download {
    type V = DownloadView;

    closed spec fn view(&self) -> DownloadView {
        DownloadView { slug: self.slug@, path: self.path, format: self.format, size: self.size }
    }
}

impl Download {
    /// A request for the palette `slug`, to be written to `path`.
    pub fn new(slug: String, path: PathBuf, format: Format, size: Option<PngSize>) -> (d: Self)
        ensures
            d@ == (DownloadView { slug: slug@, path, format, size }),
    {
        Self { slug, path, format, size }
    }

    /// The address that the palette is fetched from.
    pub fn url(&self) -> (s: String)
        ensures
            s@ == self@.url(),
    {
        self.format.url(self.slug.as_str(), self.size)
    }

    /// What has to be done on disk once the body of the palette is there.
    pub fn export(&self, body: &[u8]) -> (plan: ExportPlan)
        ensures
            plan@ == export_plan(self@.format, body@),
            self@.format.kind() == ExportKind::Opaque ==> plan.failure is None
                && plan.steps.deep_view() == seq![
                ExportStepView::WriteDestination { bytes: body@ },
            ],
            self@.format.kind() == ExportKind::Structured ==> (plan.failure is None
                <==> decoded_text(body@) is Some && forall|j: int|
                0 <= j < line_tokens(decoded_text(body@)->Some_0).len() ==> parse_color(
                    #[trigger] line_tokens(decoded_text(body@)->Some_0)[j],
                ) is Ok),
    {
        self.format.export(body)
    }

    /// Palette slug.
    pub fn slug(&self) -> (s: &String)
        ensures
            s@ == self@.slug,
    {
        &self.slug
    }

    /// Output file path.
    pub fn path(&self) -> (p: &PathBuf)
        ensures
            *p == self@.path,
    {
        &self.path
    }

    /// Output file format.
    pub fn format(&self) -> (f: Format)
        ensures
            f == self@.format,
    {
        self.format
    }

    /// Output file size (only if PNG).
    pub fn size(&self) -> (s: Option<PngSize>)
        ensures
            s == self@.size,
    {
        self.size
    }
}

/// A structured export has two steps for the destination and two for
/// every token: the folder named after the token, then in it the
/// manifest of the color that the token stands for.
pub proof fn lemma_colorset_steps_at(tokens: Seq<Seq<char>>, i: int)
    requires
        0 <= i < tokens.len(),
    ensures
        colorset_steps(tokens).len() == 2 + 2 * tokens.len(),
        colorset_steps(tokens)[0] == (ExportStepView::CreateDir { dir: None }),
        colorset_steps(tokens)[1] == (ExportStepView::WriteManifest {
            dir: None,
            contents: folder_manifest(),
        }),
        colorset_steps(tokens)[2 + 2 * i] == (ExportStepView::CreateDir {
            dir: Some(colorset_dir(tokens[i])),
        }),
        colorset_steps(tokens)[3 + 2 * i] == (ExportStepView::WriteManifest {
            dir: Some(colorset_dir(tokens[i])),
            contents: color_manifest(parse_color(tokens[i])->Ok_0),
        }),
    decreases tokens.len(),
{
    lemma_colorset_steps_len(tokens.drop_last());
    if i < tokens.len() - 1 {
        lemma_colorset_steps_at(tokens.drop_last(), i);
    } else if tokens.len() > 1 {
        lemma_colorset_steps_at(tokens.drop_last(), 0);
    }
}

/// A structured export has two steps for the destination and two for
/// every token.
pub proof fn lemma_colorset_steps_len(tokens: Seq<Seq<char>>)
    ensures
        colorset_steps(tokens).len() == 2 + 2 * tokens.len(),
    decreases tokens.len(),
{
    if tokens.len() > 0 {
        lemma_colorset_steps_len(tokens.drop_last());
    }
}

/// The structured export of a body that is empty, or holds nothing but
/// newlines, does not fail: it creates the destination folder and writes
/// its manifest, and plans no folder for any color.
pub proof fn lemma_export_of_blank_body(body: Seq<u8>)
    requires
        forall|i: int| 0 <= i < body.len() ==> body[i] == 0x0Au8,
    ensures
        export_plan(Format::Colorset, body) == (ExportPlanView {
            steps: seq![
                ExportStepView::CreateDir { dir: None },
                ExportStepView::WriteManifest { dir: None, contents: folder_manifest() },
            ],
            failure: None,
        }),
{
    lemma_newline_bytes_decode(body);
    lemma_blank_text_has_no_token(decoded_text(body)->Some_0);
}

/// The export of a body in an opaque format is one step, which writes
/// the very bytes of the body to the destination, whatever they are.
pub proof fn lemma_opaque_export_keeps_body(format: Format, body: Seq<u8>)
    requires
        format != Format::Colorset,
    ensures
        export_plan(format, body) == (ExportPlanView {
            steps: seq![ExportStepView::WriteDestination { bytes: body }],
            failure: None,
        }),
{
}

/// Where the first `k` tokens are colors and the next one is not, the
/// structured export keeps every step of those `k` colors, creates the
/// folder of the next token, writes no manifest for it, plans nothing
/// for the tokens after it, and fails with the codec's reason.
pub proof fn lemma_colorset_plan_of_bad_token(tokens: Seq<Seq<char>>, k: int)
    requires
        0 <= k < tokens.len(),
        forall|j: int| 0 <= j < k ==> parse_color(#[trigger] tokens[j]) is Ok,
        parse_color(tokens[k]) is Err,
    ensures
        colorset_plan(tokens).steps.len() == 3 + 2 * k,
        colorset_plan(tokens).steps.take(2 + 2 * k) == colorset_steps(tokens.take(k)),
        colorset_plan(tokens).steps.last() == (ExportStepView::CreateDir {
            dir: Some(colorset_dir(tokens[k])),
        }),
        colorset_plan(tokens).failure == Some(
            DecodeErrorView::InvalidColor {
                token: tokens[k],
                reason: parse_color(tokens[k])->Err_0,
            },
        ),
{
    lemma_leading_colors_is(tokens, k);
    lemma_colorset_steps_len(tokens.take(k));
    assert(colorset_plan(tokens).steps.take(2 + 2 * k) =~= colorset_steps(tokens.take(k)));
}

/// A plan is carried out step by step, in order, as long as each step
/// succeeds; after its last step comes its own outcome; and after a step
/// that failed on disk comes nothing more.
pub proof fn lemma_plan_is_carried_out_in_order(plan: ExportPlanView, done: nat)
    ensures
        plan.next(done, false) == ExportActionView::Stop,
        done < plan.steps.len() ==> plan.next(done, true) == ExportActionView::Perform(
            plan.steps[done as int],
        ),
        done >= plan.steps.len() && plan.failure is None ==> plan.next(done, true)
            == ExportActionView::Finish,
        done >= plan.steps.len() && plan.failure is Some ==> plan.next(done, true)
            == ExportActionView::Fail(plan.failure->Some_0),
{
}

} // verus!
