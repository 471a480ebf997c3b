//! The palette model and the color codec.
use vstd::prelude::*;
use vstd::string::*;
use crate::text::{
    hex_digit_value, hex_value, is_hex_digit, lemma_upper_hex_digit_of_value,
    lemma_value_of_upper_hex_digit, to_upper_hex, upper_hex_char, upper_hex_digit,
};

verus! {

/// Why a text is no color.
#[derive(Clone, Copy, Debug, PartialEq, Eq, Structural)]
pub enum ParseColorError {
    /// Fewer than six characters are left after the optional prefix.
    InvalidLength,
    /// One of the first six characters is no hexadecimal digit.
    InvalidDigit,
}

impl ParseColorError {
    /// The sentence that describes the error.
    pub open spec fn message(self) -> Seq<char> {
        match self {
            ParseColorError::InvalidLength => "unable to parse hex value"@,
            ParseColorError::InvalidDigit => "invalid digit found in string"@,
        }
    }
}

impl ToString for ParseColorError {
    /// The sentence that describes the error.
    fn to_string(&self) -> (s: String)
        ensures
            s@ == self.message(),
    {
        match self {
            ParseColorError::InvalidLength => String::from_str("unable to parse hex value"),
            ParseColorError::InvalidDigit => String::from_str("invalid digit found in string"),
        }
    }
}

/// An opaque color of three 8-bit channels.
#[derive(Clone, Copy, Debug, PartialEq, Eq, Structural)]
pub struct Color {
    pub red: u8,
    pub green: u8,
    pub blue: u8,
}

/// Whether `s` starts with the prefix `0x`.
pub open spec fn has_hex_prefix(s: Seq<char>) -> bool {
    s.len() >= 2 && s[0] == '0' && s[1] == 'x'
}

/// What is left of `s` once an optional leading `0x` is taken away.
pub open spec fn color_digits(s: Seq<char>) -> Seq<char> {
    if has_hex_prefix(s) {
        s.skip(2)
    } else {
        s
    }
}

/// The byte that two hexadecimal digits stand for.
pub open spec fn channel_value(high: char, low: char) -> int {
    16 * hex_digit_value(high) + hex_digit_value(low)
}

/// The color that `s` stands for, or why it stands for none. Only the
/// first six characters after the prefix are read; what follows them is
/// ignored.
pub open spec fn parse_color(s: Seq<char>) -> Result<Color, ParseColorError> {
    let d = color_digits(s);
    if d.len() < 6 {
        Err(ParseColorError::InvalidLength)
    } else if !(forall|i: int| 0 <= i < 6 ==> is_hex_digit(#[trigger] d[i])) {
        Err(ParseColorError::InvalidDigit)
    } else {
        Ok(
            Color {
                red: channel_value(d[0], d[1]) as u8,
                green: channel_value(d[2], d[3]) as u8,
                blue: channel_value(d[4], d[5]) as u8,
            },
        )
    }
}

/// The two upper-case hexadecimal digits of a byte.
pub open spec fn channel_digits(value: u8) -> Seq<char> {
    seq![upper_hex_digit(value as int / 16), upper_hex_digit(value as int % 16)]
}

/// A channel as it stands in a manifest: `0x` and two upper-case digits.
pub open spec fn hex_channel_text(value: u8) -> Seq<char> {
    seq!['0', 'x'] + channel_digits(value)
}

/// Reads the two digits of `s` at `at` as one byte.
fn channel_at(s: &str, at: usize) -> (v: Option<u8>)
    requires
        at + 2 <= s@.len() <= usize::MAX,
    ensures
        v is Some <==> is_hex_digit(s@[at as int]) && is_hex_digit(s@[at + 1]),
        v matches Some(b) ==> b == channel_value(s@[at as int], s@[at + 1]),
{
    let high = hex_value(s.get_char(at));
    let low = hex_value(s.get_char(at + 1));
    match (high, low) {
        (Some(h), Some(l)) => Some(h * 16 + l),
        _ => None,
    }
}

impl core::str::FromStr for Color {
    type Err = ParseColorError;

    /// Parses six hexadecimal digits, two per channel, after an optional
    /// `0x`.
    fn from_str(s: &str) -> (r: Result<Color, ParseColorError>)
        ensures
            r == parse_color(s@),
    {
        let len = s.unicode_len();
        let start: usize = if len >= 2 && s.get_char(0) == '0' && s.get_char(1) == 'x' {
            2
        } else {
            0
        };
        if len - start < 6 {
            return Err(ParseColorError::InvalidLength);
        }
        let red = channel_at(s, start);
        let green = channel_at(s, start + 2);
        let blue = channel_at(s, start + 4);
        match (red, green, blue) {
            (Some(red), Some(green), Some(blue)) => Ok(Color { red, green, blue }),
            _ => Err(ParseColorError::InvalidDigit),
        }
    }
}

/// Renders one channel as `0x` and two upper-case hexadecimal digits.
pub fn to_hex_channel(value: u8) -> (s: String)
    ensures
        s@ == hex_channel_text(value),
{
    let mut s = String::new();
    s.push('0');
    s.push('x');
    s.push(upper_hex_char(value / 16));
    s.push(upper_hex_char(value % 16));
    s
}

/// Parsing a text and rendering a channel gives, after `0x`, the two
/// digits that the channel was read from, in upper case.
pub proof fn lemma_render_after_parse(s: Seq<char>)
    requires
        parse_color(s) is Ok,
    ensures
        ({
            let c = parse_color(s)->Ok_0;
            let d = color_digits(s);
            &&& hex_channel_text(c.red) == seq!['0', 'x', to_upper_hex(d[0]), to_upper_hex(d[1])]
            &&& hex_channel_text(c.green) == seq!['0', 'x', to_upper_hex(d[2]), to_upper_hex(d[3])]
            &&& hex_channel_text(c.blue) == seq!['0', 'x', to_upper_hex(d[4]), to_upper_hex(d[5])]
        }),
{
    let d = color_digits(s);
    assert forall|i: int| 0 <= i < 6 implies 0 <= hex_digit_value(d[i]) < 16 && upper_hex_digit(
        hex_digit_value(d[i]),
    ) == to_upper_hex(d[i]) by {
        lemma_upper_hex_digit_of_value(d[i]);
    }
    lemma_channel_digits(d[0], d[1]);
    lemma_channel_digits(d[2], d[3]);
    lemma_channel_digits(d[4], d[5]);
}

/// The byte of two hexadecimal digits renders to those digits in upper case.
proof fn lemma_channel_digits(high: char, low: char)
    requires
        is_hex_digit(high),
        is_hex_digit(low),
    ensures
        0 <= channel_value(high, low) < 256,
        hex_channel_text(channel_value(high, low) as u8) == seq![
            '0',
            'x',
            to_upper_hex(high),
            to_upper_hex(low),
        ],
{
    lemma_upper_hex_digit_of_value(high);
    lemma_upper_hex_digit_of_value(low);
}

/// The six digits that a color renders to, channel by channel.
pub open spec fn color_text(c: Color) -> Seq<char> {
    channel_digits(c.red) + channel_digits(c.green) + channel_digits(c.blue)
}

/// Parsing the digits that a color renders to gives the color back, with
/// the prefix and without it.
pub proof fn lemma_parse_after_render(c: Color)
    ensures
        parse_color(color_text(c)) == Ok::<Color, ParseColorError>(c),
        parse_color(seq!['0', 'x'] + color_text(c)) == Ok::<Color, ParseColorError>(c),
{
    lemma_value_of_upper_hex_digit(c.red as int / 16);
    lemma_value_of_upper_hex_digit(c.red as int % 16);
    lemma_value_of_upper_hex_digit(c.green as int / 16);
    lemma_value_of_upper_hex_digit(c.green as int % 16);
    lemma_value_of_upper_hex_digit(c.blue as int / 16);
    lemma_value_of_upper_hex_digit(c.blue as int % 16);
}

/// An instant in UTC: the whole seconds since the Unix epoch and the
/// nanoseconds after them.
#[derive(Clone, Copy, Debug, PartialEq, Eq, Structural)]
pub struct UtcDateTime {
    pub seconds: i64,
    pub nanos: u32,
}

/// The two timestamps of a catalog entry.
#[derive(Clone, Copy, Debug, PartialEq, Eq, Structural)]
pub enum TimestampField {
    PublishedAt,
    CreatedAt,
}

impl TimestampField {
    /// The name of the field on the wire.
    pub open spec fn wire_name(self) -> Seq<char> {
        match self {
            TimestampField::PublishedAt => "publishedAt"@,
            TimestampField::CreatedAt => "createdAt"@,
        }
    }

    /// The name of the field on the wire.
    pub fn name(&self) -> (s: &'static str)
        ensures
            s@ == self.wire_name(),
    {
        match self {
            TimestampField::PublishedAt => "publishedAt",
            TimestampField::CreatedAt => "createdAt",
        }
    }
}

/// Why a response of the catalog could not be decoded.
#[derive(Clone, Debug, PartialEq, Eq)]
pub enum DecodeError {
    /// The body is no UTF-8 text.
    InvalidText,
    /// A token that is no color, with the codec's reason.
    InvalidColor { token: String, reason: ParseColorError },
    /// A timestamp that is no RFC 3339 instant, with the field it stood in.
    InvalidTimestamp { field: TimestampField, text: String },
}

/// A `DecodeError` with its texts as sequences.
pub enum DecodeErrorView {
    InvalidText,
    InvalidColor { token: Seq<char>, reason: ParseColorError },
    InvalidTimestamp { field: TimestampField, text: Seq<char> },
}

impl View for DecodeError {
    type V = DecodeErrorView;

    open spec fn view(&self) -> DecodeErrorView {
        match *self {
            DecodeError::InvalidText => DecodeErrorView::InvalidText,
            DecodeError::InvalidColor { token, reason } => DecodeErrorView::InvalidColor {
                token: token@,
                reason,
            },
            DecodeError::InvalidTimestamp { field, text } => DecodeErrorView::InvalidTimestamp {
                field,
                text: text@,
            },
        }
    }
}

impl DeepView for DecodeError {
    type V = DecodeErrorView;

    open spec fn deep_view(&self) -> DecodeErrorView {
        self@
    }
}

impl DecodeErrorView {
    /// The sentence that describes the error.
    pub open spec fn message(self) -> Seq<char> {
        match self {
            DecodeErrorView::InvalidText => "the body is not valid UTF-8"@,
            DecodeErrorView::InvalidColor { token, reason } => "invalid color `"@ + token + "`: "@
                + reason.message(),
            DecodeErrorView::InvalidTimestamp { field, text } => "invalid timestamp `"@ + text
                + "` in field `"@ + field.wire_name() + "`"@,
        }
    }
}

impl ToString for DecodeError {
    /// The sentence that describes the error.
    fn to_string(&self) -> (s: String)
        ensures
            s@ == self@.message(),
    {
        match self {
            DecodeError::InvalidText => String::from_str("the body is not valid UTF-8"),
            DecodeError::InvalidColor { token, reason } => {
                let mut s = String::from_str("invalid color `");
                s.append(token.as_str());
                s.append("`: ");
                s.append(reason.to_string().as_str());
                s
            },
            DecodeError::InvalidTimestamp { field, text } => {
                let mut s = String::from_str("invalid timestamp `");
                s.append(text.as_str());
                s.append("` in field `");
                s.append(field.name());
                s.append("`");
                s
            },
        }
    }
}

/// How many tokens at the start of `tokens` are colors.
pub open spec fn leading_colors(tokens: Seq<Seq<char>>) -> nat
    decreases tokens.len(),
{
    if tokens.len() == 0 || parse_color(tokens[0]) is Err {
        0
    } else {
        1 + leading_colors(tokens.skip(1))
    }
}

/// The colors of a list of tokens, in order; or the first token that is
/// no color, with the codec's reason.
pub open spec fn decoded_colors(tokens: Seq<Seq<char>>) -> Result<Seq<Color>, DecodeErrorView> {
    let k = leading_colors(tokens) as int;
    if k < tokens.len() {
        Err(
            DecodeErrorView::InvalidColor {
                token: tokens[k],
                reason: parse_color(tokens[k])->Err_0,
            },
        )
    } else {
        Ok(Seq::new(tokens.len(), |i: int| parse_color(tokens[i])->Ok_0))
    }
}

/// Where the first `k` tokens are colors and the next one is not, or
/// there is no next one, `k` is the number of leading colors.
pub proof fn lemma_leading_colors_is(tokens: Seq<Seq<char>>, k: int)
    requires
        0 <= k <= tokens.len(),
        forall|j: int| 0 <= j < k ==> parse_color(#[trigger] tokens[j]) is Ok,
        k == tokens.len() || parse_color(tokens[k]) is Err,
    ensures
        leading_colors(tokens) == k,
    decreases k,
{
    if k > 0 {
        assert(forall|j: int| 0 <= j < k - 1 ==> parse_color(#[trigger] tokens.skip(1)[j]) is Ok);
        lemma_leading_colors_is(tokens.skip(1), k - 1);
    }
}

/// The tokens before the first one that is no color are all colors; so a
/// list of tokens is decoded exactly when every token is a color.
pub proof fn lemma_leading_colors(tokens: Seq<Seq<char>>)
    ensures
        leading_colors(tokens) <= tokens.len(),
        forall|j: int| 0 <= j < leading_colors(tokens) ==> parse_color(#[trigger] tokens[j]) is Ok,
        leading_colors(tokens) < tokens.len() ==> parse_color(
            tokens[leading_colors(tokens) as int],
        ) is Err,
        decoded_colors(tokens) is Ok <==> forall|j: int|
            0 <= j < tokens.len() ==> parse_color(#[trigger] tokens[j]) is Ok,
    decreases tokens.len(),
{
    if tokens.len() > 0 && parse_color(tokens[0]) is Ok {
        let rest = tokens.skip(1);
        lemma_leading_colors(rest);
        assert forall|j: int| 0 <= j < leading_colors(tokens) implies parse_color(
            #[trigger] tokens[j],
        ) is Ok by {
            if j > 0 {
                assert(tokens[j] == rest[j - 1]);
            }
        }
        assert(leading_colors(tokens) < tokens.len() ==> tokens[leading_colors(tokens) as int]
            == rest[leading_colors(rest) as int]);
    }
}

/// Runs every token through the color codec and stops at the first one
/// that it rejects.
pub fn decode_colors(tokens: &Vec<String>) -> (r: Result<Vec<Color>, DecodeError>)
    ensures
        match r {
            Ok(colors) => decoded_colors(tokens.deep_view()) == Ok::<Seq<Color>, DecodeErrorView>(
                colors@,
            ),
            Err(e) => decoded_colors(tokens.deep_view()) == Err::<Seq<Color>, DecodeErrorView>(e@),
        },
        r is Ok <==> forall|j: int|
            0 <= j < tokens.len() ==> parse_color(#[trigger] tokens.deep_view()[j]) is Ok,
{
    let ghost texts = tokens.deep_view();
    proof {
        lemma_leading_colors(texts);
    }
    let mut colors: Vec<Color> = Vec::new();
    let mut i: usize = 0;
    while i < tokens.len()
        invariant
            texts == tokens.deep_view(),
            i <= tokens.len(),
            colors@.len() == i,
            forall|j: int| 0 <= j < i ==> parse_color(#[trigger] texts[j]) == Ok::<
                Color,
                ParseColorError,
            >(colors@[j]),
        decreases tokens.len() - i,
    {
        match <Color as core::str::FromStr>::from_str(tokens[i].as_str()) {
            Ok(color) => {
                colors.push(color);
            },
            Err(reason) => {
                proof {
                    lemma_leading_colors_is(texts, i as int);
                }
                return Err(DecodeError::InvalidColor { token: tokens[i].clone(), reason });
            },
        }
        i = i + 1;
    }
    proof {
        lemma_leading_colors_is(texts, i as int);
        assert(colors@ =~= Seq::new(texts.len(), |i: int| parse_color(texts[i])->Ok_0));
    }
    Ok(colors)
}

/// Who published a palette.
#[derive(Clone, Debug, PartialEq, Eq)]
pub struct User {
    pub name: String,
    pub slug: String,
}

/// A `User` with its texts as sequences.
pub struct UserView {
    pub name: Seq<char>,
    pub slug: Seq<char>,
}

impl View for User {
    type V = UserView;

    open spec fn view(&self) -> UserView {
        UserView { name: self.name@, slug: self.slug@ }
    }
}

impl DeepView for User {
    type V = UserView;

    open spec fn deep_view(&self) -> UserView {
        self@
    }
}

/// A catalog entry as it stands on the wire: colors and timestamps are
/// still text.
#[derive(Clone, Debug, PartialEq, Eq)]
pub struct PaletteRecord {
    pub id: String,
    pub tags: Vec<String>,
    pub colors: Vec<String>,
    pub title: String,
    pub slug: String,
    pub published_at: String,
    pub user: Option<User>,
    pub created_at: String,
}

/// A `PaletteRecord` with its texts as sequences.
pub struct PaletteRecordView {
    pub id: Seq<char>,
    pub tags: Seq<Seq<char>>,
    pub colors: Seq<Seq<char>>,
    pub title: Seq<char>,
    pub slug: Seq<char>,
    pub published_at: Seq<char>,
    pub user: Option<UserView>,
    pub created_at: Seq<char>,
}

impl View for PaletteRecord {
    type V = PaletteRecordView;

    open spec fn view(&self) -> PaletteRecordView {
        PaletteRecordView {
            id: self.id@,
            tags: self.tags.deep_view(),
            colors: self.colors.deep_view(),
            title: self.title@,
            slug: self.slug@,
            published_at: self.published_at@,
            user: self.user.deep_view(),
            created_at: self.created_at@,
        }
    }
}

impl DeepView for PaletteRecord {
    type V = PaletteRecordView;

    open spec fn deep_view(&self) -> PaletteRecordView {
        self@
    }
}

/// A catalog entry. The order of the colors is the palette's own.
#[derive(Clone, Debug, PartialEq, Eq)]
pub struct Palette {
    pub id: String,
    pub tags: Vec<String>,
    pub colors: Vec<Color>,
    pub title: String,
    pub slug: String,
    pub published_at: UtcDateTime,
    pub user: Option<User>,
    pub created_at: UtcDateTime,
}

/// A `Palette` with its texts as sequences.
pub struct PaletteView {
    pub id: Seq<char>,
    pub tags: Seq<Seq<char>>,
    pub colors: Seq<Color>,
    pub title: Seq<char>,
    pub slug: Seq<char>,
    pub published_at: UtcDateTime,
    pub user: Option<UserView>,
    pub created_at: UtcDateTime,
}

impl View for Palette {
    type V = PaletteView;

    open spec fn view(&self) -> PaletteView {
        PaletteView {
            id: self.id@,
            tags: self.tags.deep_view(),
            colors: self.colors@,
            title: self.title@,
            slug: self.slug@,
            published_at: self.published_at,
            user: self.user.deep_view(),
            created_at: self.created_at,
        }
    }
}

impl DeepView for Palette {
    type V = PaletteView;

    open spec fn deep_view(&self) -> PaletteView {
        self@
    }
}

/// The seconds and nanoseconds of the instant that a text denotes, as the
/// `chrono` crate reads it; `None` where it reads none.
pub uninterp spec fn timestamp_of(text: Seq<char>) -> Option<(i64, u32)>;

/// `chrono`'s `FromStr` for `DateTime<Utc>`, which reads a relaxed form of
/// RFC 3339 and converts the instant to UTC; the instant is handed out
/// through `timestamp` and `timestamp_subsec_nanos`. Trusted: the outcome
/// depends on the text alone.
#[verifier::external_body]
fn read_timestamp(text: &str) -> (r: Option<(i64, u32)>)
    ensures
        r == timestamp_of(text@),
{
    match text.parse::<chrono::DateTime<chrono::Utc>>() {
        Ok(at) => Some((at.timestamp(), at.timestamp_subsec_nanos())),
        Err(_) => None,
    }
}

/// The palette that a record stands for, given what its two timestamps
/// were read as. The colors are checked first, then the publication
/// time, then the creation time.
pub open spec fn decoded_palette(
    record: PaletteRecordView,
    published: Option<(i64, u32)>,
    created: Option<(i64, u32)>,
) -> Result<PaletteView, DecodeErrorView> {
    match decoded_colors(record.colors) {
        Err(e) => Err(e),
        Ok(colors) => if published is None {
            Err(
                DecodeErrorView::InvalidTimestamp {
                    field: TimestampField::PublishedAt,
                    text: record.published_at,
                },
            )
        } else if created is None {
            Err(
                DecodeErrorView::InvalidTimestamp {
                    field: TimestampField::CreatedAt,
                    text: record.created_at,
                },
            )
        } else {
            Ok(
                PaletteView {
                    id: record.id,
                    tags: record.tags,
                    colors,
                    title: record.title,
                    slug: record.slug,
                    published_at: UtcDateTime {
                        seconds: published->Some_0.0,
                        nanos: published->Some_0.1,
                    },
                    user: record.user,
                    created_at: UtcDateTime {
                        seconds: created->Some_0.0,
                        nanos: created->Some_0.1,
                    },
                },
            )
        },
    }
}

/// The palette that a record stands for.
pub open spec fn palette_of(record: PaletteRecordView) -> Result<PaletteView, DecodeErrorView> {
    decoded_palette(record, timestamp_of(record.published_at), timestamp_of(record.created_at))
}

/// An owner is optional: whether a record stands for a palette does not
/// depend on its owner, and the palette of a record without owner has
/// none.
pub proof fn lemma_owner_is_optional(
    record: PaletteRecordView,
    published: Option<(i64, u32)>,
    created: Option<(i64, u32)>,
)
    ensures
        ({
            let orphan = PaletteRecordView { user: None, ..record };
            &&& decoded_palette(orphan, published, created) is Ok <==> decoded_palette(
                record,
                published,
                created,
            ) is Ok
            &&& decoded_palette(orphan, published, created) matches Ok(palette)
                ==> palette.user is None
        }),
{
}

impl Palette {
    /// Builds the palette of a record whose timestamps have been read:
    /// `published` and `created` are the instants, or `None` for a text
    /// that is no timestamp. An absent owner stays absent.
    pub fn assemble(
        record: PaletteRecord,
        published: Option<(i64, u32)>,
        created: Option<(i64, u32)>,
    ) -> (r: Result<Palette, DecodeError>)
        ensures
            match r {
                Ok(palette) => decoded_palette(record@, published, created) == Ok::<
                    PaletteView,
                    DecodeErrorView,
                >(palette@),
                Err(e) => decoded_palette(record@, published, created) == Err::<
                    PaletteView,
                    DecodeErrorView,
                >(e@),
            },
            r is Ok <==> decoded_colors(record@.colors) is Ok && published is Some
                && created is Some,
    {
        let colors = match decode_colors(&record.colors) {
            Ok(colors) => colors,
            Err(e) => {
                return Err(e);
            },
        };
        let published_at = match published {
            Some((seconds, nanos)) => UtcDateTime { seconds, nanos },
            None => {
                return Err(
                    DecodeError::InvalidTimestamp {
                        field: TimestampField::PublishedAt,
                        text: record.published_at,
                    },
                );
            },
        };
        let created_at = match created {
            Some((seconds, nanos)) => UtcDateTime { seconds, nanos },
            None => {
                return Err(
                    DecodeError::InvalidTimestamp {
                        field: TimestampField::CreatedAt,
                        text: record.created_at,
                    },
                );
            },
        };
        Ok(
            Palette {
                id: record.id,
                tags: record.tags,
                colors,
                title: record.title,
                slug: record.slug,
                published_at,
                user: record.user,
                created_at,
            },
        )
    }

    /// Decodes one record: its colors go through the color codec and its
    /// timestamps through `chrono`.
    pub fn decode(record: PaletteRecord) -> (r: Result<Palette, DecodeError>)
        ensures
            match r {
                Ok(palette) => palette_of(record@) == Ok::<PaletteView, DecodeErrorView>(palette@),
                Err(e) => palette_of(record@) == Err::<PaletteView, DecodeErrorView>(e@),
            },
    {
        let published = read_timestamp(record.published_at.as_str());
        let created = read_timestamp(record.created_at.as_str());
        Palette::assemble(record, published, created)
    }
}

/// One page of search results, in the catalog's order.
#[derive(Clone, Debug, PartialEq, Eq)]
pub struct Palettes {
    pub palettes: Vec<Palette>,
}

impl View for Palettes {
    type V = Seq<PaletteView>;

    open spec fn view(&self) -> Seq<PaletteView> {
        self.palettes.deep_view()
    }
}

/// How many records at the start of `records` stand for a palette.
pub open spec fn leading_palettes(records: Seq<PaletteRecordView>) -> nat
    decreases records.len(),
{
    if records.len() == 0 || palette_of(records[0]) is Err {
        0
    } else {
        1 + leading_palettes(records.skip(1))
    }
}

/// The palettes of a page of records, in order; or the error of the first
/// record that stands for none.
pub open spec fn palettes_of(records: Seq<PaletteRecordView>) -> Result<
    Seq<PaletteView>,
    DecodeErrorView,
> {
    let k = leading_palettes(records) as int;
    if k < records.len() {
        Err(palette_of(records[k])->Err_0)
    } else {
        Ok(Seq::new(records.len(), |i: int| palette_of(records[i])->Ok_0))
    }
}

/// Where the first `k` records stand for palettes and the next one does
/// not, or there is no next one, `k` is the number of leading palettes.
pub proof fn lemma_leading_palettes_is(records: Seq<PaletteRecordView>, k: int)
    requires
        0 <= k <= records.len(),
        forall|j: int| 0 <= j < k ==> palette_of(#[trigger] records[j]) is Ok,
        k == records.len() || palette_of(records[k]) is Err,
    ensures
        leading_palettes(records) == k,
    decreases k,
{
    if k > 0 {
        assert(forall|j: int| 0 <= j < k - 1 ==> palette_of(#[trigger] records.skip(1)[j]) is Ok);
        lemma_leading_palettes_is(records.skip(1), k - 1);
    }
}

/// The records before the first one that stands for no palette all
/// stand for one; so a page is decoded exactly when every record is.
pub proof fn lemma_leading_palettes(records: Seq<PaletteRecordView>)
    ensures
        leading_palettes(records) <= records.len(),
        forall|j: int|
            0 <= j < leading_palettes(records) ==> palette_of(#[trigger] records[j]) is Ok,
        leading_palettes(records) < records.len() ==> palette_of(
            records[leading_palettes(records) as int],
        ) is Err,
        palettes_of(records) is Ok <==> forall|j: int|
            0 <= j < records.len() ==> palette_of(#[trigger] records[j]) is Ok,
    decreases records.len(),
{
    if records.len() > 0 && palette_of(records[0]) is Ok {
        let rest = records.skip(1);
        lemma_leading_palettes(rest);
        assert forall|j: int| 0 <= j < leading_palettes(records) implies palette_of(
            #[trigger] records[j],
        ) is Ok by {
            if j > 0 {
                assert(records[j] == rest[j - 1]);
            }
        }
        assert(leading_palettes(records) < records.len() ==> records[leading_palettes(
            records,
        ) as int] == rest[leading_palettes(rest) as int]);
    }
}

impl Palettes {
    /// Decodes a page of records in order and stops at the first one that
    /// fails.
    pub fn decode(records: Vec<PaletteRecord>) -> (r: Result<Palettes, DecodeError>)
        ensures
            match r {
                Ok(page) => palettes_of(records.deep_view()) == Ok::<
                    Seq<PaletteView>,
                    DecodeErrorView,
                >(page@),
                Err(e) => palettes_of(records.deep_view()) == Err::<
                    Seq<PaletteView>,
                    DecodeErrorView,
                >(e@),
            },
            r is Ok <==> forall|j: int|
                0 <= j < records.len() ==> palette_of(#[trigger] records.deep_view()[j]) is Ok,
    {
        let ghost views = records.deep_view();
        proof {
            lemma_leading_palettes(views);
        }
        let mut palettes: Vec<Palette> = Vec::new();
        for record in it: records
            invariant
                it.seq() == records@,
                views == records.deep_view(),
                palettes@.len() == it.index(),
                forall|j: int|
                    0 <= j < it.index() ==> palette_of(#[trigger] views[j]) == Ok::<
                        PaletteView,
                        DecodeErrorView,
                    >(palettes@[j]@),
        {
            let ghost i = it.index() as int;
            match Palette::decode(record) {
                Ok(palette) => {
                    palettes.push(palette);
                },
                Err(e) => {
                    proof {
                        lemma_leading_palettes_is(views, i);
                    }
                    return Err(e);
                },
            }
        }
        proof {
            lemma_leading_palettes_is(views, views.len() as int);
            assert(palettes.deep_view() =~= Seq::new(
                views.len(),
                |i: int| palette_of(views[i])->Ok_0,
            ));
        }
        Ok(Palettes { palettes })
    }
}

} // verus!
