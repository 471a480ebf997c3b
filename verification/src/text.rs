//! Small pieces of text handling shared by the other modules: decimal
//! rendering, hexadecimal digits and the splitting of a body into tokens.
use vstd::prelude::*;
use vstd::string::*;
use vstd::utf8::*;

verus! {

/// `String::push` of the standard library, which appends one character to
/// the end of the string. Trusted: the new text is the old one followed
/// by `c`.
pub assume_specification[ String::push ](s: &mut String, c: char)
    ensures
        final(s)@ == old(s)@.push(c),
;

/// The character for one decimal digit.
pub open spec fn decimal_digit(d: int) -> char {
    seq!['0', '1', '2', '3', '4', '5', '6', '7', '8', '9'][d]
}

/// The decimal numeral of `n`, without sign or leading zeros.
pub open spec fn decimal_text(n: nat) -> Seq<char>
    decreases n,
{
    if n < 10 {
        seq![decimal_digit(n as int)]
    } else {
        decimal_text(n / 10).push(decimal_digit((n % 10) as int))
    }
}

fn decimal_digit_char(d: u16) -> (c: char)
    requires
        d < 10,
    ensures
        c == decimal_digit(d as int),
{
    (48u8 + d as u8) as char
}

/// Appends the decimal numeral of `n` to `s`.
pub fn push_decimal(s: &mut String, n: u16)
    ensures
        final(s)@ == old(s)@ + decimal_text(n as nat),
    decreases n,
{
    if n >= 10 {
        push_decimal(s, n / 10);
    }
    s.push(decimal_digit_char(n % 10));
}

/// The decimal numeral of `n`.
pub fn decimal(n: u16) -> (s: String)
    ensures
        s@ == decimal_text(n as nat),
{
    let mut s = String::new();
    push_decimal(&mut s, n);
    s
}

/// Whether `c` is one of `0`-`9`, `a`-`f`, `A`-`F`.
pub open spec fn is_hex_digit(c: char) -> bool {
    ('0' <= c && c <= '9') || ('a' <= c && c <= 'f') || ('A' <= c && c <= 'F')
}

/// The value of a hexadecimal digit, whichever its case.
pub open spec fn hex_digit_value(c: char) -> int {
    if '0' <= c && c <= '9' {
        c as int - '0' as int
    } else if 'a' <= c && c <= 'f' {
        c as int - 'a' as int + 10
    } else {
        c as int - 'A' as int + 10
    }
}

/// The upper-case hexadecimal digit of value `v`.
pub open spec fn upper_hex_digit(v: int) -> char {
    seq!['0', '1', '2', '3', '4', '5', '6', '7', '8', '9', 'A', 'B', 'C', 'D', 'E', 'F'][v]
}

/// The upper-case form of a hexadecimal digit; other characters are kept.
pub open spec fn to_upper_hex(c: char) -> char {
    if 'a' <= c && c <= 'f' {
        ((c as int) - 32) as char
    } else {
        c
    }
}

/// The value of `c` as a hexadecimal digit, if it is one.
pub fn hex_value(c: char) -> (v: Option<u8>)
    ensures
        v is Some <==> is_hex_digit(c),
        v matches Some(d) ==> d == hex_digit_value(c) && d < 16,
{
    if '0' <= c && c <= '9' {
        Some((c as u32 - '0' as u32) as u8)
    } else if 'a' <= c && c <= 'f' {
        Some((c as u32 - 'a' as u32 + 10) as u8)
    } else if 'A' <= c && c <= 'F' {
        Some((c as u32 - 'A' as u32 + 10) as u8)
    } else {
        None
    }
}

/// The upper-case hexadecimal digit of value `v`.
pub fn upper_hex_char(v: u8) -> (c: char)
    requires
        v < 16,
    ensures
        c == upper_hex_digit(v as int),
{
    if v < 10 {
        (48u8 + v) as char
    } else {
        (55u8 + v) as char
    }
}

/// Every hexadecimal digit, put in upper case, is the digit of its value.
pub proof fn lemma_upper_hex_digit_of_value(c: char)
    requires
        is_hex_digit(c),
    ensures
        0 <= hex_digit_value(c) < 16,
        upper_hex_digit(hex_digit_value(c)) == to_upper_hex(c),
{
}

/// The value of an upper-case digit is the value it was made from.
pub proof fn lemma_value_of_upper_hex_digit(v: int)
    requires
        0 <= v < 16,
    ensures
        is_hex_digit(upper_hex_digit(v)),
        hex_digit_value(upper_hex_digit(v)) == v,
{
}

/// `core::str::from_utf8` of the standard library, which checks that a byte
/// slice is UTF-8 and hands it back as text. Trusted: it accepts exactly
/// the slices that are valid UTF-8, and the text it gives has these very
/// bytes.
#[verifier::external_body]
fn utf8_text(bytes: &[u8]) -> (r: Option<&str>)
    ensures
        r is Some <==> valid_utf8(bytes@),
        r matches Some(s) ==> s.spec_bytes() == bytes@,
{
    core::str::from_utf8(bytes).ok()
}

/// The text that `bytes` encode, if they are UTF-8.
pub open spec fn decoded_text(bytes: Seq<u8>) -> Option<Seq<char>> {
    if valid_utf8(bytes) {
        Some(decode_utf8(bytes))
    } else {
        None
    }
}

/// Decodes a body as UTF-8.
pub fn decode_text(bytes: &[u8]) -> (r: Option<&str>)
    ensures
        r is Some <==> decoded_text(bytes@) is Some,
        r matches Some(s) ==> Some(s@) == decoded_text(bytes@),
{
    let r = utf8_text(bytes);
    proof {
        if let Some(s) = r {
            encode_utf8_decode_utf8(s@);
        }
    }
    r
}

/// Bytes that are all newlines are UTF-8 and decode to as many newline
/// characters.
pub proof fn lemma_newline_bytes_decode(bytes: Seq<u8>)
    requires
        forall|i: int| 0 <= i < bytes.len() ==> bytes[i] == 0x0Au8,
    ensures
        decoded_text(bytes) == Some(Seq::new(bytes.len(), |i: int| '\n')),
{
    let chars = Seq::new(bytes.len(), |i: int| '\n');
    is_ascii_chars_encode_utf8(chars);
    assert(encode_utf8(chars) =~= bytes);
    encode_utf8_valid_utf8(chars);
    encode_utf8_decode_utf8(chars);
}

/// How many characters stand before the first newline of `s`.
pub open spec fn line_length(s: Seq<char>) -> nat
    decreases s.len(),
{
    if s.len() == 0 || s[0] == '\n' {
        0
    } else {
        1 + line_length(s.skip(1))
    }
}

/// A line is no longer than the text it starts.
pub proof fn lemma_line_length_bound(s: Seq<char>)
    ensures
        line_length(s) <= s.len(),
    decreases s.len(),
{
    if s.len() != 0 && s[0] != '\n' {
        lemma_line_length_bound(s.skip(1));
    }
}

/// The non-empty lines of `s`, in order: `s` is cut at every newline and
/// the empty pieces are dropped.
pub open spec fn line_tokens(s: Seq<char>) -> Seq<Seq<char>>
    decreases s.len(),
{
    if s.len() == 0 {
        Seq::empty()
    } else if s[0] == '\n' {
        line_tokens(s.skip(1))
    } else {
        proof {
            lemma_line_length_bound(s);
        }
        let n = line_length(s) as int;
        seq![s.take(n)] + line_tokens(s.skip(n))
    }
}

/// No character before the end of the first line is a newline.
pub proof fn lemma_line_has_no_newline(s: Seq<char>, j: int)
    requires
        0 <= j < line_length(s),
    ensures
        j < s.len(),
        s[j] != '\n',
    decreases s.len(),
{
    if j > 0 {
        lemma_line_has_no_newline(s.skip(1), j - 1);
    }
}

/// Every token is a piece of a line: it is not empty and holds no
/// newline.
pub proof fn lemma_tokens_are_lines(s: Seq<char>, i: int)
    requires
        0 <= i < line_tokens(s).len(),
    ensures
        line_tokens(s)[i].len() > 0,
        forall|j: int| 0 <= j < line_tokens(s)[i].len() ==> line_tokens(s)[i][j] != '\n',
    decreases s.len(),
{
    if s[0] == '\n' {
        lemma_tokens_are_lines(s.skip(1), i);
    } else {
        let n = line_length(s) as int;
        lemma_line_length_bound(s);
        if i == 0 {
            assert forall|j: int| 0 <= j < n implies s.take(n)[j] != '\n' by {
                lemma_line_has_no_newline(s, j);
            }
        } else {
            lemma_tokens_are_lines(s.skip(n), i - 1);
        }
    }
}

/// A text that holds nothing but newlines has no token.
pub proof fn lemma_blank_text_has_no_token(text: Seq<char>)
    requires
        forall|i: int| 0 <= i < text.len() ==> text[i] == '\n',
    ensures
        line_tokens(text) == Seq::<Seq<char>>::empty(),
    decreases text.len(),
{
    if text.len() > 0 {
        lemma_blank_text_has_no_token(text.skip(1));
    }
}

/// Where the first `k` characters hold no newline and a newline or the end
/// follows them, the first line has `k` characters.
proof fn lemma_line_length_is(s: Seq<char>, k: int)
    requires
        0 <= k <= s.len(),
        forall|j: int| 0 <= j < k ==> s[j] != '\n',
        k == s.len() || s[k] == '\n',
    ensures
        line_length(s) == k,
    decreases k,
{
    if k > 0 {
        lemma_line_length_is(s.skip(1), k - 1);
    }
}

/// A line that a newline ends is the first token of what it starts.
proof fn lemma_tokens_after_line(s: Seq<char>, k: int)
    requires
        0 < k < s.len(),
        forall|j: int| 0 <= j < k ==> s[j] != '\n',
        s[k] == '\n',
    ensures
        line_tokens(s) == seq![s.take(k)] + line_tokens(s.skip(k + 1)),
{
    reveal_with_fuel(line_tokens, 2);
    lemma_line_length_is(s, k);
    assert(s.skip(k).skip(1) =~= s.skip(k + 1));
}

/// A text without newline is its own single token, and the empty text has
/// none.
proof fn lemma_tokens_of_last_line(s: Seq<char>)
    requires
        forall|j: int| 0 <= j < s.len() ==> s[j] != '\n',
    ensures
        line_tokens(s) == if s.len() == 0 {
            Seq::<Seq<char>>::empty()
        } else {
            seq![s]
        },
{
    reveal_with_fuel(line_tokens, 2);
    if s.len() > 0 {
        lemma_line_length_is(s, s.len() as int);
        assert(s.take(s.len() as int) =~= s);
    }
}

/// Cuts `s` at every newline and keeps the pieces that are not empty.
pub fn split_tokens(s: &str) -> (tokens: Vec<String>)
    ensures
        tokens.deep_view() == line_tokens(s@),
{
    let mut tokens: Vec<String> = Vec::new();
    let mut current = String::new();
    let ghost mut start: int = 0;
    assert(s@.skip(0) =~= s@);
    for c in it: s.chars()
        invariant
            it.seq() == s@,
            0 <= start <= it.index(),
            current@ == s@.subrange(start, it.index() as int),
            forall|j: int| start <= j < it.index() ==> s@[j] != '\n',
            line_tokens(s@) == tokens.deep_view() + line_tokens(s@.skip(start)),
    {
        let ghost i = it.index() as int;
        let ghost rest = s@.skip(start);
        if c == '\n' {
            if !current.as_str().is_empty() {
                proof {
                    lemma_tokens_after_line(rest, i - start);
                    assert(rest.take(i - start) =~= current@);
                    assert(rest.skip(i - start + 1) =~= s@.skip(i + 1));
                }
                tokens.push(current);
                current = String::new();
            }
            proof {
                start = i + 1;
            }
        } else {
            current.push(c);
        }
    }
    proof {
        lemma_tokens_of_last_line(s@.skip(start));
    }
    if !current.as_str().is_empty() {
        tokens.push(current);
    }
    tokens
}

} // verus!
