//! Small helpers for building text.

use vstd::prelude::*;
use vstd::string::StringExecFns;

verus! {

/// The views of a list of strings.
pub open spec fn lines_view(lines: Seq<String>) -> Seq<Seq<char>> {
    lines.map_values(|s: String| s@)
}

/// The view of an optional string.
pub open spec fn opt_text_view(text: Option<String>) -> Option<Seq<char>> {
    match text {
        Some(s) => Some(s@),
        None => None,
    }
}

/// `String::push`: appends `c` to the end of `s`.
#[verifier::external_body]
pub(crate) fn push_char(s: &mut String, c: char)
    ensures
        final(s)@ == old(s)@.push(c),
{
    s.push(c);
}

/// How `s` is written when shown for debugging: in double quotes, with the
/// characters that need it escaped.
pub uninterp spec fn debug_quoted(s: Seq<char>) -> Seq<char>;

/// `Debug::fmt` of `str`, through `format!`: `s` in double quotes, escaped.
#[verifier::external_body]
pub(crate) fn quote(s: &str) -> (q: String)
    ensures
        q@ == debug_quoted(s@),
{
    format!("{:?}", s)
}

/// How an optional string is written when shown for debugging.
pub open spec fn debug_opt(text: Option<Seq<char>>) -> Seq<char> {
    match text {
        Some(s) => "Some("@ + debug_quoted(s) + ")"@,
        None => "None"@,
    }
}

/// How a list of strings is written when shown for debugging: the quoted
/// items between square brackets, a comma and a space between two of them.
pub open spec fn debug_list(items: Seq<Seq<char>>) -> Seq<char> {
    "["@ + debug_items(items) + "]"@
}

/// The quoted items of a list with their separators.
pub open spec fn debug_items(items: Seq<Seq<char>>) -> Seq<char>
    decreases items.len(),
{
    if items.len() == 0 {
        Seq::empty()
    } else if items.len() == 1 {
        debug_quoted(items[0])
    } else {
        debug_items(items.drop_last()) + ", "@ + debug_quoted(items.last())
    }
}

/// Writes an optional string as it is shown for debugging.
pub(crate) fn show_opt(text: &Option<String>) -> (out: String)
    ensures
        out@ == debug_opt(opt_text_view(*text)),
{
    match text {
        Some(s) => {
            let mut out = String::from_str("Some(");
            let q = quote(s.as_str());
            out.append(q.as_str());
            out.append(")");
            out
        },
        None => String::from_str("None"),
    }
}

/// Writes a list of strings as it is shown for debugging.
pub(crate) fn show_list(items: &Vec<String>) -> (out: String)
    ensures
        out@ == debug_list(lines_view(items@)),
{
    let mut out = String::from_str("[");
    let mut i: usize = 0;
    assert(lines_view(items@).take(0) =~= Seq::<Seq<char>>::empty());
    while i < items.len()
        invariant
            i <= items@.len(),
            out@ == "["@ + debug_items(lines_view(items@).take(i as int)),
        decreases items@.len() - i,
    {
        proof {
            let upto = lines_view(items@).take(i + 1);
            assert(upto.drop_last() =~= lines_view(items@).take(i as int));
            assert(upto.last() == items@[i as int]@);
            if i == 0 {
                assert(upto[0] == items@[0]@);
            }
        }
        if i > 0 {
            out.append(", ");
        }
        let q = quote(items[i].as_str());
        out.append(q.as_str());
        assert(out@ =~= "["@ + debug_items(lines_view(items@).take(i + 1)));
        i += 1;
    }
    proof {
        assert(lines_view(items@).take(items@.len() as int) =~= lines_view(items@));
    }
    out.append("]");
    out
}

/// The four digits of `v` in base sixteen, in lower case.
pub open spec fn hex4(v: u16) -> Seq<char> {
    seq![
        hex_digit((v / 4096) as u8),
        hex_digit(((v / 256) % 16) as u8),
        hex_digit(((v / 16) % 16) as u8),
        hex_digit((v % 16) as u8),
    ]
}

/// Appends the four digits of `v` in base sixteen, in lower case.
pub(crate) fn push_hex4(s: &mut String, v: u16)
    ensures
        final(s)@ == old(s)@ + hex4(v),
{
    push_char(s, hex_digit_of((v / 4096) as u8));
    push_char(s, hex_digit_of(((v / 256) % 16) as u8));
    push_char(s, hex_digit_of(((v / 16) % 16) as u8));
    push_char(s, hex_digit_of((v % 16) as u8));
    assert(s@ =~= old(s)@ + hex4(v));
}

/// The digit for `n` in base sixteen, in lower case.
pub open spec fn hex_digit(n: u8) -> char
    recommends
        n < 16,
{
    if n < 10 {
        (48 + n) as u8 as char
    } else {
        (87 + n) as u8 as char
    }
}

/// The digit for `n` in base ten.
pub open spec fn dec_digit(n: u8) -> char
    recommends
        n < 10,
{
    (48 + n) as u8 as char
}

/// The digit for `n` in base sixteen, in lower case.
pub(crate) fn hex_digit_of(n: u8) -> (c: char)
    requires
        n < 16,
    ensures
        c == hex_digit(n),
{
    if n < 10 {
        (48 + n) as char
    } else {
        (87 + n) as char
    }
}

/// The digit for `n` in base ten.
pub(crate) fn dec_digit_of(n: u8) -> (c: char)
    requires
        n < 10,
    ensures
        c == dec_digit(n),
{
    (48 + n) as char
}

/// `String::pop`: takes the last character off `s`, if there is one.
#[verifier::external_body]
pub(crate) fn pop_char(s: &mut String) -> (c: Option<char>)
    ensures
        old(s)@.len() == 0 ==> c is None && final(s)@ == old(s)@,
        old(s)@.len() > 0 ==> c == Some(old(s)@.last()) && final(s)@ == old(s)@.drop_last(),
{
    s.pop()
}

/// What `bytes` read as when taken for UTF-8, every malformed sequence
/// standing as the replacement character.
pub uninterp spec fn utf8_lossy(bytes: Seq<u8>) -> Seq<char>;

/// `String::from_utf8_lossy`: `bytes` as text, with the replacement character
/// in place of what is not UTF-8.
#[verifier::external_body]
pub(crate) fn lossy_text(bytes: &[u8]) -> (s: String)
    ensures
        s@ == utf8_lossy(bytes@),
{
    String::from_utf8_lossy(bytes).into_owned()
}

/// A number in base ten, without leading zeros.
pub open spec fn decimal_text(n: nat) -> Seq<char>
    decreases n,
{
    if n < 10 {
        seq![dec_digit(n as u8)]
    } else {
        decimal_text(n / 10).push(dec_digit((n % 10) as u8))
    }
}

/// Appends `n` in base ten.
pub(crate) fn push_decimal(s: &mut String, n: u64)
    ensures
        final(s)@ == old(s)@ + decimal_text(n as nat),
    decreases n,
{
    if n >= 10 {
        push_decimal(s, n / 10);
    }
    push_char(s, dec_digit_of((n % 10) as u8));
    assert(s@ =~= old(s)@ + decimal_text(n as nat));
}

} // verus!
