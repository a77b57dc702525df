//! The layout of JSON text, read as bytes. The bytes that matter here are
//! ASCII, and no byte of a multi-byte UTF-8 sequence is ASCII, so a scan of
//! the bytes finds string literals and whitespace where a scan of the
//! characters would.
use vstd::prelude::*;

verus! {

pub const SPACE: u8 = 32;

pub const TAB: u8 = 9;

pub const LINE_FEED: u8 = 10;

pub const CARRIAGE_RETURN: u8 = 13;

pub const QUOTE: u8 = 34;

pub const BACKSLASH: u8 = 92;

pub const OPEN_BRACKET: u8 = 91;

pub const CLOSE_BRACKET: u8 = 93;

pub const OPEN_BRACE: u8 = 123;

pub const CLOSE_BRACE: u8 = 125;

/// One of JSON's four whitespace bytes.
pub open spec fn is_space(c: u8) -> bool {
    c == SPACE || c == TAB || c == LINE_FEED || c == CARRIAGE_RETURN
}

/// Whether the byte after `c` is inside a string literal, where `c` is read
/// inside one (`in_string`) and just after a backslash there (`escaped`).
pub open spec fn in_string_after(c: u8, in_string: bool, escaped: bool) -> bool {
    if in_string {
        escaped || c != QUOTE
    } else {
        c == QUOTE
    }
}

/// Whether the byte after `c` is escaped.
pub open spec fn escaped_after(c: u8, in_string: bool, escaped: bool) -> bool {
    in_string && !escaped && c == BACKSLASH
}

/// The bytes of `b` from position `i` on, less the whitespace outside string
/// literals; `in_string` and `escaped` say where position `i` stands.
pub open spec fn strip_from(b: Seq<u8>, i: int, in_string: bool, escaped: bool) -> Seq<u8>
    decreases b.len() - i,
{
    if i < 0 || i >= b.len() {
        Seq::empty()
    } else {
        let c = b[i];
        let rest = strip_from(
            b,
            i + 1,
            in_string_after(c, in_string, escaped),
            escaped_after(c, in_string, escaped),
        );
        if !in_string && is_space(c) {
            rest
        } else {
            seq![c] + rest
        }
    }
}

/// A JSON text with the whitespace between its tokens left out.
pub open spec fn without_layout(b: Seq<u8>) -> Seq<u8> {
    strip_from(b, 0, false, false)
}

/// A JSON text with no whitespace outside its string literals.
pub open spec fn is_compact(b: Seq<u8>) -> bool {
    without_layout(b) == b
}

/// Whether, from position `i` on, an array or object is opened outside a
/// string literal and not closed at once.
pub open spec fn opens_from(b: Seq<u8>, i: int, in_string: bool, escaped: bool) -> bool
    decreases b.len() - i,
{
    if i < 0 || i + 1 >= b.len() {
        false
    } else {
        let c = b[i];
        let next = b[i + 1];
        (!in_string && (c == OPEN_BRACKET || c == OPEN_BRACE) && next != CLOSE_BRACKET && next
            != CLOSE_BRACE) || opens_from(
            b,
            i + 1,
            in_string_after(c, in_string, escaped),
            escaped_after(c, in_string, escaped),
        )
    }
}

/// A compact JSON text that holds a non-empty array or object.
pub open spec fn nests(b: Seq<u8>) -> bool {
    opens_from(b, 0, false, false)
}

/// A text with a line that starts with indentation.
pub open spec fn has_indented_line(b: Seq<u8>) -> bool {
    exists|i: int| 0 <= i && i + 1 < b.len() && #[trigger] b[i] == LINE_FEED && b[i + 1] == SPACE
}

} // verus!
