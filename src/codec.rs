use vstd::prelude::*;
use crate::error::SerializeError;
use crate::layout::{has_indented_line, is_compact, nests, without_layout, LINE_FEED};
use vstd::utf8::encode_utf8;

verus! {

#[verifier::external_type_specification]
#[verifier::external_body]
pub struct ExValue(serde_json::Value);

/// The compact JSON encoding of a value, as serde_json writes it.
pub uninterp spec fn compact_bytes(v: serde_json::Value) -> Seq<u8>;

/// The indented, multi-line JSON encoding of a value, as serde_json writes it.
pub uninterp spec fn pretty_bytes(v: serde_json::Value) -> Seq<u8>;

/// The value that serde_json reads from some bytes, or none where they are
/// not a JSON document.
pub uninterp spec fn parsed(b: Seq<u8>) -> Option<serde_json::Value>;

/// A buffer after the compact encoding of `v` was written at its end.
pub open spec fn appended(buf: Seq<u8>, v: serde_json::Value) -> Seq<u8> {
    buf + compact_bytes(v)
}

/// Relies on serde_json::to_writer, with a Vec<u8> as the stream. A Value's
/// Serialize impl fails only where the stream fails or a map key is no
/// string; a Vec never fails a write and a Value's keys are strings, so the
/// call succeeds and appends the compact encoding. The compact formatter
/// writes no whitespace between tokens, and a line feed inside a string is
/// escaped.
#[verifier::external_body]
fn append_compact(v: &serde_json::Value, w: &mut Vec<u8>) -> (r: Result<(), serde_json::Error>)
    ensures
        r is Ok,
        final(w)@ == old(w)@ + compact_bytes(*v),
        is_compact(final(w)@.subrange(old(w)@.len() as int, final(w)@.len() as int)),
        !final(w)@.subrange(old(w)@.len() as int, final(w)@.len() as int).contains(LINE_FEED),
{
    serde_json::to_writer(w, v)
}

/// Relies on serde_json::to_string, which encodes with serde_json::to_writer
/// into a Vec and takes those bytes as the text: so it succeeds on a Value
/// as that call does, and the text's UTF-8 bytes are the compact encoding,
/// with no whitespace between tokens. A line feed inside a string is
/// escaped.
#[verifier::external_body]
fn encode_compact(v: &serde_json::Value) -> (r: Result<String, serde_json::Error>)
    ensures
        r is Ok,
        r matches Ok(s) ==> encode_utf8(s@) == compact_bytes(*v),
        r matches Ok(s) ==> is_compact(encode_utf8(s@)),
        r matches Ok(s) ==> !s@.contains('\n'),
{
    serde_json::to_string(v)
}

/// Relies on serde_json::to_vec_pretty, which succeeds on a Value as
/// serde_json::to_writer does. Its pretty formatter writes the tokens of the
/// compact encoding, adding only spaces and line feeds between them; it
/// starts each element of a non-empty array or object on a new line,
/// indented by two spaces for each level.
#[verifier::external_body]
fn encode_pretty(v: &serde_json::Value) -> (r: Result<Vec<u8>, serde_json::Error>)
    ensures
        r is Ok,
        r matches Ok(b) ==> b@ == pretty_bytes(*v),
        r matches Ok(b) ==> without_layout(b@) == compact_bytes(*v),
        r matches Ok(b) ==> (nests(compact_bytes(*v)) ==> has_indented_line(b@)),
{
    serde_json::to_vec_pretty(v)
}

/// Relies on serde_json::from_slice into a Value: the outcome depends on the
/// bytes alone.
#[verifier::external_body]
fn decode(b: &[u8]) -> (r: Result<serde_json::Value, serde_json::Error>)
    ensures
        r is Ok <==> parsed(b@) is Some,
        r matches Ok(v) ==> parsed(b@) == Some(v),
{
    serde_json::from_slice(b)
}

/// The compact JSON text of `obj`: the same bytes that `to_writer` writes,
/// on a single line, with no whitespace outside string literals.
pub fn to_string(obj: &serde_json::Value) -> (r: Result<String, SerializeError>)
    ensures
        r matches Ok(s) && encode_utf8(s@) == compact_bytes(*obj) && is_compact(encode_utf8(s@))
            && !s@.contains('\n'),
{
    match encode_compact(obj) {
        Ok(s) => Ok(s),
        Err(e) => Err(SerializeError::from(e)),
    }
}

/// Writes the compact JSON encoding of `obj` at the end of `writer`. What the
/// buffer held before stays in place, and the buffer stays the caller's.
pub fn to_writer(obj: &serde_json::Value, writer: &mut Vec<u8>) -> (r: Result<(), SerializeError>)
    ensures
        r is Ok,
        final(writer)@ == appended(old(writer)@, *obj),
        is_compact(final(writer)@.subrange(old(writer)@.len() as int, final(writer)@.len() as int)),
        !final(writer)@.subrange(old(writer)@.len() as int, final(writer)@.len() as int).contains(
            LINE_FEED,
        ),
{
    let ghost start = writer@;
    match append_compact(obj, writer) {
        Ok(()) => {
            assert(writer@.subrange(start.len() as int, writer@.len() as int) =~= compact_bytes(
                *obj,
            ));
            Ok(())
        },
        Err(e) => Err(SerializeError::from(e)),
    }
}

/// The indented, human-readable JSON encoding of `obj`, as it is written to
/// a file: the tokens of the compact encoding with spaces and line feeds
/// between them, where each element of a non-empty array or object starts on
/// an indented line.
pub fn to_vec_pretty(obj: &serde_json::Value) -> (r: Result<Vec<u8>, SerializeError>)
    ensures
        r matches Ok(b) && b@ == pretty_bytes(*obj) && without_layout(b@) == compact_bytes(*obj) && (
        nests(compact_bytes(*obj)) ==> has_indented_line(b@)),
{
    match encode_pretty(obj) {
        Ok(b) => Ok(b),
        Err(e) => Err(SerializeError::from(e)),
    }
}

/// Reads a JSON document from the outcome of reading a file. A failed read
/// is an I/O error, whatever else holds; bytes that are no JSON document are
/// a JSON error. No value is handed out unless the whole document was read.
pub fn deserialize(contents: Result<Vec<u8>, std::io::Error>) -> (r: Result<
    serde_json::Value,
    SerializeError,
>)
    ensures
        match contents {
            Err(e) => r == Err::<serde_json::Value, SerializeError>(SerializeError::Io(e)),
            Ok(b) => match parsed(b@) {
                Some(v) => r == Ok::<serde_json::Value, SerializeError>(v),
                None => r matches Err(SerializeError::Json(_)),
            },
        },
{
    match contents {
        Err(e) => Err(SerializeError::from(e)),
        Ok(b) => match decode(b.as_slice()) {
            Ok(v) => Ok(v),
            Err(e) => Err(SerializeError::from(e)),
        },
    }
}

/// Two writes into one buffer leave the buffer's old contents, then the
/// first encoding, then the second, each at the position where its write
/// began.
pub proof fn writes_concatenate(start: Seq<u8>, a: serde_json::Value, b: serde_json::Value)
    ensures
        ({
            let s = appended(appended(start, a), b);
            let i = start.len() as int;
            let j = i + compact_bytes(a).len();
            &&& s == start + compact_bytes(a) + compact_bytes(b)
            &&& s.subrange(0, i) == start
            &&& s.subrange(i, j) == compact_bytes(a)
            &&& s.subrange(j, s.len() as int) == compact_bytes(b)
        }),
{
    let s = appended(appended(start, a), b);
    let i = start.len() as int;
    let j = i + compact_bytes(a).len();
    assert(s.subrange(0, i) =~= start);
    assert(s.subrange(i, j) =~= compact_bytes(a));
    assert(s.subrange(j, s.len() as int) =~= compact_bytes(b));
}

} // verus!
