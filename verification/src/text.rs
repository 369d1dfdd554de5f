//! Validation, decoding and splitting of the byte buffers that cross the
//! native boundary.
//!
//! Text arguments handed to the native service must not contain an embedded
//! terminator byte (0x00); that is checked here, before any native call is
//! made.  Buffers coming back from the native service are decoded strictly
//! as UTF-8 — a buffer that does not decode is reported as an error, never
//! silently substituted — and entry data arrives as `FIELD=value` records
//! that are split at the first `=` byte.  All contracts are stated over the
//! UTF-8 specification of the standard library's mathematical model, so a
//! caller knows the exact characters it receives for every input buffer.

use crate::enums::Error;
use vstd::prelude::*;
use vstd::slice::{slice_index_get, slice_subrange};
use vstd::utf8::{
    decode_utf8, is_char_boundary_iff_not_is_continuation_byte, length_of_first_scalar,
    pop_first_scalar, valid_first_scalar, valid_utf8, valid_utf8_split,
};

verus! {

/// The byte that separates a field name from its value in a native record.
pub const SEPARATOR: u8 = 0x3D;

/// The byte that terminates C strings; text arguments must not contain it.
pub const TERMINATOR: u8 = 0x00;

/// True when `bytes` contains an embedded terminator byte.
pub open spec fn spec_has_embedded_terminator(bytes: Seq<u8>) -> bool {
    exists|i: int| 0 <= i < bytes.len() && bytes[i] == TERMINATOR
}

/// `i` is the position of the first separator byte (`=`) in `data`.
pub open spec fn is_first_separator(data: Seq<u8>, i: int) -> bool {
    &&& 0 <= i < data.len()
    &&& data[i] == SEPARATOR
    &&& forall|j: int| 0 <= j < i ==> data[j] != SEPARATOR
}

/// True when `data` contains a separator byte at all.
pub open spec fn has_separator(data: Seq<u8>) -> bool {
    exists|i: int| is_first_separator(data, i)
}

/// Find the first occurrence of `target` in `bytes`.
pub fn find_byte(bytes: &[u8], target: u8) -> (r: Option<usize>)
    ensures
        r matches Some(i) ==> i < bytes@.len() && bytes@[i as int] == target && (forall|j: int|
            0 <= j < i ==> bytes@[j] != target),
        r is None ==> forall|j: int| 0 <= j < bytes@.len() ==> bytes@[j] != target,
{
    let mut i: usize = 0;
    while i < bytes.len()
        invariant
            i <= bytes@.len(),
            forall|j: int| 0 <= j < i ==> bytes@[j] != target,
        decreases bytes@.len() - i,
    {
        if *slice_index_get(bytes, i) == target {
            return Some(i);
        }
        i = i + 1;
    }
    None
}

/// Check a text argument before it is handed to a native call: an embedded
/// terminator byte is rejected with the dedicated error, and no native call
/// may be made for such an argument.
pub fn validate_text_arg(bytes: &[u8]) -> (r: Result<(), Error>)
    ensures
        r is Ok <==> !spec_has_embedded_terminator(bytes@),
        !(r is Ok) ==> r == Err::<(), Error>(Error::NullError),
{
    match find_byte(bytes, TERMINATOR) {
        Some(_) => Err(Error::NullError),
        None => Ok(()),
    }
}

/// Relies on str::from_utf8 of the standard library: it succeeds exactly on
/// input that is valid UTF-8, and then yields the characters that the bytes
/// encode.
#[verifier::external_body]
fn try_decode_utf8(bytes: &[u8]) -> (r: Option<&str>)
    ensures
        r is Some <==> valid_utf8(bytes@),
        r matches Some(s) ==> s@ == decode_utf8(bytes@),
{
    std::str::from_utf8(bytes).ok()
}

/// Decode bytes already known to be valid UTF-8 into an owned string.
fn decode_valid_utf8(bytes: &[u8]) -> (s: String)
    requires
        valid_utf8(bytes@),
    ensures
        s@ == decode_utf8(bytes@),
{
    try_decode_utf8(bytes).unwrap().to_owned()
}

/// Decode a native buffer strictly as UTF-8.  A buffer that is not valid
/// UTF-8 yields the decoding error; nothing is ever substituted or dropped.
pub fn decode_text(bytes: &[u8]) -> (r: Result<String, Error>)
    ensures
        r is Ok <==> valid_utf8(bytes@),
        r matches Ok(s) ==> s@ == decode_utf8(bytes@),
        !(r is Ok) ==> r == Err::<String, Error>(Error::UTF8Error),
{
    match try_decode_utf8(bytes) {
        None => Err(Error::UTF8Error),
        Some(s) => Ok(s.to_owned()),
    }
}

/// After a split at position `i` of a separator byte, both sides of a valid
/// UTF-8 record are themselves valid UTF-8: the separator is a one-byte
/// character, so the record decomposes at a character boundary on either
/// side of it.
proof fn lemma_split_at_separator(data: Seq<u8>, i: int)
    requires
        valid_utf8(data),
        0 <= i < data.len(),
        data[i] == SEPARATOR,
    ensures
        valid_utf8(data.subrange(0, i)),
        valid_utf8(data.subrange(i + 1, data.len() as int)),
{
    is_char_boundary_iff_not_is_continuation_byte(data, i);
    valid_utf8_split(data, i);
    let suffix = data.subrange(i, data.len() as int);
    assert(suffix[0] == SEPARATOR);
    assert(valid_first_scalar(suffix) && valid_utf8(pop_first_scalar(suffix)));
    assert(length_of_first_scalar(suffix) == 1);
    assert(pop_first_scalar(suffix) =~= data.subrange(i + 1, data.len() as int));
}

/// Split a native `FIELD=value` record into its field name and value.
///
/// The record is decoded strictly as UTF-8 first; a buffer that does not
/// decode is the decoding error.  A decoded record without a separator byte
/// does not have the promised shape and is the format error.  Otherwise the
/// name is everything before the first separator and the value everything
/// after it.
pub fn split_field_value(data: &[u8]) -> (r: Result<(String, String), Error>)
    ensures
        !valid_utf8(data@) ==> r == Err::<(String, String), Error>(Error::UTF8Error),
        valid_utf8(data@) && !has_separator(data@) ==> r == Err::<(String, String), Error>(
            Error::UnexpectedDataFormat,
        ),
        r is Ok <==> valid_utf8(data@) && has_separator(data@),
        r matches Ok((name, value)) ==> forall|i: int|
            is_first_separator(data@, i) ==> name@ == decode_utf8(data@.subrange(0, i)) && value@
                == decode_utf8(data@.subrange(i + 1, data@.len() as int)),
{
    if try_decode_utf8(data).is_none() {
        return Err(Error::UTF8Error);
    }
    match find_byte(data, SEPARATOR) {
        None => {
            assert(!has_separator(data@));
            Err(Error::UnexpectedDataFormat)
        },
        Some(i) => {
            proof {
                assert(is_first_separator(data@, i as int));
                lemma_split_at_separator(data@, i as int);
            }
            let n = data.len();
            let name_bytes = slice_subrange(data, 0, i);
            let value_bytes = slice_subrange(data, i + 1, n);
            let name = decode_valid_utf8(name_bytes);
            let value = decode_valid_utf8(value_bytes);
            Ok((name, value))
        },
    }
}

/// Retrieve the value from the record that a unique-value enumeration step
/// yields: the record is split like an entry record, and only the part
/// after the first separator is returned.
pub fn unique_value_from(data: &[u8]) -> (r: Result<String, Error>)
    ensures
        !valid_utf8(data@) ==> r == Err::<String, Error>(Error::UTF8Error),
        valid_utf8(data@) && !has_separator(data@) ==> r == Err::<String, Error>(
            Error::UnexpectedDataFormat,
        ),
        r is Ok <==> valid_utf8(data@) && has_separator(data@),
        r matches Ok(value) ==> forall|i: int|
            is_first_separator(data@, i) ==> value@ == decode_utf8(
                data@.subrange(i + 1, data@.len() as int),
            ),
{
    match split_field_value(data) {
        Ok((_, value)) => Ok(value),
        Err(e) => Err(e),
    }
}

/// True when the record `data` carries the field `field`: it starts with
/// the field's bytes, immediately followed by the separator.
pub open spec fn is_field_prefixed(data: Seq<u8>, field: Seq<u8>) -> bool {
    &&& data.len() > field.len()
    &&& data.subrange(0, field.len() as int) == field
    &&& data[field.len() as int] == SEPARATOR
}

/// Decide whether the record `data` carries the field `field`.
pub fn has_field_prefix(data: &[u8], field: &[u8]) -> (b: bool)
    ensures
        b == is_field_prefixed(data@, field@),
{
    if data.len() <= field.len() {
        return false;
    }
    let mut i: usize = 0;
    while i < field.len()
        invariant
            i <= field@.len(),
            data@.len() > field@.len(),
            forall|j: int| 0 <= j < i ==> data@[j] == field@[j],
        decreases field@.len() - i,
    {
        if *slice_index_get(data, i) != *slice_index_get(field, i) {
            assert(!is_field_prefixed(data@, field@)) by {
                assert(data@.subrange(0, field@.len() as int)[i as int] != field@[i as int]);
            }
            return false;
        }
        i = i + 1;
    }
    if *slice_index_get(data, field.len()) != SEPARATOR {
        return false;
    }
    assert(is_field_prefixed(data@, field@)) by {
        assert(data@.subrange(0, field@.len() as int) =~= field@);
    }
    true
}

/// Retrieve the value of the field `field` from the record `data` that the
/// native field lookup returned for it.
///
/// The record is decoded strictly as UTF-8 (decoding error otherwise); the
/// field name itself must be text (its own error otherwise, kept distinct
/// because the name was accepted by the native call already); and the
/// record must verifiably begin with `field` followed by the separator —
/// a record of any other shape signals a native contract violation and
/// yields the format error rather than malformed data.
pub fn field_value_from(field: &[u8], data: &[u8]) -> (r: Result<String, Error>)
    ensures
        !valid_utf8(data@) ==> r == Err::<String, Error>(Error::UTF8Error),
        valid_utf8(data@) && !valid_utf8(field@) ==> r == Err::<String, Error>(Error::StringError),
        valid_utf8(data@) && valid_utf8(field@) && !is_field_prefixed(data@, field@) ==> r
            == Err::<String, Error>(Error::UnexpectedDataFormat),
        r is Ok <==> valid_utf8(data@) && valid_utf8(field@) && is_field_prefixed(data@, field@),
        r matches Ok(value) ==> value@ == decode_utf8(
            data@.subrange(field@.len() as int + 1, data@.len() as int),
        ),
{
    if try_decode_utf8(data).is_none() {
        return Err(Error::UTF8Error);
    }
    if try_decode_utf8(field).is_none() {
        return Err(Error::StringError);
    }
    if !has_field_prefix(data, field) {
        return Err(Error::UnexpectedDataFormat);
    }
    proof {
        lemma_split_at_separator(data@, field@.len() as int);
    }
    let n = data.len();
    let value_bytes = slice_subrange(data, field.len() + 1, n);
    Ok(decode_valid_utf8(value_bytes))
}

} // verus!
