//! Interpretation of native return codes.
//!
//! Every native journal call reports an `errno`-style signed code: negative
//! for failure, zero and positive values with a call-specific meaning.  The
//! functions here turn such a code into the binding's outcome types, and
//! their contracts pin the interpretation down exactly, so that the callers
//! around the foreign calls contain no decisions of their own.

use crate::enums::{CursorCheck, CursorMovement, Enumeration, Error, Event};
use vstd::prelude::*;

verus! {

/// Outcome of a status-only call: a negative code is a native error carried
/// verbatim, anything else is success.
pub open spec fn spec_status(rc: i32) -> Result<(), Error> {
    if rc < 0 {
        Err(Error::SDError(rc))
    } else {
        Ok(())
    }
}

/// Interpret the return code of a status-only native call.
pub fn status_from(rc: i32) -> (r: Result<(), Error>)
    ensures
        r == spec_status(rc),
{
    if rc < 0 {
        Err(Error::SDError(rc))
    } else {
        Ok(())
    }
}

/// Outcome of a call that yields a value: a negative code is a native
/// error, anything else hands the value through.
pub open spec fn spec_value<T>(rc: i32, value: T) -> Result<T, Error> {
    if rc < 0 {
        Err(Error::SDError(rc))
    } else {
        Ok(value)
    }
}

/// Interpret the return code of a native call whose output parameter was
/// already copied into `value`.
pub fn value_from<T>(rc: i32, value: T) -> (r: Result<T, Error>)
    ensures
        r == spec_value(rc, value),
{
    if rc < 0 {
        Err(Error::SDError(rc))
    } else {
        Ok(value)
    }
}

/// Outcome of a single-step cursor movement: negative is a native error,
/// zero means the cursor already sat at the boundary, positive means the
/// step was executed.
pub open spec fn spec_movement(rc: i32) -> Result<CursorMovement, Error> {
    if rc < 0 {
        Err(Error::SDError(rc))
    } else if rc == 0 {
        Ok(CursorMovement::EoF)
    } else {
        Ok(CursorMovement::Done)
    }
}

/// Interpret the return code of a single-step movement call.
pub fn movement_from(rc: i32) -> (r: Result<CursorMovement, Error>)
    ensures
        r == spec_movement(rc),
{
    if rc < 0 {
        Err(Error::SDError(rc))
    } else if rc == 0 {
        Ok(CursorMovement::EoF)
    } else {
        Ok(CursorMovement::Done)
    }
}

/// A requested skip distance must not be negative; a negative one is
/// rejected locally, before any native call is made.
pub open spec fn spec_validate_skip(skip: i32) -> Result<(), Error> {
    if skip < 0 {
        Err(Error::RangeError)
    } else {
        Ok(())
    }
}

/// Reject a negative skip distance with a range error.
pub fn validate_skip(skip: i32) -> (r: Result<(), Error>)
    ensures
        r == spec_validate_skip(skip),
        r is Ok <==> 0 <= skip,
{
    if skip < 0 {
        Err(Error::RangeError)
    } else {
        Ok(())
    }
}

/// Outcome of a multi-step cursor movement that requested `skip` entries:
/// negative is a native error, zero means no movement was possible,
/// a positive code below `skip` is a movement truncated at the journal
/// boundary, and anything else is full success.
pub open spec fn spec_skip_movement(rc: i32, skip: i32) -> Result<CursorMovement, Error> {
    if rc < 0 {
        Err(Error::SDError(rc))
    } else if rc == 0 {
        Ok(CursorMovement::EoF)
    } else if rc < skip {
        Ok(CursorMovement::Limited(rc))
    } else {
        Ok(CursorMovement::Done)
    }
}

/// Interpret the return code of a multi-step movement call that requested
/// `skip` entries.
pub fn skip_movement_from(rc: i32, skip: i32) -> (r: Result<CursorMovement, Error>)
    requires
        0 <= skip,
    ensures
        r == spec_skip_movement(rc, skip),
{
    if rc < 0 {
        Err(Error::SDError(rc))
    } else if rc == 0 {
        Ok(CursorMovement::EoF)
    } else if rc < skip {
        Ok(CursorMovement::Limited(rc))
    } else {
        Ok(CursorMovement::Done)
    }
}

/// The interpretation of a multi-step movement never misreports the moved
/// distance.  The native call returns the number of entries actually
/// traversed, which is at most the requested `skip`; under that premise,
/// `Done` stands exactly for the full distance, `Limited(n)` exactly for a
/// strictly truncated, strictly positive one, and `EoF` exactly for no
/// movement at all.
pub proof fn lemma_skip_movement_exact(rc: i32, skip: i32)
    requires
        0 <= rc <= skip,
    ensures
        spec_skip_movement(rc, skip) is Ok,
        spec_skip_movement(rc, skip) == Ok::<CursorMovement, Error>(CursorMovement::Done) <==> (rc
            == skip && skip > 0),
        spec_skip_movement(rc, skip) == Ok::<CursorMovement, Error>(CursorMovement::EoF) <==> rc
            == 0,
        forall|n: i32|
            spec_skip_movement(rc, skip) == Ok::<CursorMovement, Error>(
                CursorMovement::Limited(n),
            ) ==> n == rc && 0 < n < skip,
{
}

/// Outcome of one step of an enumeration whose payload was already copied
/// out of the foreign buffer: negative is a native error, zero is the end
/// of the enumeration, positive hands the payload through.
pub open spec fn spec_enumeration_step<T>(rc: i32, value: T) -> Result<Enumeration<T>, Error> {
    if rc < 0 {
        Err(Error::SDError(rc))
    } else if rc == 0 {
        Ok(Enumeration::EoF)
    } else {
        Ok(Enumeration::Value(value))
    }
}

/// Interpret the return code of an enumeration step whose output buffer was
/// already copied into `value`.
pub fn enumeration_step_from<T>(rc: i32, value: T) -> (r: Result<Enumeration<T>, Error>)
    ensures
        r == spec_enumeration_step(rc, value),
{
    if rc < 0 {
        Err(Error::SDError(rc))
    } else if rc == 0 {
        Ok(Enumeration::EoF)
    } else {
        Ok(Enumeration::Value(value))
    }
}

/// Outcome of testing a cursor token: negative is a native error, zero
/// means the current position does not match the token, positive means it
/// does.
pub open spec fn spec_cursor_check(rc: i32) -> Result<CursorCheck, Error> {
    if rc < 0 {
        Err(Error::SDError(rc))
    } else if rc == 0 {
        Ok(CursorCheck::DoesNotMatch)
    } else {
        Ok(CursorCheck::Matches)
    }
}

/// Interpret the return code of a cursor test call.
pub fn cursor_check_from(rc: i32) -> (r: Result<CursorCheck, Error>)
    ensures
        r == spec_cursor_check(rc),
{
    if rc < 0 {
        Err(Error::SDError(rc))
    } else if rc == 0 {
        Ok(CursorCheck::DoesNotMatch)
    } else {
        Ok(CursorCheck::Matches)
    }
}

/// Outcome of a boolean query: negative is a native error, zero is `false`,
/// positive is `true`.
pub open spec fn spec_flag(rc: i32) -> Result<bool, Error> {
    if rc < 0 {
        Err(Error::SDError(rc))
    } else {
        Ok(rc > 0)
    }
}

/// Interpret the return code of a boolean native query.
pub fn flag_from(rc: i32) -> (r: Result<bool, Error>)
    ensures
        r == spec_flag(rc),
{
    if rc < 0 {
        Err(Error::SDError(rc))
    } else {
        Ok(rc > 0)
    }
}

/// Outcome of waiting on or processing journal events: the codes 0, 1 and 2
/// are the documented wake reasons (no-op, entries appended, journal
/// invalidated); every other code is treated as a native error and carried
/// verbatim.
pub open spec fn spec_event(rc: i32) -> Result<Event, Error> {
    if rc == 0 {
        Ok(Event::NOOP)
    } else if rc == 1 {
        Ok(Event::Append)
    } else if rc == 2 {
        Ok(Event::Invalidate)
    } else {
        Err(Error::SDError(rc))
    }
}

/// Interpret the return code of a wait or process call.
pub fn event_from(rc: i32) -> (r: Result<Event, Error>)
    ensures
        r == spec_event(rc),
{
    if rc == 0 {
        Ok(Event::NOOP)
    } else if rc == 1 {
        Ok(Event::Append)
    } else if rc == 2 {
        Ok(Event::Invalidate)
    } else {
        Err(Error::SDError(rc))
    }
}

} // verus!
