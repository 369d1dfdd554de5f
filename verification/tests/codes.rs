use sd_journal::codes::{
    cursor_check_from, enumeration_step_from, event_from, flag_from, movement_from,
    skip_movement_from, status_from, validate_skip, value_from,
};
use sd_journal::{CursorCheck, CursorMovement, Enumeration, Error, Event};

#[test]
fn status_codes() {
    assert_eq!(status_from(-1), Err(Error::SDError(-1)));
    assert_eq!(status_from(0), Ok(()));
    assert_eq!(status_from(17), Ok(()));
}

#[test]
fn value_codes() {
    assert_eq!(value_from(-2, 42u64), Err(Error::SDError(-2)));
    assert_eq!(value_from(0, 42u64), Ok(42u64));
    assert_eq!(value_from(3, 42u64), Ok(42u64));
}

#[test]
fn movement_codes() {
    assert_eq!(movement_from(-5), Err(Error::SDError(-5)));
    assert_eq!(movement_from(0), Ok(CursorMovement::EoF));
    assert_eq!(movement_from(1), Ok(CursorMovement::Done));
    assert_eq!(movement_from(7), Ok(CursorMovement::Done));
}

#[test]
fn skip_movement_codes() {
    assert_eq!(skip_movement_from(-1, 10), Err(Error::SDError(-1)));
    assert_eq!(skip_movement_from(0, 10), Ok(CursorMovement::EoF));
    assert_eq!(skip_movement_from(3, 10), Ok(CursorMovement::Limited(3)));
    assert_eq!(skip_movement_from(9, 10), Ok(CursorMovement::Limited(9)));
    assert_eq!(skip_movement_from(10, 10), Ok(CursorMovement::Done));
    assert_eq!(skip_movement_from(0, 0), Ok(CursorMovement::EoF));
}

#[test]
fn skip_validation() {
    assert_eq!(validate_skip(-1), Err(Error::RangeError));
    assert_eq!(validate_skip(-2147483648), Err(Error::RangeError));
    assert_eq!(validate_skip(0), Ok(()));
    assert_eq!(validate_skip(10), Ok(()));
}

#[test]
fn enumeration_codes() {
    assert_eq!(
        enumeration_step_from(-9, vec![1u8]),
        Err(Error::SDError(-9))
    );
    assert_eq!(
        enumeration_step_from(0, Vec::<u8>::new()),
        Ok(Enumeration::EoF)
    );
    assert_eq!(
        enumeration_step_from(1, vec![1u8, 2u8]),
        Ok(Enumeration::Value(vec![1u8, 2u8]))
    );
}

#[test]
fn cursor_check_codes() {
    assert_eq!(cursor_check_from(-1), Err(Error::SDError(-1)));
    assert_eq!(cursor_check_from(0), Ok(CursorCheck::DoesNotMatch));
    assert_eq!(cursor_check_from(1), Ok(CursorCheck::Matches));
}

#[test]
fn flag_codes() {
    assert_eq!(flag_from(-1), Err(Error::SDError(-1)));
    assert_eq!(flag_from(0), Ok(false));
    assert_eq!(flag_from(1), Ok(true));
    assert_eq!(flag_from(100), Ok(true));
}

#[test]
fn event_codes() {
    assert_eq!(event_from(0), Ok(Event::NOOP));
    assert_eq!(event_from(1), Ok(Event::Append));
    assert_eq!(event_from(2), Ok(Event::Invalidate));
    assert_eq!(event_from(3), Err(Error::SDError(3)));
    assert_eq!(event_from(-1), Err(Error::SDError(-1)));
}
