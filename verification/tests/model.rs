use sd_journal::model::{JournalModel, Position, CODE_FIELD_ABSENT, CODE_NOT_POSITIONED};
use sd_journal::{CursorCheck, CursorMovement, Enumeration, Error};

fn journal(entries: &[&[&str]]) -> JournalModel {
    let data: Vec<Vec<Vec<u8>>> = entries
        .iter()
        .map(|records| records.iter().map(|r| r.as_bytes().to_vec()).collect())
        .collect();
    JournalModel::new(data)
}

#[test]
fn fresh_session_is_unpositioned() {
    let j = journal(&[&["MESSAGE=Hello World!", "PRIORITY=6"]]);
    assert_eq!(j.position, Position::BeforeHead);
    assert_eq!(
        j.get_data(b"MESSAGE"),
        Err(Error::SDError(CODE_NOT_POSITIONED))
    );
    assert_eq!(j.get_cursor(), Err(Error::SDError(CODE_NOT_POSITIONED)));
}

#[test]
fn data_is_readable_once_positioned() {
    let mut j = journal(&[&["MESSAGE=Hello World!", "PRIORITY=6"]]);
    assert_eq!(j.next(), CursorMovement::Done);
    assert_eq!(j.get_data(b"MESSAGE"), Ok(b"MESSAGE=Hello World!".to_vec()));
    assert_eq!(j.get_data(b"PRIORITY"), Ok(b"PRIORITY=6".to_vec()));
    assert_eq!(
        j.get_data(b"ABSENT"),
        Err(Error::SDError(CODE_FIELD_ABSENT))
    );
}

#[test]
fn empty_journal_reports_eof_immediately() {
    let mut j = journal(&[]);
    assert_eq!(j.next(), CursorMovement::EoF);
    assert_eq!(j.position, Position::BeforeHead);
    assert_eq!(j.previous(), CursorMovement::EoF);
}

#[test]
fn single_steps_walk_the_journal() {
    let mut j = journal(&[&["N=1"], &["N=2"], &["N=3"]]);
    assert_eq!(j.next(), CursorMovement::Done);
    assert_eq!(j.get_cursor(), Ok(0));
    assert_eq!(j.next(), CursorMovement::Done);
    assert_eq!(j.next(), CursorMovement::Done);
    assert_eq!(j.get_cursor(), Ok(2));
    assert_eq!(j.next(), CursorMovement::EoF);
    assert_eq!(j.get_cursor(), Ok(2));
    assert_eq!(j.previous(), CursorMovement::Done);
    assert_eq!(j.get_cursor(), Ok(1));
}

#[test]
fn skip_is_truncated_exactly_at_the_boundary() {
    let mut j = journal(&[&["N=1"], &["N=2"], &["N=3"], &["N=4"], &["N=5"]]);
    assert_eq!(j.next_skip(3), Ok(CursorMovement::Done));
    assert_eq!(j.get_cursor(), Ok(2));
    assert_eq!(j.next_skip(10), Ok(CursorMovement::Limited(2)));
    assert_eq!(j.get_cursor(), Ok(4));
    assert_eq!(j.next(), CursorMovement::EoF);
    assert_eq!(j.next_skip(1), Ok(CursorMovement::EoF));
}

#[test]
fn zero_skip_reports_eof() {
    let mut j = journal(&[&["N=1"]]);
    assert_eq!(j.next_skip(0), Ok(CursorMovement::EoF));
    assert_eq!(j.position, Position::BeforeHead);
}

#[test]
fn negative_skip_fails_without_position_change() {
    let mut j = journal(&[&["N=1"], &["N=2"]]);
    assert_eq!(j.next(), CursorMovement::Done);
    assert_eq!(j.next_skip(-1), Err(Error::RangeError));
    assert_eq!(j.get_cursor(), Ok(0));
    assert_eq!(j.previous_skip(-7), Err(Error::RangeError));
    assert_eq!(j.get_cursor(), Ok(0));
}

#[test]
fn backward_skip_mirrors_forward() {
    let mut j = journal(&[&["N=1"], &["N=2"], &["N=3"]]);
    j.seek_tail();
    assert_eq!(j.previous_skip(2), Ok(CursorMovement::Done));
    assert_eq!(j.get_cursor(), Ok(1));
    assert_eq!(j.previous_skip(5), Ok(CursorMovement::Limited(1)));
    assert_eq!(j.get_cursor(), Ok(0));
    assert_eq!(j.previous(), CursorMovement::EoF);
}

#[test]
fn head_and_tail_seeks_unposition_the_cursor() {
    let mut j = journal(&[&["N=1"], &["N=2"]]);
    j.seek_tail();
    assert_eq!(
        j.get_data(b"N"),
        Err(Error::SDError(CODE_NOT_POSITIONED))
    );
    assert_eq!(j.next(), CursorMovement::EoF);
    assert_eq!(j.previous(), CursorMovement::Done);
    assert_eq!(j.get_cursor(), Ok(1));
    j.seek_head();
    assert_eq!(j.previous(), CursorMovement::EoF);
    assert_eq!(j.next(), CursorMovement::Done);
    assert_eq!(j.get_cursor(), Ok(0));
}

#[test]
fn cursor_token_roundtrip_restores_the_entry() {
    let mut j = journal(&[&["MESSAGE=first"], &["MESSAGE=second"], &["MESSAGE=third"]]);
    j.next_skip(2).unwrap();
    let token = j.get_cursor().unwrap();
    let before = j.get_data(b"MESSAGE").unwrap();

    // move elsewhere
    j.seek_head();
    assert_done(j.next());
    assert_ne!(j.get_cursor().unwrap(), token);

    // seek back and make one same-direction movement
    j.seek_cursor(token);
    assert_eq!(j.next(), CursorMovement::Done);
    assert_eq!(j.test_cursor(token), Ok(CursorCheck::Matches));
    assert_eq!(j.get_data(b"MESSAGE").unwrap(), before);
    assert_eq!(before, b"MESSAGE=second".to_vec());
}

#[test]
fn sought_position_is_reached_from_either_direction() {
    let mut j = journal(&[&["N=1"], &["N=2"], &["N=3"]]);
    assert_done(j.next());
    let token = 1;
    j.seek_cursor(token);
    assert_eq!(j.previous(), CursorMovement::Done);
    assert_eq!(j.get_cursor(), Ok(1));
    assert_eq!(j.test_cursor(2), Ok(CursorCheck::DoesNotMatch));
}

#[test]
fn enumeration_replays_the_entry_in_order() {
    let mut j = journal(&[&["MESSAGE=Hello", "PRIORITY=6", "CUSTOM_FIELD=42"]]);
    assert_done(j.next());

    let mut first_pass: Vec<Vec<u8>> = Vec::new();
    while let Ok(Enumeration::Value(record)) = j.enumerate_data() {
        first_pass.push(record);
    }
    j.restart_data();
    let mut second_pass: Vec<Vec<u8>> = Vec::new();
    while let Ok(Enumeration::Value(record)) = j.enumerate_data() {
        second_pass.push(record);
    }

    assert_eq!(first_pass, second_pass);
    assert_eq!(
        first_pass,
        vec![
            b"MESSAGE=Hello".to_vec(),
            b"PRIORITY=6".to_vec(),
            b"CUSTOM_FIELD=42".to_vec()
        ]
    );
}

#[test]
fn enumeration_end_is_absorbing() {
    let mut j = journal(&[&["MESSAGE=Hello"]]);
    assert_done(j.next());
    assert_eq!(
        j.enumerate_data(),
        Ok(Enumeration::Value(b"MESSAGE=Hello".to_vec()))
    );
    assert_eq!(j.enumerate_data(), Ok(Enumeration::EoF));
    assert_eq!(j.enumerate_data(), Ok(Enumeration::EoF));
    assert_eq!(j.enumerate_data(), Ok(Enumeration::EoF));
}

#[test]
fn enumeration_needs_a_position() {
    let mut j = journal(&[&["MESSAGE=Hello"]]);
    assert_eq!(
        j.enumerate_data(),
        Err(Error::SDError(CODE_NOT_POSITIONED))
    );
}

#[test]
fn movement_restarts_enumeration() {
    let mut j = journal(&[&["A=1", "B=2"], &["C=3"]]);
    assert_done(j.next());
    assert_eq!(j.enumerate_data(), Ok(Enumeration::Value(b"A=1".to_vec())));
    assert_done(j.next());
    assert_eq!(j.enumerate_data(), Ok(Enumeration::Value(b"C=3".to_vec())));
    assert_eq!(j.enumerate_data(), Ok(Enumeration::EoF));
}

#[test]
fn threshold_roundtrip() {
    let mut j = journal(&[]);
    assert_eq!(j.get_data_threshold(), 0);
    j.set_data_threshold(5);
    assert_eq!(j.get_data_threshold(), 5);
    j.set_data_threshold(0);
    assert_eq!(j.get_data_threshold(), 0);
}

fn assert_done(movement: CursorMovement) {
    assert_eq!(movement, CursorMovement::Done);
}
