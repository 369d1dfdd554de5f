//! Reference semantics of the cursor and enumeration protocol.
//!
//! A journal session is a single shared cursor over a fixed sequence of
//! entries, each entry an ordered sequence of raw `FIELD=value` records.
//! The binding drives that cursor blindly through foreign calls; this module
//! states what the protocol promises, as an executable state machine with
//! proofs of its governing laws:
//!
//! - a fresh session is unpositioned, and an unpositioned session denies
//!   every data access;
//! - movement truncates exactly at the journal boundary, and a negative
//!   requested distance is rejected without any state change;
//! - a cursor token identifies an absolute position: seeking back to a
//!   saved token and moving once restores the same entry;
//! - field enumeration, restarted, always replays the entry's records in
//!   order, and its end is absorbing — further steps keep reporting the
//!   end, never an error, never wrapping around.
//!
//! The model implements the documented contract of the native service; the
//! known native anomaly after a head or tail seek (an opposite-direction
//! movement may report spurious entries before any same-direction movement
//! was made) is a defect of the service, not part of its contract, and is
//! deliberately not reproduced.

use crate::enums::{CursorCheck, CursorMovement, Enumeration, Error};
use crate::text::is_field_prefixed;
use vstd::prelude::*;

verus! {

/// The journal is addressable: the entry count and every entry's record
/// count fit the machine word that the cursors are kept in.
pub open spec fn entries_addressable(entries: Vec<Vec<Vec<u8>>>) -> bool {
    &&& entries@.len() <= usize::MAX
    &&& forall|i: int| 0 <= i < entries@.len() ==> (#[trigger] entries@[i]@).len() <= usize::MAX
}

/// Code the native service reports when the cursor is not positioned on an
/// entry and data is requested anyway.
pub const CODE_NOT_POSITIONED: i32 = -99;

/// Code the native service reports when the positioned entry has no record
/// for the requested field.
pub const CODE_FIELD_ABSENT: i32 = -2;

/// Where the shared cursor of a session stands.
#[derive(Debug, Clone, Copy, PartialEq, Eq, Structural)]
pub enum Position {
    /// Before the oldest entry; a fresh session and a head seek start here.
    BeforeHead,
    /// On the entry with the given index.
    AtEntry(usize),
    /// Behind the newest entry; a tail seek lands here.
    AfterTail,
    /// An absolute position was restored from a cursor token; the next
    /// movement in either direction lands on the entry it names.
    Sought(usize),
}

/// The reference state of one journal session: the entries it can see, the
/// shared cursor position, the per-entry enumeration cursor, and the data
/// size threshold.
#[derive(Debug)]
pub struct JournalModel {
    /// The entries of the journal, oldest first; each entry is its ordered
    /// raw `FIELD=value` records.
    pub entries: Vec<Vec<Vec<u8>>>,
    /// The shared cursor position.
    pub position: Position,
    /// How many records of the positioned entry were already enumerated.
    pub field_cursor: usize,
    /// The data size threshold; zero means unlimited.
    pub data_threshold: usize,
}

impl JournalModel {
    /// The records of the entry at index `i`, as sequences of bytes.
    pub open spec fn spec_entry(self, i: int) -> Seq<Seq<u8>> {
        self.entries@[i]@.map_values(|r: Vec<u8>| r@)
    }

    /// The records of the entry the cursor is positioned on; empty when the
    /// cursor is not on an entry.
    pub open spec fn spec_current_records(self) -> Seq<Seq<u8>> {
        match self.position {
            Position::AtEntry(i) => self.spec_entry(i as int),
            _ => Seq::empty(),
        }
    }

    /// Well-formedness: an entry position names an existing entry, the
    /// enumeration cursor never lies beyond the positioned entry's records,
    /// and every entry's record count is addressable.
    pub open spec fn wf(self) -> bool {
        &&& (self.position matches Position::AtEntry(i) ==> i < self.entries@.len())
        &&& (self.position matches Position::Sought(i) ==> i < self.entries@.len())
        &&& (self.position matches Position::AtEntry(i) ==> self.field_cursor
            <= self.spec_entry(i as int).len())
        &&& entries_addressable(self.entries)
    }

    /// The state of a freshly opened session over the given entries.
    pub open spec fn spec_new(entries: Vec<Vec<Vec<u8>>>) -> JournalModel {
        JournalModel {
            entries,
            position: Position::BeforeHead,
            field_cursor: 0,
            data_threshold: 0,
        }
    }

    /// Open a session over the given entries.  The session begins
    /// unpositioned: no data access succeeds until a movement call has.
    pub fn new(entries: Vec<Vec<Vec<u8>>>) -> (r: JournalModel)
        ensures
            r == JournalModel::spec_new(entries),
            r.wf(),
            r.position == Position::BeforeHead,
    {
        let m = JournalModel {
            entries,
            position: Position::BeforeHead,
            field_cursor: 0,
            data_threshold: 0,
        };
        proof {
            vstd::std_specs::vec::axiom_spec_len(&m.entries);
            assert forall|i: int|
                0 <= i < m.entries@.len() implies (#[trigger] m.entries@[i]@).len()
                <= usize::MAX by {
                vstd::std_specs::vec::axiom_spec_len(&m.entries@[i]);
            }
        }
        m
    }

    /// How many entries a forward movement can still traverse.
    pub open spec fn spec_forward_room(self) -> int {
        match self.position {
            Position::BeforeHead => self.entries@.len() as int,
            Position::AtEntry(i) => self.entries@.len() - 1 - i,
            Position::Sought(i) => self.entries@.len() - i,
            Position::AfterTail => 0,
        }
    }

    /// How many entries a backward movement can still traverse.
    pub open spec fn spec_backward_room(self) -> int {
        match self.position {
            Position::BeforeHead => 0,
            Position::AtEntry(i) => i as int,
            Position::Sought(i) => i + 1,
            Position::AfterTail => self.entries@.len() as int,
        }
    }

    /// The position reached by moving `moved` entries forward.
    pub open spec fn spec_after_forward(self, moved: int) -> Position
        recommends
            0 < moved <= self.spec_forward_room(),
    {
        match self.position {
            Position::BeforeHead => Position::AtEntry((moved - 1) as usize),
            Position::AtEntry(i) => Position::AtEntry((i + moved) as usize),
            Position::Sought(i) => Position::AtEntry((i + moved - 1) as usize),
            Position::AfterTail => Position::AfterTail,
        }
    }

    /// The position reached by moving `moved` entries backward.
    pub open spec fn spec_after_backward(self, moved: int) -> Position
        recommends
            0 < moved <= self.spec_backward_room(),
    {
        match self.position {
            Position::BeforeHead => Position::BeforeHead,
            Position::AtEntry(i) => Position::AtEntry((i - moved) as usize),
            Position::Sought(i) => Position::AtEntry((i + 1 - moved) as usize),
            Position::AfterTail => Position::AtEntry((self.entries@.len() - moved) as usize),
        }
    }

    /// The state and outcome of a multi-step forward movement requesting
    /// `skip` entries: a negative request is rejected without any state
    /// change; otherwise the movement is truncated at the boundary, with
    /// `Done` for the full distance, `Limited` for a truncated one and
    /// `EoF` for none at all.  A movement onto an entry restarts the field
    /// enumeration of that entry.
    pub open spec fn spec_next_skip(self, skip: i32) -> (JournalModel, Result<
        CursorMovement,
        Error,
    >) {
        if skip < 0 {
            (self, Err(Error::RangeError))
        } else {
            let moved = vstd::math::min(skip as int, self.spec_forward_room());
            if moved == 0 {
                (self, Ok(CursorMovement::EoF))
            } else {
                let landed = JournalModel {
                    entries: self.entries,
                    position: self.spec_after_forward(moved),
                    field_cursor: 0,
                    data_threshold: self.data_threshold,
                };
                if moved == skip {
                    (landed, Ok(CursorMovement::Done))
                } else {
                    (landed, Ok(CursorMovement::Limited(moved as i32)))
                }
            }
        }
    }

    /// The state and outcome of a multi-step backward movement, the mirror
    /// image of the forward one.
    pub open spec fn spec_previous_skip(self, skip: i32) -> (JournalModel, Result<
        CursorMovement,
        Error,
    >) {
        if skip < 0 {
            (self, Err(Error::RangeError))
        } else {
            let moved = vstd::math::min(skip as int, self.spec_backward_room());
            if moved == 0 {
                (self, Ok(CursorMovement::EoF))
            } else {
                let landed = JournalModel {
                    entries: self.entries,
                    position: self.spec_after_backward(moved),
                    field_cursor: 0,
                    data_threshold: self.data_threshold,
                };
                if moved == skip {
                    (landed, Ok(CursorMovement::Done))
                } else {
                    (landed, Ok(CursorMovement::Limited(moved as i32)))
                }
            }
        }
    }

    /// The state and outcome of a single forward step: one entry forward,
    /// or `EoF` when the cursor already sits at the end.
    pub open spec fn spec_next(self) -> (JournalModel, CursorMovement) {
        if self.spec_forward_room() == 0 {
            (self, CursorMovement::EoF)
        } else {
            (
                JournalModel {
                    entries: self.entries,
                    position: self.spec_after_forward(1),
                    field_cursor: 0,
                    data_threshold: self.data_threshold,
                },
                CursorMovement::Done,
            )
        }
    }

    /// The state and outcome of a single backward step.
    pub open spec fn spec_previous(self) -> (JournalModel, CursorMovement) {
        if self.spec_backward_room() == 0 {
            (self, CursorMovement::EoF)
        } else {
            (
                JournalModel {
                    entries: self.entries,
                    position: self.spec_after_backward(1),
                    field_cursor: 0,
                    data_threshold: self.data_threshold,
                },
                CursorMovement::Done,
            )
        }
    }

    /// How many entries a forward movement can still traverse.
    fn forward_room(&self) -> (r: usize)
        requires
            self.wf(),
        ensures
            r == self.spec_forward_room(),
    {
        match self.position {
            Position::BeforeHead => self.entries.len(),
            Position::AtEntry(i) => self.entries.len() - 1 - i,
            Position::Sought(i) => self.entries.len() - i,
            Position::AfterTail => 0,
        }
    }

    /// How many entries a backward movement can still traverse.
    fn backward_room(&self) -> (r: usize)
        requires
            self.wf(),
        ensures
            r == self.spec_backward_room(),
    {
        let n = self.entries.len();
        match self.position {
            Position::BeforeHead => 0,
            Position::AtEntry(i) => i,
            Position::Sought(i) => i + 1,
            Position::AfterTail => n,
        }
    }

    /// Advance the cursor by one entry.
    pub fn next(&mut self) -> (r: CursorMovement)
        requires
            old(self).wf(),
        ensures
            final(self).wf(),
            (*final(self), r) == old(self).spec_next(),
    {
        match self.next_skip(1) {
            Ok(m) => m,
            Err(_) => CursorMovement::EoF,
        }
    }

    /// Set the cursor back by one entry.
    pub fn previous(&mut self) -> (r: CursorMovement)
        requires
            old(self).wf(),
        ensures
            final(self).wf(),
            (*final(self), r) == old(self).spec_previous(),
    {
        match self.previous_skip(1) {
            Ok(m) => m,
            Err(_) => CursorMovement::EoF,
        }
    }

    /// Advance the cursor by `skip` entries at once.  A negative `skip` is
    /// rejected locally with a range error and the state is untouched.
    pub fn next_skip(&mut self, skip: i32) -> (r: Result<CursorMovement, Error>)
        requires
            old(self).wf(),
        ensures
            final(self).wf(),
            (*final(self), r) == old(self).spec_next_skip(skip),
    {
        if skip < 0 {
            return Err(Error::RangeError);
        }
        let room = self.forward_room();
        let moved: usize = if (skip as usize) < room {
            skip as usize
        } else {
            room
        };
        if moved == 0 {
            return Ok(CursorMovement::EoF);
        }
        let n = self.entries.len();
        let landed = match self.position {
            Position::BeforeHead => Position::AtEntry(moved - 1),
            Position::AtEntry(i) => {
                assert(i + moved <= n - 1);
                Position::AtEntry(i + moved)
            },
            Position::Sought(i) => {
                assert(i + moved <= n);
                Position::AtEntry(i + moved - 1)
            },
            Position::AfterTail => Position::AfterTail,
        };
        self.position = landed;
        self.field_cursor = 0;
        if moved == skip as usize {
            Ok(CursorMovement::Done)
        } else {
            Ok(CursorMovement::Limited(moved as i32))
        }
    }

    /// Set the cursor back by `skip` entries at once, the mirror image of
    /// the forward movement.
    pub fn previous_skip(&mut self, skip: i32) -> (r: Result<CursorMovement, Error>)
        requires
            old(self).wf(),
        ensures
            final(self).wf(),
            (*final(self), r) == old(self).spec_previous_skip(skip),
    {
        if skip < 0 {
            return Err(Error::RangeError);
        }
        let room = self.backward_room();
        let moved: usize = if (skip as usize) < room {
            skip as usize
        } else {
            room
        };
        if moved == 0 {
            return Ok(CursorMovement::EoF);
        }
        let landed = match self.position {
            Position::BeforeHead => Position::BeforeHead,
            Position::AtEntry(i) => Position::AtEntry(i - moved),
            Position::Sought(i) => Position::AtEntry(i + 1 - moved),
            Position::AfterTail => Position::AtEntry(self.entries.len() - moved),
        };
        self.position = landed;
        self.field_cursor = 0;
        if moved == skip as usize {
            Ok(CursorMovement::Done)
        } else {
            Ok(CursorMovement::Limited(moved as i32))
        }
    }

    /// Seek before the oldest entry.  The cursor is unpositioned afterwards:
    /// a movement must succeed before data can be read.
    pub fn seek_head(&mut self)
        requires
            old(self).wf(),
        ensures
            final(self).wf(),
            final(self).position == Position::BeforeHead,
            final(self).field_cursor == 0,
            final(self).entries == old(self).entries,
            final(self).data_threshold == old(self).data_threshold,
    {
        self.position = Position::BeforeHead;
        self.field_cursor = 0;
    }

    /// Seek behind the newest entry.  The cursor is unpositioned afterwards.
    pub fn seek_tail(&mut self)
        requires
            old(self).wf(),
        ensures
            final(self).wf(),
            final(self).position == Position::AfterTail,
            final(self).field_cursor == 0,
            final(self).entries == old(self).entries,
            final(self).data_threshold == old(self).data_threshold,
    {
        self.position = Position::AfterTail;
        self.field_cursor = 0;
    }

    /// The cursor token of the positioned entry: its absolute index.  An
    /// unpositioned session has no token and reports the dedicated code.
    pub fn get_cursor(&self) -> (r: Result<usize, Error>)
        ensures
            self.position matches Position::AtEntry(i) ==> r == Ok::<usize, Error>(i),
            !(self.position matches Position::AtEntry(_)) ==> r == Err::<usize, Error>(
                Error::SDError(CODE_NOT_POSITIONED),
            ),
    {
        match self.position {
            Position::AtEntry(i) => Ok(i),
            _ => Err(Error::SDError(CODE_NOT_POSITIONED)),
        }
    }

    /// The state after restoring an absolute position from a cursor token.
    pub open spec fn spec_seek_cursor(self, token: usize) -> JournalModel {
        JournalModel {
            entries: self.entries,
            position: Position::Sought(token),
            field_cursor: 0,
            data_threshold: self.data_threshold,
        }
    }

    /// Restore an absolute position from a cursor token.  The next movement
    /// in either direction lands on the entry the token names.
    pub fn seek_cursor(&mut self, token: usize)
        requires
            old(self).wf(),
            token < old(self).entries@.len(),
        ensures
            final(self).wf(),
            *final(self) == old(self).spec_seek_cursor(token),
    {
        self.position = Position::Sought(token);
        self.field_cursor = 0;
    }

    /// Test whether the positioned entry is the one a token names.  An
    /// unpositioned session reports the dedicated code.
    pub fn test_cursor(&self, token: usize) -> (r: Result<CursorCheck, Error>)
        ensures
            self.position matches Position::AtEntry(i) ==> r == Ok::<CursorCheck, Error>(
                if i == token {
                    CursorCheck::Matches
                } else {
                    CursorCheck::DoesNotMatch
                },
            ),
            !(self.position matches Position::AtEntry(_)) ==> r == Err::<CursorCheck, Error>(
                Error::SDError(CODE_NOT_POSITIONED),
            ),
    {
        match self.position {
            Position::AtEntry(i) => {
                if i == token {
                    Ok(CursorCheck::Matches)
                } else {
                    Ok(CursorCheck::DoesNotMatch)
                }
            },
            _ => Err(Error::SDError(CODE_NOT_POSITIONED)),
        }
    }

    /// Set the data size threshold; zero means unlimited.
    pub fn set_data_threshold(&mut self, size: usize)
        ensures
            final(self).data_threshold == size,
            final(self).entries == old(self).entries,
            final(self).position == old(self).position,
            final(self).field_cursor == old(self).field_cursor,
            old(self).wf() ==> final(self).wf(),
    {
        self.data_threshold = size;
    }

    /// The data size threshold currently in force; zero means unlimited.
    pub fn get_data_threshold(&self) -> (r: usize)
        ensures
            r == self.data_threshold,
    {
        self.data_threshold
    }

    /// The outcome of a field lookup on this session: the first record of
    /// the positioned entry that carries the field, the dedicated absence
    /// code when no record does, and the dedicated position code when the
    /// cursor is not on an entry.
    pub open spec fn spec_get_data(self, field: Seq<u8>) -> Result<Seq<u8>, Error> {
        match self.position {
            Position::AtEntry(_) => spec_lookup(self.spec_current_records(), field),
            _ => Err(Error::SDError(CODE_NOT_POSITIONED)),
        }
    }

    /// Look up the value record of a field in the positioned entry.
    pub fn get_data(&self, field: &[u8]) -> (r: Result<Vec<u8>, Error>)
        requires
            self.wf(),
        ensures
            r is Ok <==> self.spec_get_data(field@) is Ok,
            r matches Ok(v) ==> self.spec_get_data(field@) matches Ok(s) && v@ == s,
            r matches Err(e) ==> self.spec_get_data(field@) == Err::<Seq<u8>, Error>(e),
    {
        let i = match self.position {
            Position::AtEntry(i) => i,
            _ => {
                return Err(Error::SDError(CODE_NOT_POSITIONED));
            },
        };
        let records = &self.entries[i];
        let ghost recs = self.spec_current_records();
        let mut k: usize = 0;
        while k < records.len()
            invariant
                self.position == Position::AtEntry(i),
                i < self.entries@.len(),
                recs == self.spec_current_records(),
                records == &self.entries[i as int],
                records@.len() == recs.len(),
                forall|j: int| 0 <= j < recs.len() ==> recs[j] == records@[j]@,
                forall|j: int| 0 <= j < k ==> !is_field_prefixed(recs[j], field@),
            decreases records@.len() - k,
        {
            if crate::text::has_field_prefix(records[k].as_slice(), field) {
                assert(spec_first_match(recs, field@, k as int));
                assert(forall|k2: int| spec_first_match(recs, field@, k2) ==> k2 == k as int);
                return Ok(vstd::slice::slice_to_vec(records[k].as_slice()));
            }
            k = k + 1;
        }
        assert(!(exists|k2: int| spec_first_match(recs, field@, k2)));
        Err(Error::SDError(CODE_FIELD_ABSENT))
    }

    /// The state and outcome of one enumeration step over the positioned
    /// entry's records: the next record not yet enumerated, or the end of
    /// the enumeration once every record was yielded.  The end is absorbing:
    /// a step at the end changes nothing and yields the end again.  An
    /// unpositioned session reports the dedicated code.
    pub open spec fn spec_enumerate_data(self) -> (JournalModel, Result<
        Enumeration<Seq<u8>>,
        Error,
    >) {
        match self.position {
            Position::AtEntry(_) => {
                let recs = self.spec_current_records();
                if self.field_cursor < recs.len() {
                    (
                        JournalModel {
                            entries: self.entries,
                            position: self.position,
                            field_cursor: (self.field_cursor + 1) as usize,
                            data_threshold: self.data_threshold,
                        },
                        Ok(Enumeration::Value(recs[self.field_cursor as int])),
                    )
                } else {
                    (self, Ok(Enumeration::EoF))
                }
            },
            _ => (self, Err(Error::SDError(CODE_NOT_POSITIONED))),
        }
    }

    /// Yield the next record of the positioned entry, advancing the
    /// enumeration cursor; the entry cursor itself is untouched.
    pub fn enumerate_data(&mut self) -> (r: Result<Enumeration<Vec<u8>>, Error>)
        requires
            old(self).wf(),
        ensures
            final(self).wf(),
            ({
                let (landed, out) = old(self).spec_enumerate_data();
                &&& *final(self) == landed
                &&& match r {
                    Ok(Enumeration::Value(v)) => out matches Ok(Enumeration::Value(s)) && v@ == s,
                    Ok(Enumeration::EoF) => out == Ok::<Enumeration<Seq<u8>>, Error>(
                        Enumeration::EoF,
                    ),
                    Err(e) => out == Err::<Enumeration<Seq<u8>>, Error>(e),
                }
            }),
    {
        let i = match self.position {
            Position::AtEntry(i) => i,
            _ => {
                return Err(Error::SDError(CODE_NOT_POSITIONED));
            },
        };
        let records = &self.entries[i];
        if self.field_cursor < records.len() {
            let v = vstd::slice::slice_to_vec(records[self.field_cursor].as_slice());
            self.field_cursor = self.field_cursor + 1;
            Ok(Enumeration::Value(v))
        } else {
            Ok(Enumeration::EoF)
        }
    }

    /// The state after a restart of the field enumeration: the enumeration
    /// cursor is back at the first record, everything else untouched.
    pub open spec fn spec_restart_data(self) -> JournalModel {
        JournalModel {
            entries: self.entries,
            position: self.position,
            field_cursor: 0,
            data_threshold: self.data_threshold,
        }
    }

    /// Restart the field enumeration of the positioned entry without
    /// touching the entry cursor.
    pub fn restart_data(&mut self)
        ensures
            *final(self) == old(self).spec_restart_data(),
            old(self).wf() ==> final(self).wf(),
    {
        self.field_cursor = 0;
    }

    /// Everything the field enumeration will still yield when stepped to
    /// exhaustion.
    pub open spec fn spec_run_enumeration(self) -> Seq<Seq<u8>>
        decreases self.spec_current_records().len() - self.field_cursor,
        when self.position matches Position::AtEntry(_) && self.field_cursor
            <= self.spec_current_records().len() && self.spec_current_records().len() <= usize::MAX
    {
        let (landed, out) = self.spec_enumerate_data();
        match out {
            Ok(Enumeration::Value(v)) => seq![v] + landed.spec_run_enumeration(),
            _ => Seq::empty(),
        }
    }

    /// Enumeration is exhaustive and in order: stepping to exhaustion
    /// yields exactly the records the enumeration cursor has not passed yet.
    pub proof fn lemma_run_enumeration(self)
        requires
            self.wf(),
            self.position matches Position::AtEntry(_),
        ensures
            self.spec_run_enumeration() == self.spec_current_records().subrange(
                self.field_cursor as int,
                self.spec_current_records().len() as int,
            ),
        decreases self.spec_current_records().len() - self.field_cursor,
    {
        let recs = self.spec_current_records();
        if self.field_cursor < recs.len() {
            let (landed, _) = self.spec_enumerate_data();
            assert(landed.wf());
            assert(landed.spec_current_records() == recs);
            landed.lemma_run_enumeration();
            assert(self.spec_run_enumeration() =~= recs.subrange(
                self.field_cursor as int,
                recs.len() as int,
            ));
        } else {
            assert(self.spec_run_enumeration() =~= recs.subrange(
                self.field_cursor as int,
                recs.len() as int,
            ));
        }
    }
}

/// `k` is the index of the first record among `recs` that carries `field`.
pub open spec fn spec_first_match(recs: Seq<Seq<u8>>, field: Seq<u8>, k: int) -> bool {
    &&& 0 <= k < recs.len()
    &&& is_field_prefixed(recs[k], field)
    &&& forall|j: int| 0 <= j < k ==> !is_field_prefixed(recs[j], field)
}

/// The outcome of a field lookup among the records of one entry: the first
/// record that carries the field, or the dedicated absence code.
pub open spec fn spec_lookup(recs: Seq<Seq<u8>>, field: Seq<u8>) -> Result<Seq<u8>, Error> {
    if exists|k: int| spec_first_match(recs, field, k) {
        Ok(recs[choose|k: int| spec_first_match(recs, field, k)])
    } else {
        Err(Error::SDError(CODE_FIELD_ABSENT))
    }
}

/// A fresh session is unpositioned, and an unpositioned session denies
/// every data access: field lookup and field enumeration fail with the
/// dedicated code until a movement call has succeeded.
pub proof fn law_fresh_session_denies_data(entries: Vec<Vec<Vec<u8>>>, field: Seq<u8>)
    ensures
        JournalModel::spec_new(entries).position == Position::BeforeHead,
        JournalModel::spec_new(entries).spec_get_data(field) == Err::<Seq<u8>, Error>(
            Error::SDError(CODE_NOT_POSITIONED),
        ),
        JournalModel::spec_new(entries).spec_enumerate_data().1 == Err::<
            Enumeration<Seq<u8>>,
            Error,
        >(Error::SDError(CODE_NOT_POSITIONED)),
{
}

/// Multi-step forward movement truncates exactly at the journal boundary:
/// `Done` stands for the full requested distance, `Limited(n)` for a
/// movement of `0 < n < skip` entries after which the very next step
/// reports `EoF`, `EoF` for no movement at all; and a negative request
/// fails with the range error and changes nothing.
pub proof fn law_skip_is_exact(s: JournalModel, skip: i32)
    requires
        s.wf(),
    ensures
        ({
            let (landed, r) = s.spec_next_skip(skip);
            &&& (skip < 0 ==> landed == s && r == Err::<CursorMovement, Error>(Error::RangeError))
            &&& (r == Ok::<CursorMovement, Error>(CursorMovement::Done) ==> s.spec_forward_room()
                - landed.spec_forward_room() == skip)
            &&& (forall|n: i32|
                r == Ok::<CursorMovement, Error>(CursorMovement::Limited(n)) ==> 0 < n < skip
                    && s.spec_forward_room() - landed.spec_forward_room() == n
                    && landed.spec_next().1 == CursorMovement::EoF)
            &&& (r == Ok::<CursorMovement, Error>(CursorMovement::EoF) ==> landed == s && (skip
                == 0 || s.spec_forward_room() == 0))
        }),
{
    if skip >= 0 {
        let (landed, r) = s.spec_next_skip(skip);
        let moved = vstd::math::min(skip as int, s.spec_forward_room());
        if moved > 0 {
            assert(landed.spec_forward_room() == s.spec_forward_room() - moved) by {
                match s.position {
                    Position::BeforeHead => {},
                    Position::AtEntry(_) => {},
                    Position::Sought(_) => {},
                    Position::AfterTail => {},
                }
            }
        }
    }
}

/// A cursor token identifies an absolute position: after moving elsewhere,
/// seeking back to a saved token and making one movement lands on the very
/// entry the token was taken from, so the same field lookups yield the same
/// records as before the seek away.
pub proof fn law_cursor_token_roundtrip(
    s: JournalModel,
    t: JournalModel,
    token: usize,
    field: Seq<u8>,
)
    requires
        s.wf(),
        t.wf(),
        s.position == Position::AtEntry(token),
        t.entries == s.entries,
    ensures
        ({
            let (arrived, mv) = t.spec_seek_cursor(token).spec_next();
            &&& mv == CursorMovement::Done
            &&& arrived.position == Position::AtEntry(token)
            &&& arrived.spec_get_data(field) == s.spec_get_data(field)
        }),
{
}

/// Restarting the field enumeration and enumerating to exhaustion always
/// yields exactly the records of the positioned entry, in order — so on one
/// positioned entry, every repetition of restart and full enumeration
/// yields the same sequence of records.
pub proof fn law_enumeration_replays_entry(s: JournalModel)
    requires
        s.wf(),
        s.position matches Position::AtEntry(_),
    ensures
        s.spec_restart_data().spec_run_enumeration() == s.spec_current_records(),
{
    let restarted = s.spec_restart_data();
    restarted.lemma_run_enumeration();
    assert(restarted.spec_current_records().subrange(
        0,
        restarted.spec_current_records().len() as int,
    ) =~= s.spec_current_records());
}

/// The end of an enumeration is absorbing: once a step reports `EoF`, every
/// further step leaves the session unchanged and reports `EoF` again —
/// never an error, never wrapping around.
pub proof fn law_enumeration_end_absorbing(s: JournalModel)
    requires
        s.wf(),
        s.spec_enumerate_data().1 == Ok::<Enumeration<Seq<u8>>, Error>(Enumeration::EoF),
    ensures
        s.spec_enumerate_data().0 == s,
        s.spec_enumerate_data().0.spec_enumerate_data().1 == Ok::<Enumeration<Seq<u8>>, Error>(
            Enumeration::EoF,
        ),
{
}

} // verus!
