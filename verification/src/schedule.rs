//! The schedule aggregate: the shifts of one prostitute, with their
//! half-open time intervals and review status.
//!
//! No two shifts of a schedule overlap and no shift id occurs twice; a
//! shift's status walks a fixed transition table.

use vstd::prelude::*;
use crate::prostitute::ProstituteId;
use crate::queue::EventQueue;
use crate::time::{TimeInterval, intervals_overlap};

verus! {

/// Identifier of a schedule.
#[derive(Clone, Copy, Debug, PartialEq, Eq, Hash, Structural)]
pub struct ScheduleId(pub u64);

impl Default for ScheduleId {
    /// The zero id, used only by default-constructed aggregates.
    fn default() -> (r: Self)
        ensures
            r == ScheduleId(0),
    {
        ScheduleId(0)
    }
}

/// Identifier of a shift.
#[derive(Clone, Copy, Debug, PartialEq, Eq, Hash, Structural)]
pub struct ShiftId(pub u64);

impl Default for ShiftId {
    /// The zero id.
    fn default() -> (r: Self)
        ensures
            r == ShiftId(0),
    {
        ShiftId(0)
    }
}

/// The review status of a shift.
#[derive(Clone, Copy, Debug, PartialEq, Eq, Hash, Structural)]
pub enum ShiftStatus {
    /// Being edited.
    Editing,
    /// Submitted for review.
    Reviewing,
    /// Confirmed.
    Confirmed,
    /// Canceled.
    Canceled,
}

impl Default for ShiftStatus {
    /// A new shift starts in editing.
    fn default() -> (r: ShiftStatus)
        ensures
            r == ShiftStatus::Editing,
    {
        ShiftStatus::Editing
    }
}

/// The status transition table: editing may move to reviewing or confirmed;
/// reviewing to editing, confirmed or canceled; confirmed to editing or
/// canceled; canceled back to editing. Everything else is rejected.
pub open spec fn shift_transition_allowed(from: ShiftStatus, to: ShiftStatus) -> bool {
    match (from, to) {
        (ShiftStatus::Editing, ShiftStatus::Reviewing) => true,
        (ShiftStatus::Editing, ShiftStatus::Confirmed) => true,
        (ShiftStatus::Reviewing, ShiftStatus::Editing) => true,
        (ShiftStatus::Reviewing, ShiftStatus::Confirmed) => true,
        (ShiftStatus::Reviewing, ShiftStatus::Canceled) => true,
        (ShiftStatus::Confirmed, ShiftStatus::Editing) => true,
        (ShiftStatus::Confirmed, ShiftStatus::Canceled) => true,
        (ShiftStatus::Canceled, ShiftStatus::Editing) => true,
        _ => false,
    }
}

/// Validation failures of a single shift.
#[derive(Clone, Copy, Debug, PartialEq, Eq, Structural)]
pub enum ShiftError {
    /// The interval ends before it starts.
    InvalidDuration,
    /// The transition table forbids this status change.
    InvalidStatusTransition,
}

/// One shift: an id, a half-open time interval and a status.
#[derive(Clone, Copy, Debug, PartialEq, Eq, Hash, Structural)]
pub struct Shift {
    pub id: ShiftId,
    pub time: TimeInterval,
    pub status: ShiftStatus,
}

impl Shift {
    /// A shift over the given interval; fails with `InvalidDuration` when
    /// the interval ends before it starts.
    pub fn create(id: ShiftId, time: TimeInterval, status: ShiftStatus) -> (r: Result<
        Shift,
        ShiftError,
    >)
        ensures
            match r {
                Ok(sh) => time.start.millis <= time.end.millis && sh == (Shift {
                    id,
                    time,
                    status,
                }),
                Err(e) => e == ShiftError::InvalidDuration && time.start.millis > time.end.millis,
            },
    {
        if time.start.millis > time.end.millis {
            return Err(ShiftError::InvalidDuration);
        }
        Ok(Shift { id, time, status })
    }

    /// The shift's id.
    pub fn id(&self) -> (r: ShiftId)
        ensures
            r == self.id,
    {
        self.id
    }

    /// The shift's interval.
    pub fn time(&self) -> (r: TimeInterval)
        ensures
            r == self.time,
    {
        self.time
    }

    /// The shift's status.
    pub fn status(&self) -> (r: ShiftStatus)
        ensures
            r == self.status,
    {
        self.status
    }

    /// The shift's length in milliseconds.
    pub fn duration_millis(&self) -> (r: i128)
        ensures
            r == self.time.end.millis - self.time.start.millis,
    {
        (self.time.end.millis as i128) - (self.time.start.millis as i128)
    }

    /// Moves the shift to a new interval; fails with `InvalidDuration` when
    /// the interval ends before it starts.
    pub fn change_time(&mut self, time: TimeInterval) -> (r: Result<(), ShiftError>)
        ensures
            match r {
                Ok(()) => time.start.millis <= time.end.millis && *final(self) == (Shift {
                    time,
                    ..*old(self)
                }),
                Err(e) => e == ShiftError::InvalidDuration && time.start.millis > time.end.millis
                    && *final(self) == *old(self),
            },
    {
        if time.start.millis > time.end.millis {
            return Err(ShiftError::InvalidDuration);
        }
        self.time = time;
        Ok(())
    }

    /// Moves the shift to a new status; succeeds exactly when the
    /// transition table allows it.
    pub fn change_status(&mut self, status: ShiftStatus) -> (r: Result<(), ShiftError>)
        ensures
            match r {
                Ok(()) => shift_transition_allowed(old(self).status, status) && *final(self) == (
                Shift { status, ..*old(self) }),
                Err(e) => e == ShiftError::InvalidStatusTransition && !shift_transition_allowed(
                    old(self).status,
                    status,
                ) && *final(self) == *old(self),
            },
    {
        let allowed = match (self.status, status) {
            (ShiftStatus::Editing, ShiftStatus::Reviewing) => true,
            (ShiftStatus::Editing, ShiftStatus::Confirmed) => true,
            (ShiftStatus::Reviewing, ShiftStatus::Editing) => true,
            (ShiftStatus::Reviewing, ShiftStatus::Confirmed) => true,
            (ShiftStatus::Reviewing, ShiftStatus::Canceled) => true,
            (ShiftStatus::Confirmed, ShiftStatus::Editing) => true,
            (ShiftStatus::Confirmed, ShiftStatus::Canceled) => true,
            (ShiftStatus::Canceled, ShiftStatus::Editing) => true,
            _ => false,
        };
        if !allowed {
            return Err(ShiftError::InvalidStatusTransition);
        }
        self.status = status;
        Ok(())
    }
}

impl Default for Shift {
    /// The zero shift.
    fn default() -> (r: Shift)
        ensures
            r == (Shift {
                id: ShiftId(0),
                time: TimeInterval {
                    start: crate::time::Timestamp { millis: 0 },
                    end: crate::time::Timestamp { millis: 0 },
                },
                status: ShiftStatus::Editing,
            }),
    {
        Shift {
            id: ShiftId(0),
            time: TimeInterval {
                start: crate::time::Timestamp { millis: 0 },
                end: crate::time::Timestamp { millis: 0 },
            },
            status: ShiftStatus::Editing,
        }
    }
}

/// Events of the schedule aggregate.
#[derive(Clone, Debug, PartialEq, Eq)]
pub enum ScheduleEvent {
    /// The schedule was opened. Establishes the aggregate's identity.
    ScheduleCreated { id: ScheduleId, prostitute_id: ProstituteId },
    /// The schedule was removed; emitted as a tombstone before stream
    /// deletion.
    ScheduleDeleted { id: ScheduleId },
    /// One shift was added.
    ShiftAdded { id: ScheduleId, shift: Shift },
    /// The interval of one shift changed.
    ShiftTimeChanged { shift_id: ShiftId, time: TimeInterval },
    /// The status of one shift changed.
    ShiftStatusChanged { shift_id: ShiftId, status: ShiftStatus },
    /// The listed shifts were removed.
    ShiftsDeleted { shift_ids: Vec<ShiftId> },
}

/// Validation failures of schedule commands.
#[derive(Clone, Copy, Debug, PartialEq, Eq, Structural)]
pub enum ScheduleError {
    /// The event names another aggregate.
    MismatchedId,
    /// No shift with that id.
    ShiftNotFound,
    /// A shift with that id already exists.
    DuplicateShift,
    /// The interval intersects another shift's.
    OverlappingShift,
    /// A single-shift validation failed.
    ShiftError(ShiftError),
}

/// The state of a schedule aggregate, event queue left out.
pub struct ScheduleState {
    pub id: ScheduleId,
    pub prostitute_id: ProstituteId,
    pub shifts: Seq<Shift>,
}

/// The state of a default-constructed aggregate, before any event.
pub open spec fn schedule_default_state() -> ScheduleState {
    ScheduleState { id: ScheduleId(0), prostitute_id: ProstituteId(0), shifts: Seq::empty() }
}

/// Some shift of `shifts` has id `sid`.
pub open spec fn shifts_has_id(shifts: Seq<Shift>, sid: ShiftId) -> bool {
    exists|i: int| 0 <= i < shifts.len() && (#[trigger] shifts[i]).id == sid
}

/// Some shift, other than the excluded one, intersects `time`.
pub open spec fn shifts_overlap(
    shifts: Seq<Shift>,
    time: TimeInterval,
    exclude: Option<ShiftId>,
) -> bool {
    exists|i: int|
        0 <= i < shifts.len() && (match exclude {
            Some(x) => (#[trigger] shifts[i]).id != x,
            None => true,
        }) && intervals_overlap(shifts[i].time, time)
}

/// The first shift with id `sid`, front to back.
pub open spec fn find_shift(shifts: Seq<Shift>, sid: ShiftId) -> Option<Shift>
    decreases shifts.len(),
{
    if shifts.len() == 0 {
        None
    } else if shifts[0].id == sid {
        Some(shifts[0])
    } else {
        find_shift(shifts.drop_first(), sid)
    }
}

/// Some listed id names a shift of `shifts`.
pub open spec fn any_shift_listed(shifts: Seq<Shift>, ids: Seq<ShiftId>) -> bool {
    exists|i: int| 0 <= i < shifts.len() && ids.contains((#[trigger] shifts[i]).id)
}

/// `shifts` without those whose id is listed.
pub open spec fn remove_shifts(shifts: Seq<Shift>, ids: Seq<ShiftId>) -> Seq<Shift>
    decreases shifts.len(),
{
    if shifts.len() == 0 {
        Seq::empty()
    } else {
        let rest = remove_shifts(shifts.drop_last(), ids);
        if ids.contains(shifts.last().id) {
            rest
        } else {
            rest.push(shifts.last())
        }
    }
}

/// What `validate` decides for each event.
pub open spec fn schedule_validate(s: ScheduleState, e: ScheduleEvent) -> Result<
    (),
    ScheduleError,
> {
    match e {
        ScheduleEvent::ScheduleCreated { .. } => Ok(()),
        ScheduleEvent::ScheduleDeleted { id } => {
            if id != s.id {
                Err(ScheduleError::MismatchedId)
            } else {
                Ok(())
            }
        },
        ScheduleEvent::ShiftAdded { id, shift } => {
            if id != s.id {
                Err(ScheduleError::MismatchedId)
            } else if shifts_has_id(s.shifts, shift.id) {
                Err(ScheduleError::DuplicateShift)
            } else if shifts_overlap(s.shifts, shift.time, None) {
                Err(ScheduleError::OverlappingShift)
            } else {
                Ok(())
            }
        },
        ScheduleEvent::ShiftTimeChanged { shift_id, time } => {
            if !shifts_has_id(s.shifts, shift_id) {
                Err(ScheduleError::ShiftNotFound)
            } else if shifts_overlap(s.shifts, time, Some(shift_id)) {
                Err(ScheduleError::OverlappingShift)
            } else if time.start.millis > time.end.millis {
                Err(ScheduleError::ShiftError(ShiftError::InvalidDuration))
            } else {
                Ok(())
            }
        },
        ScheduleEvent::ShiftStatusChanged { shift_id, status } => {
            match find_shift(s.shifts, shift_id) {
                None => Err(ScheduleError::ShiftNotFound),
                Some(sh) => {
                    if shift_transition_allowed(sh.status, status) {
                        Ok(())
                    } else {
                        Err(ScheduleError::ShiftError(ShiftError::InvalidStatusTransition))
                    }
                },
            }
        },
        ScheduleEvent::ShiftsDeleted { shift_ids } => {
            if any_shift_listed(s.shifts, shift_ids@) {
                Ok(())
            } else {
                Err(ScheduleError::ShiftNotFound)
            }
        },
    }
}

/// What `apply` does to the state. Total: a time change whose interval is
/// inverted, or a status change the table forbids, leaves the shift as it
/// was.
pub open spec fn schedule_step(s: ScheduleState, e: ScheduleEvent) -> ScheduleState {
    match e {
        ScheduleEvent::ScheduleCreated { id, prostitute_id } => ScheduleState {
            id,
            prostitute_id,
            shifts: Seq::empty(),
        },
        ScheduleEvent::ScheduleDeleted { .. } => s,
        ScheduleEvent::ShiftAdded { shift, .. } => ScheduleState {
            shifts: s.shifts.push(shift),
            ..s
        },
        ScheduleEvent::ShiftTimeChanged { shift_id, time } => {
            if time.start.millis <= time.end.millis {
                ScheduleState {
                    shifts: Seq::new(
                        s.shifts.len(),
                        |i: int|
                            if s.shifts[i].id == shift_id {
                                Shift { time, ..s.shifts[i] }
                            } else {
                                s.shifts[i]
                            },
                    ),
                    ..s
                }
            } else {
                s
            }
        },
        ScheduleEvent::ShiftStatusChanged { shift_id, status } => ScheduleState {
            shifts: Seq::new(
                s.shifts.len(),
                |i: int|
                    if s.shifts[i].id == shift_id && shift_transition_allowed(
                        s.shifts[i].status,
                        status,
                    ) {
                        Shift { status, ..s.shifts[i] }
                    } else {
                        s.shifts[i]
                    },
            ),
            ..s
        },
        ScheduleEvent::ShiftsDeleted { shift_ids } => ScheduleState {
            shifts: remove_shifts(s.shifts, shift_ids@),
            ..s
        },
    }
}

/// The state reached by applying `es` in order, oldest first, to `s`.
pub open spec fn schedule_replay(s: ScheduleState, es: Seq<ScheduleEvent>) -> ScheduleState
    decreases es.len(),
{
    if es.len() == 0 {
        s
    } else {
        schedule_replay(schedule_step(s, es[0]), es.drop_first())
    }
}

/// A run of successful commands from `s0` to `sn`.
pub open spec fn schedule_trace(s0: ScheduleState, es: Seq<ScheduleEvent>, sn: ScheduleState) -> bool
    decreases es.len(),
{
    if es.len() == 0 {
        sn == s0
    } else {
        schedule_validate(s0, es[0]) is Ok && schedule_trace(
            schedule_step(s0, es[0]),
            es.drop_first(),
            sn,
        )
    }
}

/// Replay fidelity: a fresh aggregate fed the events a run of successful
/// commands emitted, oldest first, reaches the state those commands built.
pub proof fn lemma_replay_fidelity(s0: ScheduleState, es: Seq<ScheduleEvent>, sn: ScheduleState)
    requires
        schedule_trace(s0, es, sn),
    ensures
        sn == schedule_replay(s0, es),
    decreases es.len(),
{
    if es.len() > 0 {
        lemma_replay_fidelity(schedule_step(s0, es[0]), es.drop_first(), sn);
    }
}

/// Two distinct shifts are compatible: different ids, no overlap.
pub open spec fn shift_pair_ok(a: Shift, b: Shift) -> bool {
    a.id != b.id && !intervals_overlap(a.time, b.time)
}

/// Every pair of positions holds compatible shifts.
pub open spec fn shifts_pairwise_ok(shifts: Seq<Shift>) -> bool {
    forall|i: int, j: int|
        #![trigger shifts[i], shifts[j]]
        0 <= i < j < shifts.len() ==> shift_pair_ok(shifts[i], shifts[j])
}

/// The aggregate's invariant: no shift id occurs twice and no two shifts
/// overlap.
pub open spec fn schedule_inv(s: ScheduleState) -> bool {
    shifts_pairwise_ok(s.shifts)
}

/// Removing listed shifts keeps the remaining ones pairwise distinct and
/// non-overlapping.
proof fn lemma_remove_shifts_inv(shifts: Seq<Shift>, ids: Seq<ShiftId>)
    requires
        shifts_pairwise_ok(shifts),
    ensures
        shifts_pairwise_ok(remove_shifts(shifts, ids)),
        forall|m: Shift| remove_shifts(shifts, ids).contains(m) ==> shifts.contains(m),
    decreases shifts.len(),
{
    if shifts.len() > 0 {
        let head = shifts.drop_last();
        assert forall|i: int, j: int|
            #![trigger head[i], head[j]]
            0 <= i < j < head.len() implies shift_pair_ok(head[i], head[j]) by {
            assert(head[i] == shifts[i]);
            assert(head[j] == shifts[j]);
        }
        lemma_remove_shifts_inv(head, ids);
        let rest = remove_shifts(head, ids);
        assert forall|m: Shift| rest.contains(m) implies shifts.contains(m) by {
            assert(head.contains(m));
            let k = choose|k: int| 0 <= k < head.len() && head[k] == m;
            assert(shifts[k] == m);
        }
        if !ids.contains(shifts.last().id) {
            let out = rest.push(shifts.last());
            assert forall|m: Shift| out.contains(m) implies shifts.contains(m) by {
                let k = choose|k: int| 0 <= k < out.len() && out[k] == m;
                if k < rest.len() {
                    assert(rest.contains(m));
                } else {
                    assert(shifts[shifts.len() - 1] == m);
                }
            }
            assert forall|i: int, j: int|
                #![trigger out[i], out[j]]
                0 <= i < j < out.len() implies shift_pair_ok(out[i], out[j]) by {
                if j == rest.len() {
                    assert(out[i] == rest[i]);
                    assert(rest.contains(rest[i]));
                    assert(head.contains(rest[i]));
                    let k = choose|k: int| 0 <= k < head.len() && head[k] == rest[i];
                    assert(head[k] == shifts[k]);
                    assert(shift_pair_ok(shifts[k], shifts[shifts.len() - 1]));
                } else {
                    assert(out[i] == rest[i]);
                    assert(out[j] == rest[j]);
                }
            }
        }
    }
}

/// Validated events keep the invariant; in particular two shifts of one
/// schedule never overlap, and an addition or time change that would
/// overlap is rejected beforehand.
pub proof fn lemma_validate_preserves_inv(s: ScheduleState, e: ScheduleEvent)
    requires
        schedule_inv(s),
        schedule_validate(s, e) is Ok,
    ensures
        schedule_inv(schedule_step(s, e)),
{
    let s2 = schedule_step(s, e);
    match e {
        ScheduleEvent::ShiftAdded { shift, .. } => {
            assert forall|i: int, j: int|
                #![trigger s2.shifts[i], s2.shifts[j]]
                0 <= i < j < s2.shifts.len() implies shift_pair_ok(s2.shifts[i], s2.shifts[j]) by {
                if j == s.shifts.len() {
                    assert(s2.shifts[i] == s.shifts[i]);
                    assert(s2.shifts[j] == shift);
                    if s.shifts[i].id == shift.id {
                        assert(shifts_has_id(s.shifts, shift.id));
                        assert(false);
                    }
                    if intervals_overlap(s.shifts[i].time, shift.time) {
                        assert(shifts_overlap(s.shifts, shift.time, None));
                        assert(false);
                    }
                    assert(intervals_overlap(shift.time, s.shifts[i].time)
                        == intervals_overlap(s.shifts[i].time, shift.time));
                } else {
                    assert(s2.shifts[i] == s.shifts[i]);
                    assert(s2.shifts[j] == s.shifts[j]);
                    assert(shift_pair_ok(s.shifts[i], s.shifts[j]));
                }
            }
        },
        ScheduleEvent::ShiftTimeChanged { shift_id, time } => {
            if time.start.millis <= time.end.millis {
                assert forall|i: int, j: int|
                    #![trigger s2.shifts[i], s2.shifts[j]]
                    0 <= i < j < s2.shifts.len() implies shift_pair_ok(s2.shifts[i], s2.shifts[j]) by {
                    assert(shift_pair_ok(s.shifts[i], s.shifts[j]));
                    assert(s2.shifts[i].id == s.shifts[i].id);
                    assert(s2.shifts[j].id == s.shifts[j].id);
                    if s.shifts[i].id == shift_id {
                        assert(s.shifts[j].id != shift_id);
                        if intervals_overlap(s.shifts[j].time, time) {
                            assert(shifts_overlap(s.shifts, time, Some(shift_id)));
                            assert(false);
                        }
                        assert(s2.shifts[i].time == time && s2.shifts[j].time == s.shifts[j].time);
                        assert(intervals_overlap(time, s.shifts[j].time) == intervals_overlap(
                            s.shifts[j].time,
                            time,
                        ));
                    } else if s.shifts[j].id == shift_id {
                        if intervals_overlap(s.shifts[i].time, time) {
                            assert(shifts_overlap(s.shifts, time, Some(shift_id)));
                            assert(false);
                        }
                        assert(s2.shifts[j].time == time && s2.shifts[i].time == s.shifts[i].time);
                    } else {
                        assert(s2.shifts[i] == s.shifts[i]);
                        assert(s2.shifts[j] == s.shifts[j]);
                    }
                }
            }
        },
        ScheduleEvent::ShiftStatusChanged { .. } => {
            assert forall|i: int, j: int|
                #![trigger s2.shifts[i], s2.shifts[j]]
                0 <= i < j < s2.shifts.len() implies shift_pair_ok(s2.shifts[i], s2.shifts[j]) by {
                assert(shift_pair_ok(s.shifts[i], s.shifts[j]));
                assert(s2.shifts[i].id == s.shifts[i].id && s2.shifts[i].time == s.shifts[i].time);
                assert(s2.shifts[j].id == s.shifts[j].id && s2.shifts[j].time == s.shifts[j].time);
            }
        },
        ScheduleEvent::ShiftsDeleted { shift_ids } => {
            lemma_remove_shifts_inv(s.shifts, shift_ids@);
        },
        _ => {},
    }
}

/// Every state a run of successful commands reaches satisfies the
/// invariant.
pub proof fn lemma_trace_preserves_inv(s0: ScheduleState, es: Seq<ScheduleEvent>, sn: ScheduleState)
    requires
        schedule_inv(s0),
        schedule_trace(s0, es, sn),
    ensures
        schedule_inv(sn),
    decreases es.len(),
{
    if es.len() > 0 {
        lemma_validate_preserves_inv(s0, es[0]);
        lemma_trace_preserves_inv(schedule_step(s0, es[0]), es.drop_first(), sn);
    }
}

/// Id coherence: a non-creation event that carries the schedule id and
/// whose id differs from the state's is rejected with `MismatchedId`.
pub proof fn lemma_id_coherence(s: ScheduleState, e: ScheduleEvent)
    requires
        !(e is ScheduleCreated),
        match e {
            ScheduleEvent::ScheduleDeleted { id } => id != s.id,
            ScheduleEvent::ShiftAdded { id, .. } => id != s.id,
            _ => false,
        },
    ensures
        schedule_validate(s, e) == Err::<(), ScheduleError>(ScheduleError::MismatchedId),
{
}

/// The first shift with id `sid` equals the element at the first matching
/// index.
proof fn lemma_find_shift_at(shifts: Seq<Shift>, sid: ShiftId, i: int)
    requires
        0 <= i < shifts.len(),
        shifts[i].id == sid,
        forall|j: int| 0 <= j < i ==> (#[trigger] shifts[j]).id != sid,
    ensures
        find_shift(shifts, sid) == Some(shifts[i]),
    decreases i,
{
    if i > 0 {
        let tail = shifts.drop_first();
        assert forall|j: int| 0 <= j < i - 1 implies (#[trigger] tail[j]).id != sid by {
            assert(tail[j] == shifts[j + 1]);
        }
        assert(tail[i - 1] == shifts[i]);
        lemma_find_shift_at(tail, sid, i - 1);
    }
}

/// When no index matches, no shift is found.
proof fn lemma_find_shift_none(shifts: Seq<Shift>, sid: ShiftId)
    requires
        forall|j: int| 0 <= j < shifts.len() ==> (#[trigger] shifts[j]).id != sid,
    ensures
        find_shift(shifts, sid) is None,
    decreases shifts.len(),
{
    if shifts.len() > 0 {
        let tail = shifts.drop_first();
        assert forall|j: int| 0 <= j < tail.len() implies (#[trigger] tail[j]).id != sid by {
            assert(tail[j] == shifts[j + 1]);
        }
        lemma_find_shift_none(tail, sid);
    }
}

/// The first shift of `v` with id `sid`, if any.
fn find_shift_exec(v: &Vec<Shift>, sid: ShiftId) -> (r: Option<Shift>)
    ensures
        r == find_shift(v@, sid),
        r is Some <==> shifts_has_id(v@, sid),
{
    let n = v.len();
    let mut i: usize = 0;
    while i < n
        invariant
            0 <= i <= n,
            n == v@.len(),
            forall|j: int| 0 <= j < i ==> (#[trigger] v@[j]).id != sid,
        decreases n - i,
    {
        if v[i].id.0 == sid.0 {
            proof {
                lemma_find_shift_at(v@, sid, i as int);
            }
            return Some(v[i]);
        }
        i = i + 1;
    }
    proof {
        lemma_find_shift_none(v@, sid);
        if shifts_has_id(v@, sid) {
            let k = choose|k: int| 0 <= k < v@.len() && (#[trigger] v@[k]).id == sid;
            assert(false);
        }
    }
    None
}

/// Whether any shift of `v`, other than the excluded one, intersects
/// `time`.
fn shifts_overlap_exec(v: &Vec<Shift>, time: &TimeInterval, exclude: Option<ShiftId>) -> (r: bool)
    ensures
        r == shifts_overlap(v@, *time, exclude),
{
    let n = v.len();
    let mut i: usize = 0;
    while i < n
        invariant
            0 <= i <= n,
            n == v@.len(),
            forall|j: int|
                0 <= j < i ==> !((match exclude {
                    Some(x) => (#[trigger] v@[j]).id != x,
                    None => true,
                }) && intervals_overlap(v@[j].time, *time)),
        decreases n - i,
    {
        let excluded = match exclude {
            Some(x) => v[i].id.0 == x.0,
            None => false,
        };
        if !excluded && v[i].time.overlaps(time) {
            proof {
                assert((match exclude {
                    Some(x) => v@[i as int].id != x,
                    None => true,
                }) && intervals_overlap(v@[i as int].time, *time));
            }
            return true;
        }
        i = i + 1;
    }
    false
}

/// Whether any id of `ids` names a shift of `v`.
fn any_shift_listed_exec(v: &Vec<Shift>, ids: &Vec<ShiftId>) -> (r: bool)
    ensures
        r == any_shift_listed(v@, ids@),
{
    let n = v.len();
    let mut i: usize = 0;
    while i < n
        invariant
            0 <= i <= n,
            n == v@.len(),
            forall|j: int| 0 <= j < i ==> !ids@.contains((#[trigger] v@[j]).id),
        decreases n - i,
    {
        if shift_ids_contains(ids, v[i].id) {
            return true;
        }
        i = i + 1;
    }
    false
}

/// Whether `ids` holds `id`.
fn shift_ids_contains(ids: &Vec<ShiftId>, id: ShiftId) -> (r: bool)
    ensures
        r == ids@.contains(id),
{
    let n = ids.len();
    let mut i: usize = 0;
    while i < n
        invariant
            0 <= i <= n,
            n == ids@.len(),
            forall|j: int| 0 <= j < i ==> ids@[j] != id,
        decreases n - i,
    {
        if ids[i].0 == id.0 {
            proof {
                assert(ids@[i as int] == id);
            }
            return true;
        }
        i = i + 1;
    }
    false
}

/// `v` without the shifts whose id is listed.
fn remove_shifts_exec(v: &Vec<Shift>, ids: &Vec<ShiftId>) -> (r: Vec<Shift>)
    ensures
        r@ == remove_shifts(v@, ids@),
{
    let mut r: Vec<Shift> = Vec::new();
    let n = v.len();
    let mut i: usize = 0;
    while i < n
        invariant
            0 <= i <= n,
            n == v@.len(),
            r@ == remove_shifts(v@.subrange(0, i as int), ids@),
        decreases n - i,
    {
        let ghost prefix = v@.subrange(0, i as int);
        let ghost prefix2 = v@.subrange(0, i as int + 1);
        proof {
            assert(prefix2.drop_last() =~= prefix);
        }
        if !shift_ids_contains(ids, v[i].id) {
            r.push(v[i]);
        }
        i = i + 1;
    }
    proof {
        assert(v@.subrange(0, n as int) =~= v@);
    }
    r
}

/// The schedule of one prostitute.
#[derive(Debug)]
pub struct Schedule {
    pub id: ScheduleId,
    pub prostitute_id: ProstituteId,
    pub shifts: Vec<Shift>,
    pub events: EventQueue<ScheduleEvent>,
}

impl Schedule {
    /// The abstract state: the fields without the event queue.
    pub open spec fn state(&self) -> ScheduleState {
        ScheduleState { id: self.id, prostitute_id: self.prostitute_id, shifts: self.shifts@ }
    }

    /// Opens an empty schedule for a prostitute, with the creation event
    /// queued.
    pub fn create(id: ScheduleId, prostitute_id: ProstituteId) -> (r: Self)
        ensures
            r.state() == (ScheduleState { id, prostitute_id, shifts: Seq::empty() }),
            r.events@ =~= seq![ScheduleEvent::ScheduleCreated { id, prostitute_id }],
    {
        let mut entity = Schedule {
            id,
            prostitute_id,
            shifts: Vec::new(),
            events: EventQueue::new(),
        };
        entity.events.push(ScheduleEvent::ScheduleCreated { id, prostitute_id });
        proof {
            assert(entity.state().shifts =~= Seq::<Shift>::empty());
        }
        entity
    }

    /// The aggregate's id.
    pub fn id(&self) -> (r: ScheduleId)
        ensures
            r == self.id,
    {
        self.id
    }

    /// The prostitute this schedule belongs to.
    pub fn prostitute_id(&self) -> (r: ProstituteId)
        ensures
            r == self.prostitute_id,
    {
        self.prostitute_id
    }

    /// The first shift with the given id, if any.
    pub fn shift(&self, shift_id: &ShiftId) -> (r: Option<Shift>)
        ensures
            r == find_shift(self.shifts@, *shift_id),
    {
        find_shift_exec(&self.shifts, *shift_id)
    }

    /// Adds a shift. The shift's id must be new and its interval must not
    /// intersect any existing shift's; the matching event is queued.
    pub fn add_shift(&mut self, shift: Shift) -> (r: Result<(), ScheduleError>)
        ensures
            match r {
                Ok(()) => schedule_validate(
                    old(self).state(),
                    ScheduleEvent::ShiftAdded { id: old(self).id, shift },
                ) is Ok && final(self).state() == schedule_step(
                    old(self).state(),
                    ScheduleEvent::ShiftAdded { id: old(self).id, shift },
                ) && final(self).events@ == old(self).events@.push(
                    ScheduleEvent::ShiftAdded { id: old(self).id, shift },
                ),
                Err(e) => schedule_validate(
                    old(self).state(),
                    ScheduleEvent::ShiftAdded { id: old(self).id, shift },
                ) == Err::<(), ScheduleError>(e) && *final(self) == *old(self),
            },
    {
        if find_shift_exec(&self.shifts, shift.id).is_some() {
            return Err(ScheduleError::DuplicateShift);
        }
        if shifts_overlap_exec(&self.shifts, &shift.time, None) {
            return Err(ScheduleError::OverlappingShift);
        }
        self.shifts.push(shift);
        let id = self.id;
        self.events.push(ScheduleEvent::ShiftAdded { id, shift });
        Ok(())
    }

    /// Moves a shift to a new interval. The shift must exist, the interval
    /// must not intersect any other shift's, and it must not end before it
    /// starts; the matching event is queued.
    pub fn change_shift_time(&mut self, shift_id: ShiftId, time: TimeInterval) -> (r: Result<
        (),
        ScheduleError,
    >)
        ensures
            match r {
                Ok(()) => schedule_validate(
                    old(self).state(),
                    ScheduleEvent::ShiftTimeChanged { shift_id, time },
                ) is Ok && final(self).state() == schedule_step(
                    old(self).state(),
                    ScheduleEvent::ShiftTimeChanged { shift_id, time },
                ) && final(self).events@ == old(self).events@.push(
                    ScheduleEvent::ShiftTimeChanged { shift_id, time },
                ),
                Err(e) => schedule_validate(
                    old(self).state(),
                    ScheduleEvent::ShiftTimeChanged { shift_id, time },
                ) == Err::<(), ScheduleError>(e) && *final(self) == *old(self),
            },
    {
        if find_shift_exec(&self.shifts, shift_id).is_none() {
            return Err(ScheduleError::ShiftNotFound);
        }
        if shifts_overlap_exec(&self.shifts, &time, Some(shift_id)) {
            return Err(ScheduleError::OverlappingShift);
        }
        if time.start.millis > time.end.millis {
            return Err(ScheduleError::ShiftError(ShiftError::InvalidDuration));
        }
        self.shifts = set_shift_time_exec(&self.shifts, shift_id, time);
        self.events.push(ScheduleEvent::ShiftTimeChanged { shift_id, time });
        Ok(())
    }

    /// Moves a shift to a new status. The shift must exist and the
    /// transition table must allow the change; the matching event is
    /// queued.
    pub fn change_shift_status(&mut self, shift_id: ShiftId, status: ShiftStatus) -> (r: Result<
        (),
        ScheduleError,
    >)
        ensures
            match r {
                Ok(()) => schedule_validate(
                    old(self).state(),
                    ScheduleEvent::ShiftStatusChanged { shift_id, status },
                ) is Ok && final(self).state() == schedule_step(
                    old(self).state(),
                    ScheduleEvent::ShiftStatusChanged { shift_id, status },
                ) && final(self).events@ == old(self).events@.push(
                    ScheduleEvent::ShiftStatusChanged { shift_id, status },
                ),
                Err(e) => schedule_validate(
                    old(self).state(),
                    ScheduleEvent::ShiftStatusChanged { shift_id, status },
                ) == Err::<(), ScheduleError>(e) && *final(self) == *old(self),
            },
    {
        let found = match find_shift_exec(&self.shifts, shift_id) {
            Some(sh) => sh,
            None => {
                return Err(ScheduleError::ShiftNotFound);
            },
        };
        let mut probe = found;
        if probe.change_status(status).is_err() {
            return Err(ScheduleError::ShiftError(ShiftError::InvalidStatusTransition));
        }
        self.shifts = set_shift_status_exec(&self.shifts, shift_id, status);
        self.events.push(ScheduleEvent::ShiftStatusChanged { shift_id, status });
        Ok(())
    }

    /// Removes the listed shifts; at least one listed id must name an
    /// existing shift. The matching event is queued.
    pub fn delete_shifts(&mut self, shift_ids: Vec<ShiftId>) -> (r: Result<(), ScheduleError>)
        ensures
            match r {
                Ok(()) => schedule_validate(
                    old(self).state(),
                    ScheduleEvent::ShiftsDeleted { shift_ids },
                ) is Ok && final(self).state() == schedule_step(
                    old(self).state(),
                    ScheduleEvent::ShiftsDeleted { shift_ids },
                ) && final(self).events@ == old(self).events@.push(
                    ScheduleEvent::ShiftsDeleted { shift_ids },
                ),
                Err(e) => schedule_validate(
                    old(self).state(),
                    ScheduleEvent::ShiftsDeleted { shift_ids },
                ) == Err::<(), ScheduleError>(e) && *final(self) == *old(self),
            },
    {
        if !any_shift_listed_exec(&self.shifts, &shift_ids) {
            return Err(ScheduleError::ShiftNotFound);
        }
        self.shifts = remove_shifts_exec(&self.shifts, &shift_ids);
        self.events.push(ScheduleEvent::ShiftsDeleted { shift_ids });
        Ok(())
    }

    /// Decides whether `event` may be applied to the current state;
    /// commands call this before `apply`.
    pub fn validate(&self, event: &ScheduleEvent) -> (r: Result<(), ScheduleError>)
        ensures
            r == schedule_validate(self.state(), *event),
    {
        match event {
            ScheduleEvent::ScheduleCreated { .. } => Ok(()),
            ScheduleEvent::ScheduleDeleted { id } => {
                if id.0 != self.id.0 {
                    Err(ScheduleError::MismatchedId)
                } else {
                    Ok(())
                }
            },
            ScheduleEvent::ShiftAdded { id, shift } => {
                if id.0 != self.id.0 {
                    Err(ScheduleError::MismatchedId)
                } else if find_shift_exec(&self.shifts, shift.id).is_some() {
                    Err(ScheduleError::DuplicateShift)
                } else if shifts_overlap_exec(&self.shifts, &shift.time, None) {
                    Err(ScheduleError::OverlappingShift)
                } else {
                    Ok(())
                }
            },
            ScheduleEvent::ShiftTimeChanged { shift_id, time } => {
                if find_shift_exec(&self.shifts, *shift_id).is_none() {
                    Err(ScheduleError::ShiftNotFound)
                } else if shifts_overlap_exec(&self.shifts, time, Some(*shift_id)) {
                    Err(ScheduleError::OverlappingShift)
                } else if time.start.millis > time.end.millis {
                    Err(ScheduleError::ShiftError(ShiftError::InvalidDuration))
                } else {
                    Ok(())
                }
            },
            ScheduleEvent::ShiftStatusChanged { shift_id, status } => {
                match find_shift_exec(&self.shifts, *shift_id) {
                    None => Err(ScheduleError::ShiftNotFound),
                    Some(sh) => {
                        let mut probe = sh;
                        if probe.change_status(*status).is_err() {
                            Err(ScheduleError::ShiftError(ShiftError::InvalidStatusTransition))
                        } else {
                            Ok(())
                        }
                    },
                }
            },
            ScheduleEvent::ShiftsDeleted { shift_ids } => {
                if any_shift_listed_exec(&self.shifts, shift_ids) {
                    Ok(())
                } else {
                    Err(ScheduleError::ShiftNotFound)
                }
            },
        }
    }

    /// Applies `event` to the state and appends it to the queue. Total and
    /// validation-free: the command path validates first, and replay trusts
    /// stored events.
    pub fn apply(&mut self, event: ScheduleEvent)
        ensures
            final(self).state() == schedule_step(old(self).state(), event),
            final(self).events@ == old(self).events@.push(event),
    {
        match &event {
            ScheduleEvent::ScheduleCreated { id, prostitute_id } => {
                self.id = *id;
                self.prostitute_id = *prostitute_id;
                self.shifts = Vec::new();
                proof {
                    assert(self.shifts@ =~= Seq::<Shift>::empty());
                }
            },
            ScheduleEvent::ScheduleDeleted { .. } => {},
            ScheduleEvent::ShiftAdded { shift, .. } => {
                self.shifts.push(*shift);
            },
            ScheduleEvent::ShiftTimeChanged { shift_id, time } => {
                if time.start.millis <= time.end.millis {
                    self.shifts = set_shift_time_exec(&self.shifts, *shift_id, *time);
                }
            },
            ScheduleEvent::ShiftStatusChanged { shift_id, status } => {
                self.shifts = set_shift_status_exec(&self.shifts, *shift_id, *status);
            },
            ScheduleEvent::ShiftsDeleted { shift_ids } => {
                self.shifts = remove_shifts_exec(&self.shifts, shift_ids);
            },
        }
        self.events.push(event);
    }

    /// Reconstitutes an aggregate from its stored stream; `None` exactly
    /// when the stream is empty.
    pub fn replay(events: Vec<ScheduleEvent>) -> (r: Option<Self>)
        ensures
            match r {
                Some(a) => events@.len() > 0 && a.state() == schedule_replay(
                    schedule_default_state(),
                    events@,
                ) && a.events@.len() == 0,
                None => events@.len() == 0,
            },
    {
        if events.len() == 0 {
            return None;
        }
        let ghost all = events@;
        let mut events = events;
        let mut entity = Schedule::default();
        while events.len() > 0
            invariant
                schedule_replay(schedule_default_state(), all) == schedule_replay(
                    entity.state(),
                    events@,
                ),
            decreases events@.len(),
        {
            let ghost before = events@;
            let event = events.remove(0);
            proof {
                assert(events@ =~= before.drop_first());
            }
            entity.apply(event);
        }
        entity.events.clear();
        Some(entity)
    }
}

/// `v` with the interval of every shift with id `sid` replaced by `time`.
fn set_shift_time_exec(v: &Vec<Shift>, sid: ShiftId, time: TimeInterval) -> (r: Vec<Shift>)
    ensures
        r@ == Seq::new(
            v@.len(),
            |i: int|
                if v@[i].id == sid {
                    Shift { time, ..v@[i] }
                } else {
                    v@[i]
                },
        ),
{
    let mut r: Vec<Shift> = Vec::new();
    let n = v.len();
    let mut i: usize = 0;
    while i < n
        invariant
            0 <= i <= n,
            n == v@.len(),
            r@.len() == i,
            forall|j: int|
                0 <= j < i ==> r@[j] == (if (#[trigger] v@[j]).id == sid {
                    Shift { time, ..v@[j] }
                } else {
                    v@[j]
                }),
        decreases n - i,
    {
        let x = v[i];
        let y = if x.id.0 == sid.0 {
            Shift { time, ..x }
        } else {
            x
        };
        r.push(y);
        i = i + 1;
    }
    proof {
        assert(r@ =~= Seq::new(
            v@.len(),
            |i: int|
                if v@[i].id == sid {
                    Shift { time, ..v@[i] }
                } else {
                    v@[i]
                },
        ));
    }
    r
}

/// `v` with the status of every shift with id `sid` replaced by `status`,
/// where the transition table allows it.
fn set_shift_status_exec(v: &Vec<Shift>, sid: ShiftId, status: ShiftStatus) -> (r: Vec<Shift>)
    ensures
        r@ == Seq::new(
            v@.len(),
            |i: int|
                if v@[i].id == sid && shift_transition_allowed(v@[i].status, status) {
                    Shift { status, ..v@[i] }
                } else {
                    v@[i]
                },
        ),
{
    let mut r: Vec<Shift> = Vec::new();
    let n = v.len();
    let mut i: usize = 0;
    while i < n
        invariant
            0 <= i <= n,
            n == v@.len(),
            r@.len() == i,
            forall|j: int|
                0 <= j < i ==> r@[j] == (if (#[trigger] v@[j]).id == sid && shift_transition_allowed(
                    v@[j].status,
                    status,
                ) {
                    Shift { status, ..v@[j] }
                } else {
                    v@[j]
                }),
        decreases n - i,
    {
        let x = v[i];
        let mut probe = x;
        let allowed = probe.change_status(status).is_ok();
        let y = if x.id.0 == sid.0 && allowed {
            Shift { status, ..x }
        } else {
            x
        };
        r.push(y);
        i = i + 1;
    }
    proof {
        assert(r@ =~= Seq::new(
            v@.len(),
            |i: int|
                if v@[i].id == sid && shift_transition_allowed(v@[i].status, status) {
                    Shift { status, ..v@[i] }
                } else {
                    v@[i]
                },
        ));
    }
    r
}

impl Default for Schedule {
    /// A blank schedule, the starting point of replay.
    fn default() -> (r: Self)
        ensures
            r.state() == schedule_default_state(),
            r.events@.len() == 0,
    {
        let r = Schedule {
            id: ScheduleId(0),
            prostitute_id: ProstituteId(0),
            shifts: Vec::new(),
            events: EventQueue::new(),
        };
        proof {
            assert(r.state().shifts =~= Seq::<Shift>::empty());
        }
        r
    }
}


} // verus!
