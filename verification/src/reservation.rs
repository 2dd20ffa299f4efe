//! The reservation aggregate: one booking of one or more prostitutes over a
//! time interval, by a known customer, with priced detail lines.
//!
//! A reservation names at least one prostitute, runs over a non-empty
//! interval, is never anonymous, and no detail id occurs twice.

use vstd::prelude::*;
use crate::customer::CustomerId;
use crate::money::Price;
use crate::prostitute::ProstituteId;
use crate::queue::EventQueue;
use crate::time::TimeInterval;

verus! {

/// Identifier of a reservation.
#[derive(Clone, Copy, Debug, PartialEq, Eq, Hash, Structural)]
pub struct ReservationId(pub u64);

impl Default for ReservationId {
    /// The zero id, used only by default-constructed aggregates.
    fn default() -> (r: Self)
        ensures
            r == ReservationId(0),
    {
        ReservationId(0)
    }
}

/// Who booked the reservation.
#[derive(Debug, PartialEq, Eq)]
pub enum ReservationCustomer {
    /// Nobody named; rejected by validation.
    Anonymous,
    /// A registered customer.
    Registered { id: CustomerId },
    /// A walk-in, named with a phone number.
    Unregistered { name: String, phone: String },
}

impl ReservationCustomer {
    /// A copy holding the same data.
    pub fn duplicate(&self) -> (r: ReservationCustomer)
        ensures
            r == *self,
    {
        match self {
            ReservationCustomer::Anonymous => ReservationCustomer::Anonymous,
            ReservationCustomer::Registered { id } => ReservationCustomer::Registered { id: *id },
            ReservationCustomer::Unregistered { name, phone } => ReservationCustomer::Unregistered {
                name: name.clone(),
                phone: phone.clone(),
            },
        }
    }
}

impl Default for ReservationCustomer {
    /// Anonymous, before any event.
    fn default() -> (r: ReservationCustomer)
        ensures
            r == ReservationCustomer::Anonymous,
    {
        ReservationCustomer::Anonymous
    }
}

/// Identifier of one detail line.
#[derive(Clone, Copy, Debug, PartialEq, Eq, Hash, Structural)]
pub struct ReservationDetailId(pub u64);

impl Default for ReservationDetailId {
    /// The zero id.
    fn default() -> (r: Self)
        ensures
            r == ReservationDetailId(0),
    {
        ReservationDetailId(0)
    }
}

/// Validation failures of a detail line.
#[derive(Clone, Copy, Debug, PartialEq, Eq, Structural)]
pub enum ReservationDetailError {
    /// The line has no name.
    NameRequired,
    /// The quantity is zero.
    InvalidQuantity,
}

/// One priced line of a reservation.
#[derive(Debug, PartialEq, Eq)]
pub struct ReservationDetail {
    pub id: ReservationDetailId,
    pub name: String,
    pub quantity: u32,
    pub price: Price,
}

impl ReservationDetail {
    /// A detail line with a non-empty name and a positive quantity.
    pub fn create(id: ReservationDetailId, name: String, quantity: u32, price: Price) -> (r:
        Result<ReservationDetail, ReservationDetailError>)
        ensures
            match r {
                Ok(d) => name@.len() > 0 && quantity >= 1 && d.id == id && d.name == name
                    && d.quantity == quantity && d.price == price,
                Err(e) => (e == ReservationDetailError::NameRequired && name@.len() == 0) || (e
                    == ReservationDetailError::InvalidQuantity && name@.len() > 0 && quantity < 1),
            },
    {
        if name.as_str().unicode_len() == 0 {
            return Err(ReservationDetailError::NameRequired);
        }
        if quantity < 1 {
            return Err(ReservationDetailError::InvalidQuantity);
        }
        Ok(ReservationDetail { id, name, quantity, price })
    }

    /// The line's id.
    pub fn id(&self) -> (r: ReservationDetailId)
        ensures
            r == self.id,
    {
        self.id
    }

    /// The line's name.
    pub fn name(&self) -> (r: &String)
        ensures
            r == &self.name,
    {
        &self.name
    }

    /// The line's price.
    pub fn price(&self) -> (r: &Price)
        ensures
            r == &self.price,
    {
        &self.price
    }

    /// A copy holding the same data.
    pub fn duplicate(&self) -> (r: ReservationDetail)
        ensures
            r == *self,
    {
        ReservationDetail {
            id: self.id,
            name: self.name.clone(),
            quantity: self.quantity,
            price: self.price,
        }
    }
}

/// A copy of a detail list, holding the same lines.
pub fn clone_details(v: &Vec<ReservationDetail>) -> (r: Vec<ReservationDetail>)
    ensures
        r@ == v@,
{
    let mut r: Vec<ReservationDetail> = Vec::new();
    let n = v.len();
    let mut i: usize = 0;
    while i < n
        invariant
            0 <= i <= n,
            n == v@.len(),
            r@ =~= v@.subrange(0, i as int),
        decreases n - i,
    {
        r.push(v[i].duplicate());
        i = i + 1;
    }
    proof {
        assert(r@ =~= v@);
    }
    r
}

/// Events of the reservation aggregate.
#[derive(Debug, PartialEq, Eq)]
pub enum ReservationEvent {
    /// The booking was made. Establishes the aggregate's identity.
    ReservationCreated {
        id: ReservationId,
        prostitute_ids: Vec<ProstituteId>,
        time: TimeInterval,
        customer: ReservationCustomer,
    },
    /// One detail line was added.
    ReservationDetailAdded { id: ReservationId, detail: ReservationDetail },
    /// One detail line was removed.
    ReservationDetailDeleted { id: ReservationId, detail_id: ReservationDetailId },
    /// The booking was removed; emitted as a tombstone before stream
    /// deletion.
    ReservationDeleted { id: ReservationId },
}

/// Validation failures of reservation commands.
#[derive(Clone, Copy, Debug, PartialEq, Eq, Structural)]
pub enum ReservationError {
    /// The event names another aggregate.
    MismatchedId,
    /// No prostitute was named.
    NoProstitutes,
    /// The interval does not start before it ends.
    InvalidTime,
    /// Anonymous bookings are not taken.
    AnonymousNotAllowed,
    /// A walk-in needs a name.
    UnregisteredCustomerNameRequired,
    /// A walk-in needs a phone number.
    UnregisteredCustomerPhoneRequired,
    /// A detail line with that id already exists.
    DuplicateDetail,
    /// No detail line with that id.
    DetailNotFound,
    /// A single detail line failed validation.
    ReservationDetailError(ReservationDetailError),
}

/// The booking customer is acceptable: registered, or a walk-in with name
/// and phone.
pub open spec fn customer_ok(c: ReservationCustomer) -> Result<(), ReservationError> {
    match c {
        ReservationCustomer::Anonymous => Err(ReservationError::AnonymousNotAllowed),
        ReservationCustomer::Registered { .. } => Ok(()),
        ReservationCustomer::Unregistered { name, phone } => {
            if name@.len() == 0 {
                Err(ReservationError::UnregisteredCustomerNameRequired)
            } else if phone@.len() == 0 {
                Err(ReservationError::UnregisteredCustomerPhoneRequired)
            } else {
                Ok(())
            }
        },
    }
}

/// Some detail line has id `did`.
pub open spec fn details_has_id(details: Seq<ReservationDetail>, did: ReservationDetailId) -> bool {
    exists|i: int| 0 <= i < details.len() && (#[trigger] details[i]).id == did
}

/// `details` without the lines with id `did`.
pub open spec fn remove_detail(
    details: Seq<ReservationDetail>,
    did: ReservationDetailId,
) -> Seq<ReservationDetail>
    decreases details.len(),
{
    if details.len() == 0 {
        Seq::empty()
    } else {
        let rest = remove_detail(details.drop_last(), did);
        if details.last().id == did {
            rest
        } else {
            rest.push(details.last())
        }
    }
}

/// The state of a reservation aggregate, event queue left out.
pub struct ReservationState {
    pub id: ReservationId,
    pub prostitute_ids: Seq<ProstituteId>,
    pub time: TimeInterval,
    pub customer: ReservationCustomer,
    pub details: Seq<ReservationDetail>,
}

/// The state of a default-constructed aggregate, before any event.
pub open spec fn reservation_default_state() -> ReservationState {
    ReservationState {
        id: ReservationId(0),
        prostitute_ids: Seq::empty(),
        time: TimeInterval {
            start: crate::time::Timestamp { millis: 0 },
            end: crate::time::Timestamp { millis: 0 },
        },
        customer: ReservationCustomer::Anonymous,
        details: Seq::empty(),
    }
}

/// What `validate` decides for each event.
pub open spec fn reservation_validate(s: ReservationState, e: ReservationEvent) -> Result<
    (),
    ReservationError,
> {
    match e {
        ReservationEvent::ReservationCreated { prostitute_ids, time, customer, .. } => {
            if prostitute_ids@.len() == 0 {
                Err(ReservationError::NoProstitutes)
            } else if time.start.millis >= time.end.millis {
                Err(ReservationError::InvalidTime)
            } else {
                customer_ok(customer)
            }
        },
        ReservationEvent::ReservationDetailAdded { id, detail } => {
            if id != s.id {
                Err(ReservationError::MismatchedId)
            } else if details_has_id(s.details, detail.id) {
                Err(ReservationError::DuplicateDetail)
            } else {
                Ok(())
            }
        },
        ReservationEvent::ReservationDetailDeleted { id, detail_id } => {
            if id != s.id {
                Err(ReservationError::MismatchedId)
            } else if !details_has_id(s.details, detail_id) {
                Err(ReservationError::DetailNotFound)
            } else {
                Ok(())
            }
        },
        ReservationEvent::ReservationDeleted { id } => {
            if id != s.id {
                Err(ReservationError::MismatchedId)
            } else {
                Ok(())
            }
        },
    }
}

/// What `apply` does to the state. Total.
pub open spec fn reservation_step(s: ReservationState, e: ReservationEvent) -> ReservationState {
    match e {
        ReservationEvent::ReservationCreated { id, prostitute_ids, time, customer } => {
            ReservationState {
                id,
                prostitute_ids: prostitute_ids@,
                time,
                customer,
                details: Seq::empty(),
            }
        },
        ReservationEvent::ReservationDetailAdded { detail, .. } => ReservationState {
            details: s.details.push(detail),
            ..s
        },
        ReservationEvent::ReservationDetailDeleted { detail_id, .. } => ReservationState {
            details: remove_detail(s.details, detail_id),
            ..s
        },
        ReservationEvent::ReservationDeleted { .. } => s,
    }
}

/// The state reached by applying `es` in order, oldest first, to `s`.
pub open spec fn reservation_replay(
    s: ReservationState,
    es: Seq<ReservationEvent>,
) -> ReservationState
    decreases es.len(),
{
    if es.len() == 0 {
        s
    } else {
        reservation_replay(reservation_step(s, es[0]), es.drop_first())
    }
}

/// A run of successful commands from `s0` to `sn`.
pub open spec fn reservation_trace(
    s0: ReservationState,
    es: Seq<ReservationEvent>,
    sn: ReservationState,
) -> bool
    decreases es.len(),
{
    if es.len() == 0 {
        sn == s0
    } else {
        reservation_validate(s0, es[0]) is Ok && reservation_trace(
            reservation_step(s0, es[0]),
            es.drop_first(),
            sn,
        )
    }
}

/// Replay fidelity: a fresh aggregate fed the events a run of successful
/// commands emitted, oldest first, reaches the state those commands built.
pub proof fn lemma_replay_fidelity(
    s0: ReservationState,
    es: Seq<ReservationEvent>,
    sn: ReservationState,
)
    requires
        reservation_trace(s0, es, sn),
    ensures
        sn == reservation_replay(s0, es),
    decreases es.len(),
{
    if es.len() > 0 {
        lemma_replay_fidelity(reservation_step(s0, es[0]), es.drop_first(), sn);
    }
}

/// The aggregate's invariant: once created, at least one prostitute is
/// named, the interval starts before it ends, the customer is acceptable,
/// and no detail id occurs twice.
pub open spec fn reservation_inv(s: ReservationState) -> bool {
    s.id != ReservationId(0) ==> s.prostitute_ids.len() > 0 && s.time.start.millis
        < s.time.end.millis && customer_ok(s.customer) is Ok && (forall|i: int, j: int|
        #![trigger s.details[i], s.details[j]]
        0 <= i < j < s.details.len() ==> s.details[i].id != s.details[j].id)
}

/// Removing one id's lines keeps the remaining ids distinct.
proof fn lemma_remove_detail_distinct(details: Seq<ReservationDetail>, did: ReservationDetailId)
    requires
        forall|i: int, j: int|
            #![trigger details[i], details[j]]
            0 <= i < j < details.len() ==> details[i].id != details[j].id,
    ensures
        forall|i: int, j: int|
            #![trigger remove_detail(details, did)[i], remove_detail(details, did)[j]]
            0 <= i < j < remove_detail(details, did).len() ==> remove_detail(details, did)[i].id
                != remove_detail(details, did)[j].id,
        forall|m: ReservationDetail| remove_detail(details, did).contains(m) ==> details.contains(
            m,
        ),
    decreases details.len(),
{
    if details.len() > 0 {
        let head = details.drop_last();
        assert forall|i: int, j: int|
            #![trigger head[i], head[j]]
            0 <= i < j < head.len() implies head[i].id != head[j].id by {
            assert(head[i] == details[i]);
            assert(head[j] == details[j]);
        }
        lemma_remove_detail_distinct(head, did);
        let rest = remove_detail(head, did);
        assert forall|m: ReservationDetail| rest.contains(m) implies details.contains(m) by {
            assert(head.contains(m));
            let k = choose|k: int| 0 <= k < head.len() && head[k] == m;
            assert(details[k] == m);
        }
        if details.last().id != did {
            let out = rest.push(details.last());
            assert forall|m: ReservationDetail| out.contains(m) implies details.contains(m) by {
                let k = choose|k: int| 0 <= k < out.len() && out[k] == m;
                if k < rest.len() {
                    assert(rest.contains(m));
                } else {
                    assert(details[details.len() - 1] == m);
                }
            }
            assert forall|i: int, j: int|
                #![trigger out[i], out[j]]
                0 <= i < j < out.len() implies out[i].id != out[j].id by {
                if j == rest.len() {
                    assert(out[i] == rest[i]);
                    assert(rest.contains(rest[i]));
                    assert(head.contains(rest[i]));
                    let k = choose|k: int| 0 <= k < head.len() && head[k] == rest[i];
                    assert(details[k] == rest[i]);
                    assert(details[k].id != details[details.len() - 1].id);
                } else {
                    assert(out[i] == rest[i]);
                    assert(out[j] == rest[j]);
                }
            }
        }
    }
}

/// Validated events keep the invariant.
pub proof fn lemma_validate_preserves_inv(s: ReservationState, e: ReservationEvent)
    requires
        reservation_inv(s),
        reservation_validate(s, e) is Ok,
    ensures
        reservation_inv(reservation_step(s, e)),
{
    let s2 = reservation_step(s, e);
    match e {
        ReservationEvent::ReservationDetailAdded { detail, .. } => {
            if s2.id != ReservationId(0) {
                assert forall|i: int, j: int|
                    #![trigger s2.details[i], s2.details[j]]
                    0 <= i < j < s2.details.len() implies s2.details[i].id != s2.details[j].id by {
                    if j == s.details.len() {
                        assert(s2.details[i] == s.details[i]);
                        assert(s2.details[j] == detail);
                        if s.details[i].id == detail.id {
                            assert(details_has_id(s.details, detail.id));
                            assert(false);
                        }
                    } else {
                        assert(s2.details[i] == s.details[i]);
                        assert(s2.details[j] == s.details[j]);
                    }
                }
            }
        },
        ReservationEvent::ReservationDetailDeleted { detail_id, .. } => {
            if s2.id != ReservationId(0) {
                lemma_remove_detail_distinct(s.details, detail_id);
            }
        },
        _ => {},
    }
}

/// Every state a run of successful commands reaches satisfies the
/// invariant.
pub proof fn lemma_trace_preserves_inv(s0: ReservationState, es: Seq<ReservationEvent>, sn: ReservationState)
    requires
        reservation_inv(s0),
        reservation_trace(s0, es, sn),
    ensures
        reservation_inv(sn),
    decreases es.len(),
{
    if es.len() > 0 {
        lemma_validate_preserves_inv(s0, es[0]);
        lemma_trace_preserves_inv(reservation_step(s0, es[0]), es.drop_first(), sn);
    }
}

/// Id coherence: a non-creation event whose id differs from the state's is
/// rejected with `MismatchedId`.
pub proof fn lemma_id_coherence(s: ReservationState, e: ReservationEvent)
    requires
        !(e is ReservationCreated),
        match e {
            ReservationEvent::ReservationDetailAdded { id, .. } => id != s.id,
            ReservationEvent::ReservationDetailDeleted { id, .. } => id != s.id,
            ReservationEvent::ReservationDeleted { id } => id != s.id,
            _ => false,
        },
    ensures
        reservation_validate(s, e) == Err::<(), ReservationError>(ReservationError::MismatchedId),
{
}

/// A booking.
#[derive(Debug)]
pub struct Reservation {
    pub id: ReservationId,
    pub prostitute_ids: Vec<ProstituteId>,
    pub time: TimeInterval,
    pub customer: ReservationCustomer,
    pub details: Vec<ReservationDetail>,
    pub events: EventQueue<ReservationEvent>,
}

impl Reservation {
    /// The abstract state: the fields without the event queue.
    pub open spec fn state(&self) -> ReservationState {
        ReservationState {
            id: self.id,
            prostitute_ids: self.prostitute_ids@,
            time: self.time,
            customer: self.customer,
            details: self.details@,
        }
    }

    /// Books a reservation. At least one prostitute must be named, the
    /// interval must start before it ends, and the customer must be
    /// acceptable; on success the creation event is queued.
    pub fn create(
        id: ReservationId,
        prostitute_ids: Vec<ProstituteId>,
        time: TimeInterval,
        customer: ReservationCustomer,
    ) -> (r: Result<Self, ReservationError>)
        ensures
            ({
                let e = ReservationEvent::ReservationCreated { id, prostitute_ids, time, customer };
                match r {
                    Ok(a) => reservation_validate(reservation_default_state(), e) is Ok && a.state()
                        == reservation_step(reservation_default_state(), e) && a.events@ =~= seq![e],
                    Err(err) => reservation_validate(reservation_default_state(), e) == Err::<
                        (),
                        ReservationError,
                    >(err),
                }
            }),
    {
        if prostitute_ids.len() == 0 {
            return Err(ReservationError::NoProstitutes);
        }
        if time.start.millis >= time.end.millis {
            return Err(ReservationError::InvalidTime);
        }
        match &customer {
            ReservationCustomer::Anonymous => {
                return Err(ReservationError::AnonymousNotAllowed);
            },
            ReservationCustomer::Registered { .. } => {},
            ReservationCustomer::Unregistered { name, phone } => {
                if name.as_str().unicode_len() == 0 {
                    return Err(ReservationError::UnregisteredCustomerNameRequired);
                }
                if phone.as_str().unicode_len() == 0 {
                    return Err(ReservationError::UnregisteredCustomerPhoneRequired);
                }
            },
        }
        let mut entity = Reservation {
            id,
            prostitute_ids: crate::queue::clone_vec(&prostitute_ids),
            time,
            customer: customer.duplicate(),
            details: Vec::new(),
            events: EventQueue::new(),
        };
        entity.events.push(
            ReservationEvent::ReservationCreated { id, prostitute_ids, time, customer },
        );
        proof {
            assert(entity.state().details =~= Seq::<ReservationDetail>::empty());
        }
        Ok(entity)
    }

    /// The aggregate's id.
    pub fn id(&self) -> (r: ReservationId)
        ensures
            r == self.id,
    {
        self.id
    }

    /// The booked prostitutes.
    pub fn prostitute_ids(&self) -> (r: &Vec<ProstituteId>)
        ensures
            r == &self.prostitute_ids,
    {
        &self.prostitute_ids
    }

    /// The booked interval.
    pub fn time(&self) -> (r: &TimeInterval)
        ensures
            r == &self.time,
    {
        &self.time
    }

    /// The booking customer.
    pub fn customer(&self) -> (r: &ReservationCustomer)
        ensures
            r == &self.customer,
    {
        &self.customer
    }

    /// The detail lines.
    pub fn details(&self) -> (r: &Vec<ReservationDetail>)
        ensures
            r == &self.details,
    {
        &self.details
    }

    /// Adds a detail line; its id must be new. The matching event is
    /// queued.
    pub fn add_detail(&mut self, detail: ReservationDetail) -> (r: Result<(), ReservationError>)
        ensures
            match r {
                Ok(()) => !details_has_id(old(self).details@, detail.id) && final(self).state()
                    == (ReservationState {
                    details: old(self).state().details.push(detail),
                    ..old(self).state()
                }) && final(self).events@ == old(self).events@.push(
                    ReservationEvent::ReservationDetailAdded { id: old(self).id, detail },
                ),
                Err(e) => e == ReservationError::DuplicateDetail && details_has_id(
                    old(self).details@,
                    detail.id,
                ) && *final(self) == *old(self),
            },
    {
        if details_has_id_exec(&self.details, detail.id) {
            return Err(ReservationError::DuplicateDetail);
        }
        self.details.push(detail.duplicate());
        let id = self.id;
        self.events.push(ReservationEvent::ReservationDetailAdded { id, detail });
        Ok(())
    }

    /// Removes the detail lines with the given id; one must exist. The
    /// matching event is queued.
    pub fn delete_detail(&mut self, detail_id: ReservationDetailId) -> (r: Result<
        (),
        ReservationError,
    >)
        ensures
            match r {
                Ok(()) => details_has_id(old(self).details@, detail_id) && final(self).state()
                    == (ReservationState {
                    details: remove_detail(old(self).state().details, detail_id),
                    ..old(self).state()
                }) && final(self).events@ == old(self).events@.push(
                    ReservationEvent::ReservationDetailDeleted { id: old(self).id, detail_id },
                ),
                Err(e) => e == ReservationError::DetailNotFound && !details_has_id(
                    old(self).details@,
                    detail_id,
                ) && *final(self) == *old(self),
            },
    {
        if !details_has_id_exec(&self.details, detail_id) {
            return Err(ReservationError::DetailNotFound);
        }
        self.details = remove_detail_exec(&self.details, detail_id);
        let id = self.id;
        self.events.push(ReservationEvent::ReservationDetailDeleted { id, detail_id });
        Ok(())
    }

    /// Decides whether `event` may be applied to the current state;
    /// commands call this before `apply`.
    pub fn validate(&self, event: &ReservationEvent) -> (r: Result<(), ReservationError>)
        ensures
            r == reservation_validate(self.state(), *event),
    {
        match event {
            ReservationEvent::ReservationCreated { prostitute_ids, time, customer, .. } => {
                if prostitute_ids.len() == 0 {
                    Err(ReservationError::NoProstitutes)
                } else if time.start.millis >= time.end.millis {
                    Err(ReservationError::InvalidTime)
                } else {
                    match customer {
                        ReservationCustomer::Anonymous => Err(
                            ReservationError::AnonymousNotAllowed,
                        ),
                        ReservationCustomer::Registered { .. } => Ok(()),
                        ReservationCustomer::Unregistered { name, phone } => {
                            if name.as_str().unicode_len() == 0 {
                                Err(ReservationError::UnregisteredCustomerNameRequired)
                            } else if phone.as_str().unicode_len() == 0 {
                                Err(ReservationError::UnregisteredCustomerPhoneRequired)
                            } else {
                                Ok(())
                            }
                        },
                    }
                }
            },
            ReservationEvent::ReservationDetailAdded { id, detail } => {
                if id.0 != self.id.0 {
                    Err(ReservationError::MismatchedId)
                } else if details_has_id_exec(&self.details, detail.id) {
                    Err(ReservationError::DuplicateDetail)
                } else {
                    Ok(())
                }
            },
            ReservationEvent::ReservationDetailDeleted { id, detail_id } => {
                if id.0 != self.id.0 {
                    Err(ReservationError::MismatchedId)
                } else if !details_has_id_exec(&self.details, *detail_id) {
                    Err(ReservationError::DetailNotFound)
                } else {
                    Ok(())
                }
            },
            ReservationEvent::ReservationDeleted { id } => {
                if id.0 != self.id.0 {
                    Err(ReservationError::MismatchedId)
                } else {
                    Ok(())
                }
            },
        }
    }

    /// Applies `event` to the state and appends it to the queue. Total and
    /// validation-free: the command path validates first, and replay trusts
    /// stored events.
    pub fn apply(&mut self, event: ReservationEvent)
        ensures
            final(self).state() == reservation_step(old(self).state(), event),
            final(self).events@ == old(self).events@.push(event),
    {
        match &event {
            ReservationEvent::ReservationCreated { id, prostitute_ids, time, customer } => {
                self.id = *id;
                self.prostitute_ids = crate::queue::clone_vec(prostitute_ids);
                self.time = *time;
                self.customer = customer.duplicate();
                self.details = Vec::new();
                proof {
                    assert(self.details@ =~= Seq::<ReservationDetail>::empty());
                }
            },
            ReservationEvent::ReservationDetailAdded { detail, .. } => {
                self.details.push(detail.duplicate());
            },
            ReservationEvent::ReservationDetailDeleted { detail_id, .. } => {
                self.details = remove_detail_exec(&self.details, *detail_id);
            },
            ReservationEvent::ReservationDeleted { .. } => {},
        }
        self.events.push(event);
    }

    /// Reconstitutes an aggregate from its stored stream; `None` exactly
    /// when the stream is empty.
    pub fn replay(events: Vec<ReservationEvent>) -> (r: Option<Self>)
        ensures
            match r {
                Some(a) => events@.len() > 0 && a.state() == reservation_replay(
                    reservation_default_state(),
                    events@,
                ) && a.events@.len() == 0,
                None => events@.len() == 0,
            },
    {
        if events.len() == 0 {
            return None;
        }
        let ghost all = events@;
        let mut events = events;
        let mut entity = Reservation::default();
        while events.len() > 0
            invariant
                reservation_replay(reservation_default_state(), all) == reservation_replay(
                    entity.state(),
                    events@,
                ),
            decreases events@.len(),
        {
            let ghost before = events@;
            let event = events.remove(0);
            proof {
                assert(events@ =~= before.drop_first());
            }
            entity.apply(event);
        }
        entity.events.clear();
        Some(entity)
    }
}

/// Whether any line of `v` has id `did`.
fn details_has_id_exec(v: &Vec<ReservationDetail>, did: ReservationDetailId) -> (r: bool)
    ensures
        r == details_has_id(v@, did),
{
    let n = v.len();
    let mut i: usize = 0;
    while i < n
        invariant
            0 <= i <= n,
            n == v@.len(),
            forall|j: int| 0 <= j < i ==> (#[trigger] v@[j]).id != did,
        decreases n - i,
    {
        if v[i].id.0 == did.0 {
            proof {
                assert(v@[i as int].id == did);
            }
            return true;
        }
        i = i + 1;
    }
    false
}

/// `v` without the lines with id `did`.
fn remove_detail_exec(v: &Vec<ReservationDetail>, did: ReservationDetailId) -> (r: Vec<
    ReservationDetail,
>)
    ensures
        r@ == remove_detail(v@, did),
{
    let mut r: Vec<ReservationDetail> = Vec::new();
    let n = v.len();
    let mut i: usize = 0;
    while i < n
        invariant
            0 <= i <= n,
            n == v@.len(),
            r@ == remove_detail(v@.subrange(0, i as int), did),
        decreases n - i,
    {
        let ghost prefix = v@.subrange(0, i as int);
        let ghost prefix2 = v@.subrange(0, i as int + 1);
        proof {
            assert(prefix2.drop_last() =~= prefix);
        }
        if v[i].id.0 != did.0 {
            proof {
                assert(v@[i as int].id != did);
            }
            r.push(v[i].duplicate());
        } else {
            proof {
                assert(v@[i as int].id == did);
            }
        }
        i = i + 1;
    }
    proof {
        assert(v@.subrange(0, n as int) =~= v@);
    }
    r
}

impl Default for Reservation {
    /// A blank booking, the starting point of replay.
    fn default() -> (r: Self)
        ensures
            r.state() == reservation_default_state(),
            r.events@.len() == 0,
    {
        let r = Reservation {
            id: ReservationId(0),
            prostitute_ids: Vec::new(),
            time: TimeInterval {
                start: crate::time::Timestamp { millis: 0 },
                end: crate::time::Timestamp { millis: 0 },
            },
            customer: ReservationCustomer::Anonymous,
            details: Vec::new(),
            events: EventQueue::new(),
        };
        proof {
            assert(r.state().prostitute_ids =~= Seq::<ProstituteId>::empty());
            assert(r.state().details =~= Seq::<ReservationDetail>::empty());
        }
        r
    }
}

} // verus!
