//! The extra-service aggregate: a billable add-on with a name, a
//! description and a price.
//!
//! Commands validate a candidate event against the current state, then
//! apply it; `apply` itself is total, does not re-validate, and appends the
//! event to the aggregate's queue, so replaying a stored stream reproduces
//! the state that emitted it.

use vstd::prelude::*;
use crate::money::Money;
use crate::queue::EventQueue;
use crate::text;

verus! {

/// Identifier of an extra service.
#[derive(Clone, Copy, Debug, PartialEq, Eq, Hash, Structural)]
pub struct ExtraServiceId(pub u64);

impl Default for ExtraServiceId {
    /// The zero id, used only by default-constructed aggregates.
    fn default() -> (r: Self)
        ensures
            r == ExtraServiceId(0),
    {
        ExtraServiceId(0)
    }
}

/// Events of the extra-service aggregate.
#[derive(Clone, Debug, PartialEq, Eq)]
pub enum ExtraServiceEvent {
    /// The service was registered. Establishes the aggregate's identity.
    ExtraServiceCreated { id: ExtraServiceId, name: String, description: String, price: Money },
    /// The service was renamed.
    ExtraServiceNameChanged { id: ExtraServiceId, name: String },
    /// The description was replaced.
    ExtraServiceDescriptionChanged { id: ExtraServiceId, description: String },
    /// The price was replaced.
    ExtraServicePriceChanged { id: ExtraServiceId, price: Money },
    /// The service was removed; emitted as a tombstone before stream
    /// deletion.
    ExtraServiceDeleted { id: ExtraServiceId },
}

/// Validation failures of extra-service commands.
#[derive(Clone, Copy, Debug, PartialEq, Eq, Structural)]
pub enum ExtraServiceError {
    /// The event names another aggregate.
    MismatchedId,
    /// The name is empty or white space only.
    NameIsBlank,
}

/// The state of an extra service, abstracted from its representation: the
/// event queue is left out and strings are their character sequences.
pub struct ExtraServiceState {
    pub id: ExtraServiceId,
    pub name: Seq<char>,
    pub description: Seq<char>,
    pub price: Money,
}

/// The state of a default-constructed aggregate, before any event.
pub open spec fn extra_service_default_state() -> ExtraServiceState {
    ExtraServiceState {
        id: ExtraServiceId(0),
        name: Seq::empty(),
        description: Seq::empty(),
        price: Money { amount: 0, currency: crate::money::Currency::JPY },
    }
}

/// What `validate` decides, as a function of the abstract state and the
/// event: creation demands a non-blank name; every other event must carry
/// the aggregate's id, and a rename must carry a non-blank name.
pub open spec fn extra_service_validate(s: ExtraServiceState, e: ExtraServiceEvent) -> Result<
    (),
    ExtraServiceError,
> {
    match e {
        ExtraServiceEvent::ExtraServiceCreated { name, .. } => {
            if text::blank(name@) {
                Err(ExtraServiceError::NameIsBlank)
            } else {
                Ok(())
            }
        },
        ExtraServiceEvent::ExtraServiceNameChanged { id, name } => {
            if id != s.id {
                Err(ExtraServiceError::MismatchedId)
            } else if text::blank(name@) {
                Err(ExtraServiceError::NameIsBlank)
            } else {
                Ok(())
            }
        },
        ExtraServiceEvent::ExtraServiceDescriptionChanged { id, .. } => {
            if id != s.id {
                Err(ExtraServiceError::MismatchedId)
            } else {
                Ok(())
            }
        },
        ExtraServiceEvent::ExtraServicePriceChanged { id, .. } => {
            if id != s.id {
                Err(ExtraServiceError::MismatchedId)
            } else {
                Ok(())
            }
        },
        ExtraServiceEvent::ExtraServiceDeleted { id } => {
            if id != s.id {
                Err(ExtraServiceError::MismatchedId)
            } else {
                Ok(())
            }
        },
    }
}

/// What `apply` does to the abstract state. Total: creation installs the
/// payload, the other events overwrite one field each, and a tombstone
/// changes nothing.
pub open spec fn extra_service_step(
    s: ExtraServiceState,
    e: ExtraServiceEvent,
) -> ExtraServiceState {
    match e {
        ExtraServiceEvent::ExtraServiceCreated { id, name, description, price } => {
            ExtraServiceState { id, name: name@, description: description@, price }
        },
        ExtraServiceEvent::ExtraServiceNameChanged { name, .. } => {
            ExtraServiceState { name: name@, ..s }
        },
        ExtraServiceEvent::ExtraServiceDescriptionChanged { description, .. } => {
            ExtraServiceState { description: description@, ..s }
        },
        ExtraServiceEvent::ExtraServicePriceChanged { price, .. } => {
            ExtraServiceState { price, ..s }
        },
        ExtraServiceEvent::ExtraServiceDeleted { .. } => s,
    }
}

/// The state reached by applying `es` in order, oldest first, to `s`.
pub open spec fn extra_service_replay(
    s: ExtraServiceState,
    es: Seq<ExtraServiceEvent>,
) -> ExtraServiceState
    decreases es.len(),
{
    if es.len() == 0 {
        s
    } else {
        extra_service_replay(extra_service_step(s, es[0]), es.drop_first())
    }
}

/// A run of successful commands from `s0` to `sn`: each event was accepted
/// by `validate` on the state reached by those before it, and stepped the
/// state as `apply` does.
pub open spec fn extra_service_trace(
    s0: ExtraServiceState,
    es: Seq<ExtraServiceEvent>,
    sn: ExtraServiceState,
) -> bool
    decreases es.len(),
{
    if es.len() == 0 {
        sn == s0
    } else {
        extra_service_validate(s0, es[0]) is Ok && extra_service_trace(
            extra_service_step(s0, es[0]),
            es.drop_first(),
            sn,
        )
    }
}

/// Replay fidelity: a fresh aggregate fed the events a run of successful
/// commands emitted, oldest first, reaches the state those commands built.
pub proof fn lemma_replay_fidelity(
    s0: ExtraServiceState,
    es: Seq<ExtraServiceEvent>,
    sn: ExtraServiceState,
)
    requires
        extra_service_trace(s0, es, sn),
    ensures
        sn == extra_service_replay(s0, es),
    decreases es.len(),
{
    if es.len() > 0 {
        lemma_replay_fidelity(extra_service_step(s0, es[0]), es.drop_first(), sn);
    }
}

/// The aggregate's invariant: once created (id nonzero), the name is not
/// blank.
pub open spec fn extra_service_inv(s: ExtraServiceState) -> bool {
    s.id != ExtraServiceId(0) ==> !text::blank(s.name)
}

/// Validated events keep the invariant: if `validate` accepts `e` on a
/// state satisfying the invariant, the state `apply` reaches satisfies it
/// too.
pub proof fn lemma_validate_preserves_inv(s: ExtraServiceState, e: ExtraServiceEvent)
    requires
        extra_service_inv(s),
        extra_service_validate(s, e) is Ok,
    ensures
        extra_service_inv(extra_service_step(s, e)),
{
}

/// Every state a run of successful commands reaches satisfies the
/// invariant.
pub proof fn lemma_trace_preserves_inv(
    s0: ExtraServiceState,
    es: Seq<ExtraServiceEvent>,
    sn: ExtraServiceState,
)
    requires
        extra_service_inv(s0),
        extra_service_trace(s0, es, sn),
    ensures
        extra_service_inv(sn),
    decreases es.len(),
{
    if es.len() > 0 {
        lemma_validate_preserves_inv(s0, es[0]);
        lemma_trace_preserves_inv(extra_service_step(s0, es[0]), es.drop_first(), sn);
    }
}

/// Id coherence: a non-creation event whose id differs from the state's is
/// rejected with `MismatchedId`.
pub proof fn lemma_id_coherence(s: ExtraServiceState, e: ExtraServiceEvent)
    requires
        !(e is ExtraServiceCreated),
        match e {
            ExtraServiceEvent::ExtraServiceNameChanged { id, .. } => id != s.id,
            ExtraServiceEvent::ExtraServiceDescriptionChanged { id, .. } => id != s.id,
            ExtraServiceEvent::ExtraServicePriceChanged { id, .. } => id != s.id,
            ExtraServiceEvent::ExtraServiceDeleted { id } => id != s.id,
            _ => false,
        },
    ensures
        extra_service_validate(s, e) == Err::<(), ExtraServiceError>(
            ExtraServiceError::MismatchedId,
        ),
{
}

/// A billable add-on service.
#[derive(Debug)]
pub struct ExtraService {
    pub id: ExtraServiceId,
    pub name: String,
    pub description: String,
    pub price: Money,
    pub events: EventQueue<ExtraServiceEvent>,
}

impl ExtraService {
    /// The abstract state: the fields without the event queue.
    pub open spec fn state(&self) -> ExtraServiceState {
        ExtraServiceState {
            id: self.id,
            name: self.name@,
            description: self.description@,
            price: self.price,
        }
    }

    /// Registers a new service. Fails with `NameIsBlank` exactly when the
    /// name is white space only; otherwise the aggregate starts from the
    /// given fields with the creation event queued.
    pub fn create(id: ExtraServiceId, name: String, description: String, price: Money) -> (r:
        Result<Self, ExtraServiceError>)
        ensures
            match r {
                Ok(a) => !text::blank(name@) && a.state() == (ExtraServiceState {
                    id,
                    name: name@,
                    description: description@,
                    price,
                }) && a.events@ =~= seq![
                    ExtraServiceEvent::ExtraServiceCreated { id, name, description, price },
                ],
                Err(e) => e == ExtraServiceError::NameIsBlank && text::blank(name@),
            },
    {
        if text::is_blank(name.as_str()) {
            return Err(ExtraServiceError::NameIsBlank);
        }
        let mut entity = ExtraService {
            id,
            name: name.clone(),
            description: description.clone(),
            price,
            events: EventQueue::new(),
        };
        entity.events.push(
            ExtraServiceEvent::ExtraServiceCreated { id, name, description, price },
        );
        Ok(entity)
    }

    /// The aggregate's id.
    pub fn id(&self) -> (r: ExtraServiceId)
        ensures
            r == self.id,
    {
        self.id
    }

    /// The current name.
    pub fn name(&self) -> (r: &String)
        ensures
            r == &self.name,
    {
        &self.name
    }

    /// The current description.
    pub fn description(&self) -> (r: &String)
        ensures
            r == &self.description,
    {
        &self.description
    }

    /// The current price.
    pub fn price(&self) -> (r: &Money)
        ensures
            r == &self.price,
    {
        &self.price
    }

    /// Renames the service. On success exactly one rename event is queued;
    /// on failure nothing changes.
    pub fn change_name(&mut self, name: String) -> (r: Result<(), ExtraServiceError>)
        ensures
            match r {
                Ok(()) => !text::blank(name@) && final(self).state() == (ExtraServiceState {
                    name: name@,
                    ..old(self).state()
                }) && final(self).events@ == old(self).events@.push(
                    ExtraServiceEvent::ExtraServiceNameChanged { id: old(self).id, name },
                ),
                Err(e) => e == ExtraServiceError::NameIsBlank && text::blank(name@) && *final(self)
                    == *old(self),
            },
    {
        if text::is_blank(name.as_str()) {
            return Err(ExtraServiceError::NameIsBlank);
        }
        self.name = name.clone();
        let id = self.id;
        self.events.push(ExtraServiceEvent::ExtraServiceNameChanged { id, name });
        Ok(())
    }

    /// Replaces the description and queues the matching event.
    pub fn change_description(&mut self, description: String)
        ensures
            final(self).state() == (ExtraServiceState {
                description: description@,
                ..old(self).state()
            }),
            final(self).events@ == old(self).events@.push(
                ExtraServiceEvent::ExtraServiceDescriptionChanged {
                    id: old(self).id,
                    description,
                },
            ),
    {
        self.description = description.clone();
        let id = self.id;
        self.events.push(ExtraServiceEvent::ExtraServiceDescriptionChanged { id, description });
    }

    /// Replaces the price and queues the matching event.
    pub fn change_price(&mut self, price: Money)
        ensures
            final(self).state() == (ExtraServiceState { price, ..old(self).state() }),
            final(self).events@ == old(self).events@.push(
                ExtraServiceEvent::ExtraServicePriceChanged { id: old(self).id, price },
            ),
    {
        self.price = price;
        let id = self.id;
        self.events.push(ExtraServiceEvent::ExtraServicePriceChanged { id, price });
    }

    /// Decides whether `event` may be applied to the current state;
    /// commands call this before `apply`.
    pub fn validate(&self, event: &ExtraServiceEvent) -> (r: Result<(), ExtraServiceError>)
        ensures
            r == extra_service_validate(self.state(), *event),
    {
        match event {
            ExtraServiceEvent::ExtraServiceCreated { name, .. } => {
                if text::is_blank(name.as_str()) {
                    Err(ExtraServiceError::NameIsBlank)
                } else {
                    Ok(())
                }
            },
            ExtraServiceEvent::ExtraServiceNameChanged { id, name } => {
                if id.0 != self.id.0 {
                    Err(ExtraServiceError::MismatchedId)
                } else if text::is_blank(name.as_str()) {
                    Err(ExtraServiceError::NameIsBlank)
                } else {
                    Ok(())
                }
            },
            ExtraServiceEvent::ExtraServiceDescriptionChanged { id, .. } => {
                if id.0 != self.id.0 {
                    Err(ExtraServiceError::MismatchedId)
                } else {
                    Ok(())
                }
            },
            ExtraServiceEvent::ExtraServicePriceChanged { id, .. } => {
                if id.0 != self.id.0 {
                    Err(ExtraServiceError::MismatchedId)
                } else {
                    Ok(())
                }
            },
            ExtraServiceEvent::ExtraServiceDeleted { id } => {
                if id.0 != self.id.0 {
                    Err(ExtraServiceError::MismatchedId)
                } else {
                    Ok(())
                }
            },
        }
    }

    /// Applies `event` to the state and appends it to the queue. Total and
    /// validation-free: the command path validates first, and replay trusts
    /// stored events.
    pub fn apply(&mut self, event: ExtraServiceEvent)
        ensures
            final(self).state() == extra_service_step(old(self).state(), event),
            final(self).events@ == old(self).events@.push(event),
    {
        match &event {
            ExtraServiceEvent::ExtraServiceCreated { id, name, description, price } => {
                self.id = *id;
                self.name = name.clone();
                self.description = description.clone();
                self.price = *price;
            },
            ExtraServiceEvent::ExtraServiceNameChanged { name, .. } => {
                self.name = name.clone();
            },
            ExtraServiceEvent::ExtraServiceDescriptionChanged { description, .. } => {
                self.description = description.clone();
            },
            ExtraServiceEvent::ExtraServicePriceChanged { price, .. } => {
                self.price = *price;
            },
            ExtraServiceEvent::ExtraServiceDeleted { .. } => {},
        }
        self.events.push(event);
    }

    /// Reconstitutes an aggregate from its stored stream: applies every
    /// event to a default aggregate, then clears the queue. `None` exactly
    /// when the stream is empty.
    pub fn replay(events: Vec<ExtraServiceEvent>) -> (r: Option<Self>)
        ensures
            match r {
                Some(a) => events@.len() > 0 && a.state() == extra_service_replay(
                    extra_service_default_state(),
                    events@,
                ) && a.events@.len() == 0,
                None => events@.len() == 0,
            },
    {
        if events.len() == 0 {
            return None;
        }
        let ghost all = events@;
        let mut events = events;
        let mut entity = ExtraService::default();
        while events.len() > 0
            invariant
                extra_service_replay(extra_service_default_state(), all) == extra_service_replay(
                    entity.state(),
                    events@,
                ),
            decreases events@.len(),
        {
            let ghost before = events@;
            let event = events.remove(0);
            proof {
                assert(events@ =~= before.drop_first());
            }
            entity.apply(event);
        }
        entity.events.clear();
        Some(entity)
    }
}

impl Default for ExtraService {
    /// A blank aggregate, the starting point of replay.
    fn default() -> (r: Self)
        ensures
            r.state() == extra_service_default_state(),
            r.events@.len() == 0,
    {
        let r = ExtraService {
            id: ExtraServiceId(0),
            name: String::new(),
            description: String::new(),
            price: Money::default(),
            events: EventQueue::new(),
        };
        proof {
            assert(r.state().name =~= Seq::<char>::empty());
            assert(r.state().description =~= Seq::<char>::empty());
        }
        r
    }
}

} // verus!
