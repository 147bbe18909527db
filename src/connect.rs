//! The connection handshake: eleven strictly ordered steps, each of which emits
//! one milestone event when it completes.
use vstd::prelude::*;
use crate::event::{ConnectionDetails, Event, EventKind};
use crate::ident::{ChainId, Identifier};

verus! {

/// Number of steps in a handshake, the final one included.
pub const CONNECT_STEPS: usize = 11;

/// The handshake's steps, in the order they run.
#[derive(Debug, Clone, Copy, PartialEq, Eq, Structural)]
pub enum ConnectStep {
    CreateSoloMachineClient,
    CreateTendermintClient,
    InitConnectionOnSoloMachine,
    InitConnectionOnTendermint,
    ConfirmConnectionOnTendermint,
    ConfirmConnectionOnSoloMachine,
    InitChannelOnTendermint,
    InitChannelOnSoloMachine,
    ConfirmChannelOnTendermint,
    ConfirmChannelOnSoloMachine,
    Finalize,
}

/// The step at position `i` of the handshake.
pub open spec fn step_at(i: int) -> ConnectStep {
    if i == 0 {
        ConnectStep::CreateSoloMachineClient
    } else if i == 1 {
        ConnectStep::CreateTendermintClient
    } else if i == 2 {
        ConnectStep::InitConnectionOnSoloMachine
    } else if i == 3 {
        ConnectStep::InitConnectionOnTendermint
    } else if i == 4 {
        ConnectStep::ConfirmConnectionOnTendermint
    } else if i == 5 {
        ConnectStep::ConfirmConnectionOnSoloMachine
    } else if i == 6 {
        ConnectStep::InitChannelOnTendermint
    } else if i == 7 {
        ConnectStep::InitChannelOnSoloMachine
    } else if i == 8 {
        ConnectStep::ConfirmChannelOnTendermint
    } else if i == 9 {
        ConnectStep::ConfirmChannelOnSoloMachine
    } else {
        ConnectStep::Finalize
    }
}

/// The milestone that each step emits on completion.
pub open spec fn milestone_of(step: ConnectStep) -> EventKind {
    match step {
        ConnectStep::CreateSoloMachineClient => EventKind::CreatedSoloMachineClient,
        ConnectStep::CreateTendermintClient => EventKind::CreatedTendermintClient,
        ConnectStep::InitConnectionOnSoloMachine => EventKind::InitializedConnectionOnSoloMachine,
        ConnectStep::InitConnectionOnTendermint => EventKind::InitializedConnectionOnTendermint,
        ConnectStep::ConfirmConnectionOnTendermint => EventKind::ConfirmedConnectionOnTendermint,
        ConnectStep::ConfirmConnectionOnSoloMachine => EventKind::ConfirmedConnectionOnSoloMachine,
        ConnectStep::InitChannelOnTendermint => EventKind::InitializedChannelOnTendermint,
        ConnectStep::InitChannelOnSoloMachine => EventKind::InitializedChannelOnSoloMachine,
        ConnectStep::ConfirmChannelOnTendermint => EventKind::ConfirmedChannelOnTendermint,
        ConnectStep::ConfirmChannelOnSoloMachine => EventKind::ConfirmedChannelOnSoloMachine,
        ConnectStep::Finalize => EventKind::ConnectionEstablished,
    }
}

/// The milestones of a complete handshake, in order.
pub open spec fn connect_milestones() -> Seq<EventKind> {
    seq![
        EventKind::CreatedSoloMachineClient,
        EventKind::CreatedTendermintClient,
        EventKind::InitializedConnectionOnSoloMachine,
        EventKind::InitializedConnectionOnTendermint,
        EventKind::ConfirmedConnectionOnTendermint,
        EventKind::ConfirmedConnectionOnSoloMachine,
        EventKind::InitializedChannelOnTendermint,
        EventKind::InitializedChannelOnSoloMachine,
        EventKind::ConfirmedChannelOnTendermint,
        EventKind::ConfirmedChannelOnSoloMachine,
        EventKind::ConnectionEstablished,
    ]
}

/// The identifier that a milestone event of the handshake carries.
pub open spec fn milestone_id(e: Event) -> Seq<char> {
    match e {
        Event::CreatedSoloMachineClient { client_id } => client_id@,
        Event::CreatedTendermintClient { client_id } => client_id@,
        Event::InitializedConnectionOnTendermint { connection_id } => connection_id@,
        Event::InitializedConnectionOnSoloMachine { connection_id } => connection_id@,
        Event::ConfirmedConnectionOnTendermint { connection_id } => connection_id@,
        Event::ConfirmedConnectionOnSoloMachine { connection_id } => connection_id@,
        Event::InitializedChannelOnTendermint { channel_id } => channel_id@,
        Event::InitializedChannelOnSoloMachine { channel_id } => channel_id@,
        Event::ConfirmedChannelOnTendermint { channel_id } => channel_id@,
        Event::ConfirmedChannelOnSoloMachine { channel_id } => channel_id@,
        _ => Seq::empty(),
    }
}

/// The six identifiers of connection details, in field order.
pub open spec fn details_ids(d: ConnectionDetails) -> Seq<Seq<char>> {
    seq![
        d.solo_machine_client_id@,
        d.tendermint_client_id@,
        d.solo_machine_connection_id@,
        d.tendermint_connection_id@,
        d.solo_machine_channel_id@,
        d.tendermint_channel_id@,
    ]
}

/// The connection details made of the identifiers that the first ten steps
/// returned: the clients and the connections come from the creating and
/// initializing steps, the channels from the initializing steps.
pub open spec fn details_from(ids: Seq<Seq<char>>) -> Seq<Seq<char>> {
    seq![ids[0], ids[1], ids[2], ids[3], ids[7], ids[6]]
}

/// The result of performing one step.
#[derive(Debug, Clone)]
pub enum StepOutcome {
    /// An identifying step succeeded and returned this identifier.
    Created(Identifier),
    /// The final step succeeded.
    Finalized,
    /// The step was refused or could not be performed.
    Failed,
}

/// The position of a handshake for one chain: how many steps completed, the
/// identifiers they returned, the milestones emitted so far, and whether a step
/// failed.
pub struct ConnectSession {
    chain_id: ChainId,
    done: usize,
    failed: bool,
    ids: Vec<Identifier>,
    emitted: Vec<EventKind>,
}

impl ConnectSession {
    pub closed spec fn chain(&self) -> Seq<char> {
        self.chain_id@
    }

    /// How many steps completed.
    pub closed spec fn completed(&self) -> nat {
        self.done as nat
    }

    /// Whether a step failed.
    pub closed spec fn has_failed(&self) -> bool {
        self.failed
    }

    /// The identifiers that the completed steps returned.
    pub closed spec fn ids(&self) -> Seq<Seq<char>> {
        self.ids@.map_values(|id: Identifier| id@)
    }

    /// The milestones emitted so far, in order.
    pub closed spec fn milestones(&self) -> Seq<EventKind> {
        self.emitted@
    }

    /// The session is consistent: each completed step emitted its milestone in
    /// order, and each identifying step left its identifier.
    pub closed spec fn wf(&self) -> bool {
        &&& self.done <= CONNECT_STEPS
        &&& self.emitted@ == connect_milestones().take(self.done as int)
        &&& self.ids@.len() == if self.done < CONNECT_STEPS {
            self.done as int
        } else {
            CONNECT_STEPS - 1
        }
    }

    /// Whether the handshake completed: every step, the final one included.
    pub open spec fn established(&self) -> bool {
        self.completed() == CONNECT_STEPS
    }

    /// Whether no further step will run.
    pub open spec fn finished(&self) -> bool {
        self.established() || self.has_failed()
    }

    /// A handshake for `chain_id` before its first step.
    pub fn new(chain_id: ChainId) -> (r: ConnectSession)
        ensures
            r.wf(),
            r.chain() == chain_id@,
            r.completed() == 0,
            !r.has_failed(),
            r.milestones() == Seq::<EventKind>::empty(),
    {
        let r = ConnectSession {
            chain_id,
            done: 0,
            failed: false,
            ids: Vec::new(),
            emitted: Vec::new(),
        };
        assert(r.emitted@ =~= connect_milestones().take(0));
        r
    }

    /// The chain that the handshake connects to.
    pub fn chain_id(&self) -> (r: &ChainId)
        ensures
            r@ == self.chain(),
    {
        &self.chain_id
    }

    /// How many steps completed.
    pub fn completed_steps(&self) -> (r: usize)
        ensures
            r == self.completed(),
    {
        self.done
    }

    /// Whether a step failed.
    pub fn failed(&self) -> (r: bool)
        ensures
            r == self.has_failed(),
    {
        self.failed
    }

    /// The step to perform next, if the handshake is still running.
    pub fn next_step(&self) -> (r: Option<ConnectStep>)
        requires
            self.wf(),
        ensures
            r is None <==> self.finished(),
            r is Some ==> r->Some_0 == step_at(self.completed() as int),
    {
        if self.failed || self.done == CONNECT_STEPS {
            None
        } else {
            Some(step_of(self.done))
        }
    }
}

/// The step at position `i` of the handshake.
pub fn step_of(i: usize) -> (r: ConnectStep)
    ensures
        r == step_at(i as int),
{
    if i == 0 {
        ConnectStep::CreateSoloMachineClient
    } else if i == 1 {
        ConnectStep::CreateTendermintClient
    } else if i == 2 {
        ConnectStep::InitConnectionOnSoloMachine
    } else if i == 3 {
        ConnectStep::InitConnectionOnTendermint
    } else if i == 4 {
        ConnectStep::ConfirmConnectionOnTendermint
    } else if i == 5 {
        ConnectStep::ConfirmConnectionOnSoloMachine
    } else if i == 6 {
        ConnectStep::InitChannelOnTendermint
    } else if i == 7 {
        ConnectStep::InitChannelOnSoloMachine
    } else if i == 8 {
        ConnectStep::ConfirmChannelOnTendermint
    } else if i == 9 {
        ConnectStep::ConfirmChannelOnSoloMachine
    } else {
        ConnectStep::Finalize
    }
}

/// The milestone event that an identifying step emits, carrying the identifier
/// it returned.
pub fn milestone_event(step: ConnectStep, id: Identifier) -> (r: Event)
    requires
        step != ConnectStep::Finalize,
    ensures
        r.kind_spec() == milestone_of(step),
        milestone_id(r) == id@,
{
    match step {
        ConnectStep::CreateSoloMachineClient => Event::CreatedSoloMachineClient { client_id: id },
        ConnectStep::CreateTendermintClient => Event::CreatedTendermintClient { client_id: id },
        ConnectStep::InitConnectionOnSoloMachine => Event::InitializedConnectionOnSoloMachine {
            connection_id: id,
        },
        ConnectStep::InitConnectionOnTendermint => Event::InitializedConnectionOnTendermint {
            connection_id: id,
        },
        ConnectStep::ConfirmConnectionOnTendermint => Event::ConfirmedConnectionOnTendermint {
            connection_id: id,
        },
        ConnectStep::ConfirmConnectionOnSoloMachine => Event::ConfirmedConnectionOnSoloMachine {
            connection_id: id,
        },
        ConnectStep::InitChannelOnTendermint => Event::InitializedChannelOnTendermint {
            channel_id: id,
        },
        ConnectStep::InitChannelOnSoloMachine => Event::InitializedChannelOnSoloMachine {
            channel_id: id,
        },
        ConnectStep::ConfirmChannelOnTendermint => Event::ConfirmedChannelOnTendermint {
            channel_id: id,
        },
        _ => Event::ConfirmedChannelOnSoloMachine { channel_id: id },
    }
}

impl ConnectSession {
    /// Records the outcome of the step that `next_step` named, and returns the
    /// milestone event it completes. An identifying step expects `Created`, the
    /// final step `Finalized`; any other outcome fails the handshake, which then
    /// emits nothing more. Once finished, the session ignores every outcome.
    pub fn advance(&mut self, outcome: StepOutcome) -> (r: Option<Event>)
        requires
            old(self).wf(),
        ensures
            final(self).wf(),
            final(self).chain() == old(self).chain(),
            old(self).finished() ==> r is None && *final(self) == *old(self),
            !old(self).finished() ==> match outcome {
                StepOutcome::Created(id) if old(self).completed() < CONNECT_STEPS - 1 => {
                    &&& r is Some
                    &&& r->Some_0.kind_spec() == milestone_of(step_at(old(self).completed() as int))
                    &&& milestone_id(r->Some_0) == id@
                    &&& final(self).completed() == old(self).completed() + 1
                    &&& !final(self).has_failed()
                    &&& final(self).ids() == old(self).ids().push(id@)
                },
                StepOutcome::Finalized if old(self).completed() == CONNECT_STEPS - 1 => {
                    &&& r is Some
                    &&& r->Some_0 matches Event::ConnectionEstablished { chain_id, connection_details }
                    &&& chain_id@ == old(self).chain()
                    &&& details_ids(connection_details) == details_from(old(self).ids())
                    &&& final(self).established()
                    &&& !final(self).has_failed()
                    &&& final(self).ids() == old(self).ids()
                },
                _ => {
                    &&& r is None
                    &&& final(self).has_failed()
                    &&& final(self).completed() == old(self).completed()
                    &&& final(self).ids() == old(self).ids()
                },
            },
            r is Some ==> final(self).milestones() == old(self).milestones().push(
                r->Some_0.kind_spec(),
            ),
            r is None ==> final(self).milestones() == old(self).milestones(),
    {
        if self.failed || self.done == CONNECT_STEPS {
            return None;
        }
        let step = step_of(self.done);
        proof {
            assert(connect_milestones().take(self.done as int + 1) =~= connect_milestones().take(
                self.done as int,
            ).push(milestone_of(step)));
        }
        match outcome {
            StepOutcome::Created(id) => {
                if self.done < CONNECT_STEPS - 1 {
                    let ev = milestone_event(step, id.duplicate());
                    self.ids.push(id);
                    self.emitted.push(ev.kind());
                    self.done = self.done + 1;
                    proof {
                        assert(self.ids() =~= old(self).ids().push(id@));
                    }
                    Some(ev)
                } else {
                    self.failed = true;
                    None
                }
            },
            StepOutcome::Finalized => {
                if self.done == CONNECT_STEPS - 1 {
                    let connection_details = ConnectionDetails {
                        solo_machine_client_id: self.ids[0].duplicate(),
                        tendermint_client_id: self.ids[1].duplicate(),
                        solo_machine_connection_id: self.ids[2].duplicate(),
                        tendermint_connection_id: self.ids[3].duplicate(),
                        solo_machine_channel_id: self.ids[7].duplicate(),
                        tendermint_channel_id: self.ids[6].duplicate(),
                    };
                    let ev = Event::ConnectionEstablished {
                        chain_id: self.chain_id.duplicate(),
                        connection_details,
                    };
                    self.emitted.push(EventKind::ConnectionEstablished);
                    self.done = CONNECT_STEPS;
                    proof {
                        assert(details_ids(connection_details) =~= details_from(old(self).ids()));
                    }
                    Some(ev)
                } else {
                    self.failed = true;
                    None
                }
            },
            StepOutcome::Failed => {
                self.failed = true;
                None
            },
        }
    }
}

/// Every handshake that completes has emitted exactly the eleven milestones, in
/// the order of its steps, with none missing, repeated or out of place.
pub proof fn lemma_established_milestones(s: ConnectSession)
    requires
        s.wf(),
        s.established(),
    ensures
        s.milestones() == connect_milestones(),
        forall|i: int| 0 <= i < CONNECT_STEPS ==> s.milestones()[i] == milestone_of(step_at(i)),
{
    assert(connect_milestones().take(CONNECT_STEPS as int) =~= connect_milestones());
}

} // verus!
