//! The supervisor: the registry, the desired state, and every decision that
//! is taken on the two.

use vstd::prelude::*;
use vstd::pervasive::unreached;
use crate::command::{strings_view, Invocation, InvocationView, TunnelCommandView};
use crate::desired::{deactivated, lemma_deactivated, DesiredStateSet};
use crate::error::SupervisorError;
use crate::registry::CommandRegistry;
use crate::runner::{child_path, child_path_of};
use crate::worker::{
    may_run, stop_reason, Attempt, AttemptView, StopReason, Worker, WorkerStep, WorkerStepView,
    WorkerView, MAX_ATTEMPTS,
};

verus! {

/// The request to run one tunnel's stop command, as plain values.
pub struct StopRequestView {
    pub id: Seq<char>,
    pub invocation: InvocationView,
}

/// The request to run one tunnel's stop command.
#[derive(Debug)]
pub struct StopRequest {
    pub id: String,
    pub invocation: Invocation,
}

impl View for StopRequest {
    type V = StopRequestView;

    open spec fn view(&self) -> StopRequestView {
        StopRequestView { id: self.id@, invocation: self.invocation@ }
    }
}

/// The requests of a vector, each taken by its view.
pub open spec fn requests_view(v: Seq<StopRequest>) -> Seq<StopRequestView> {
    Seq::new(v.len(), |i: int| v[i]@)
}

/// A supervisor as plain values: the registered definitions, and the
/// identifiers that are wanted active, oldest activation first.
pub struct SupervisorView {
    pub registry: Map<Seq<char>, TunnelCommandView>,
    pub desired: Seq<Seq<char>>,
}

impl SupervisorView {
    /// No identifier is wanted twice, and each one that is wanted is
    /// registered.
    pub open spec fn wf(self) -> bool {
        &&& self.desired.no_duplicates()
        &&& forall|i: int|
            0 <= i < self.desired.len() ==> self.registry.contains_key(#[trigger] self.desired[i])
    }

    /// Whether `id` is wanted active.
    pub open spec fn is_active(self, id: Seq<char>) -> bool {
        self.desired.contains(id)
    }

    /// What `worker` does next, where the caller would hand down `inherited`
    /// as the search path.
    pub open spec fn next_step(self, worker: WorkerView, inherited: Option<Seq<char>>) -> WorkerStepView {
        if may_run(worker.attempts, self.is_active(worker.id)) {
            WorkerStepView::Run(
                AttemptView {
                    worker,
                    invocation: self.registry[worker.id].start(child_path_of(inherited)),
                },
            )
        } else {
            WorkerStepView::Stop(stop_reason(worker.attempts))
        }
    }

    /// The stop commands that a shutdown asks for: one for each identifier
    /// that is wanted active, in the order of activation.
    pub open spec fn stop_requests(self) -> Seq<StopRequestView> {
        Seq::new(
            self.desired.len(),
            |i: int|
                StopRequestView {
                    id: self.desired[i],
                    invocation: self.registry[self.desired[i]].stop(),
                },
        )
    }
}

/// What a toggle has done and what the caller has to do in turn.
#[derive(Debug)]
pub enum ToggleOutcome {
    /// The tunnel was switched on. The caller starts one background task
    /// that drives this worker.
    Activated(Worker),
    /// The tunnel was switched off. The caller runs this stop command once
    /// and does not retry it.
    Deactivated(Invocation),
}

/// Owner of the registry and of the desired state.
pub struct TunnelSupervisor {
    registry: CommandRegistry,
    desired: DesiredStateSet,
}

impl View for TunnelSupervisor {
    type V = SupervisorView;

    closed spec fn view(&self) -> SupervisorView {
        SupervisorView { registry: self.registry@, desired: self.desired.order() }
    }
}

impl TunnelSupervisor {
    #[verifier::type_invariant]
    spec fn well_formed(&self) -> bool {
        self@.wf()
    }

    /// A supervisor over `registry`, with no tunnel active. The registry is
    /// not changed from here on.
    pub fn new(registry: CommandRegistry) -> (out: Self)
        ensures
            out@ == (SupervisorView { registry: registry@, desired: Seq::<Seq<char>>::empty() }),
            out@.wf(),
    {
        TunnelSupervisor { registry, desired: DesiredStateSet::new() }
    }

    /// The registered definitions.
    pub fn registry(&self) -> (out: &CommandRegistry)
        ensures
            out@ == self@.registry,
    {
        &self.registry
    }

    /// The tunnels that are wanted active.
    pub fn desired(&self) -> (out: &DesiredStateSet)
        ensures
            out.order() == self@.desired,
    {
        &self.desired
    }

    /// Whether `id` is wanted active at this moment.
    pub fn is_active(&self, id: &str) -> (out: bool)
        ensures
            out == self@.is_active(id@),
    {
        self.desired.is_active(id)
    }

    /// Flips the desired state of `id`.
    ///
    /// An identifier that is not registered is refused and nothing changes.
    /// A tunnel that was not wanted becomes wanted, last in the order, and a
    /// fresh worker for it is handed out. A tunnel that was wanted is taken
    /// out, and its stop command is handed out.
    pub fn toggle(&mut self, id: &str) -> (out: Result<ToggleOutcome, SupervisorError>)
        ensures
            final(self)@.wf(),
            final(self)@.registry == old(self)@.registry,
            match out {
                Err(error) => {
                    &&& error == SupervisorError::NotFound
                    &&& !old(self)@.registry.contains_key(id@)
                    &&& final(self)@ == old(self)@
                },
                Ok(ToggleOutcome::Activated(worker)) => {
                    &&& old(self)@.registry.contains_key(id@)
                    &&& !old(self)@.is_active(id@)
                    &&& final(self)@.desired == old(self)@.desired.push(id@)
                    &&& worker@ == (WorkerView { id: id@, attempts: 0 })
                },
                Ok(ToggleOutcome::Deactivated(stop)) => {
                    &&& old(self)@.registry.contains_key(id@)
                    &&& old(self)@.is_active(id@)
                    &&& final(self)@.desired == deactivated(old(self)@.desired, id@)
                    &&& !final(self)@.is_active(id@)
                    &&& stop@ == old(self)@.registry[id@].stop()
                },
            },
    {
        proof {
            use_type_invariant(&*self);
        }
        match self.registry.lookup(id) {
            None => Err(SupervisorError::NotFound),
            Some(command) => {
                let mut desired = DesiredStateSet::new();
                std::mem::swap(&mut desired, &mut self.desired);
                if desired.deactivate(id) {
                    let stop = command.stop_invocation();
                    proof {
                        lemma_deactivated_within(old(self)@, id@);
                    }
                    self.desired = desired;
                    Ok(ToggleOutcome::Deactivated(stop))
                } else {
                    desired.activate(id);
                    self.desired = desired;
                    Ok(ToggleOutcome::Activated(Worker::new(id.to_owned())))
                }
            },
        }
    }

    /// Decides what `worker` does next.
    ///
    /// The worker runs its tunnel's start command once more while the tunnel
    /// is wanted and the budget is not used up; the definition is looked up
    /// anew each time, and the child's search path is built from
    /// `inherited_path`. Otherwise the worker ends.
    pub fn next_step(&self, worker: Worker, inherited_path: Option<&str>) -> (out: WorkerStep)
        ensures
            out@ == self@.next_step(
                worker@,
                match inherited_path {
                    Some(path) => Some(path@),
                    None => None,
                },
            ),
    {
        proof {
            use_type_invariant(self);
        }
        let attempts: u32 = worker.attempts();
        if attempts < MAX_ATTEMPTS && self.desired.is_active(worker.id()) {
            match self.registry.lookup(worker.id()) {
                Some(command) => {
                    let invocation = command.start_invocation(child_path(inherited_path));
                    WorkerStep::Run(Attempt::new(worker, invocation))
                },
                None => {
                    proof {
                        let k = self@.desired.index_of(worker@.id);
                        assert(self@.registry.contains_key(self@.desired[k]));
                    }
                    unreached()
                },
            }
        } else if attempts >= MAX_ATTEMPTS {
            WorkerStep::Stop(StopReason::Exhausted)
        } else {
            WorkerStep::Stop(StopReason::Deactivated)
        }
    }

    /// Ends every tunnel: hands out the stop command of each tunnel that is
    /// wanted active, once and in the order of activation, and leaves none
    /// wanted. The caller runs each command whatever became of the others.
    pub fn shutdown(&mut self) -> (out: Vec<StopRequest>)
        ensures
            final(self)@.wf(),
            final(self)@.registry == old(self)@.registry,
            final(self)@.desired == Seq::<Seq<char>>::empty(),
            requests_view(out@) == old(self)@.stop_requests(),
    {
        proof {
            use_type_invariant(&*self);
        }
        let mut desired = DesiredStateSet::new();
        std::mem::swap(&mut desired, &mut self.desired);
        let ids = desired.drain();
        let ghost before = old(self)@;
        let mut out: Vec<StopRequest> = Vec::new();
        let mut i: usize = 0;
        while i < ids.len()
            invariant
                i <= ids.len(),
                before.wf(),
                self.registry@ == before.registry,
                strings_view(ids@) == before.desired,
                out.len() == i,
                forall|j: int| 0 <= j < i ==> out[j]@ == before.stop_requests()[j],
            decreases ids.len() - i,
        {
            assert(before.desired[i as int] == ids[i as int]@);
            match self.registry.lookup(ids[i].as_str()) {
                Some(command) => {
                    out.push(StopRequest { id: ids[i].clone(), invocation: command.stop_invocation() });
                },
                None => {
                    unreached()
                },
            }
            i += 1;
        }
        assert(requests_view(out@) =~= before.stop_requests());
        out
    }
}

/// A shutdown asks for the stop command of every tunnel that is wanted
/// active, of no other, and of none twice; and each request holds the stop
/// command that the registry has for its tunnel.
pub proof fn lemma_stop_requests_once(s: SupervisorView)
    requires
        s.wf(),
    ensures
        s.stop_requests().len() == s.desired.len(),
        forall|id: Seq<char>|
            s.is_active(id) <==> exists|i: int|
                0 <= i < s.stop_requests().len() && (#[trigger] s.stop_requests()[i]).id == id,
        forall|i: int, j: int|
            0 <= i < j < s.stop_requests().len() ==> (#[trigger] s.stop_requests()[i]).id != (
            #[trigger] s.stop_requests()[j]).id,
        forall|i: int|
            0 <= i < s.stop_requests().len() ==> {
                let request = #[trigger] s.stop_requests()[i];
                &&& s.registry.contains_key(request.id)
                &&& request.invocation == s.registry[request.id].stop()
            },
{
    let requests = s.stop_requests();
    assert forall|id: Seq<char>| s.is_active(id) implies exists|i: int|
        0 <= i < requests.len() && (#[trigger] requests[i]).id == id by {
        let k = s.desired.index_of(id);
        assert(requests[k].id == id);
    }
    assert forall|id: Seq<char>|
        (exists|i: int| 0 <= i < requests.len() && (#[trigger] requests[i]).id == id) implies s.is_active(
        id,
    ) by {
        let k = choose|i: int| 0 <= i < requests.len() && (#[trigger] requests[i]).id == id;
        assert(s.desired[k] == id);
    }
    assert forall|i: int| 0 <= i < requests.len() implies s.registry.contains_key(
        (#[trigger] requests[i]).id,
    ) by {
        assert(s.registry.contains_key(s.desired[i]));
    }
}

/// Taking an identifier out leaves only identifiers that were wanted before.
proof fn lemma_deactivated_within(s: SupervisorView, id: Seq<char>)
    requires
        s.wf(),
    ensures
        forall|i: int|
            0 <= i < deactivated(s.desired, id).len() ==> s.registry.contains_key(
                #[trigger] deactivated(s.desired, id)[i],
            ),
        !deactivated(s.desired, id).contains(id),
{
    lemma_deactivated(s.desired, id);
    let rest = deactivated(s.desired, id);
    assert forall|i: int| 0 <= i < rest.len() implies s.registry.contains_key(#[trigger] rest[i]) by {
        if s.desired.contains(id) {
            let k = s.desired.index_of(id);
            if i < k {
                assert(rest[i] == s.desired[i]);
            } else {
                assert(rest[i] == s.desired[i + 1]);
            }
        }
    }
    assert(!rest.to_set().contains(id));
}

} // verus!
