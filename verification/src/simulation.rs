//! Models of the simulation-side collaborators of the initialization
//! protocol: the endpoint registry's event-source subsystem, the blueprint's
//! scheduler-registration surface, the blueprint itself, and the running
//! simulation handle. The logic reads only what these types hold as plain
//! values: event-source identifiers, the start time, and whether the first
//! lifecycle transition faults.

use crate::time::MonotonicTime;
use vstd::prelude::*;

verus! {

/// The blueprint's scheduler-registration surface: records which external
/// event sources have been wired to the simulation's time-advancement
/// mechanism.
pub struct SchedulerRegistry {
    pub wired_sources: Vec<u64>,
}

impl SchedulerRegistry {
    /// A surface with nothing wired yet.
    pub fn new() -> (r: Self)
        ensures
            r.wired_sources@ == Seq::<u64>::empty(),
    {
        SchedulerRegistry { wired_sources: Vec::new() }
    }
}

/// The event-source subsystem of an endpoint registry: the identifiers of
/// the external event sources the registry exposes, in registration order.
pub struct EventSourceRegistry {
    pub source_ids: Vec<u64>,
}

impl EventSourceRegistry {
    /// An empty subsystem.
    pub fn new() -> (r: Self)
        ensures
            r.source_ids@ == Seq::<u64>::empty(),
    {
        EventSourceRegistry { source_ids: Vec::new() }
    }

    /// Exposes one more event source.
    pub fn add_source(&mut self, id: u64)
        ensures
            final(self).source_ids@ == old(self).source_ids@.push(id),
    {
        self.source_ids.push(id);
    }

    /// Wires every event source of this subsystem to the given
    /// scheduler-registration surface; whatever was wired before is
    /// superseded. This step has no error path.
    pub fn register_scheduler(&self, scheduler: &mut SchedulerRegistry)
        ensures
            final(scheduler).wired_sources@ == self.source_ids@,
    {
        let mut wired: Vec<u64> = Vec::new();
        let mut i: usize = 0;
        while i < self.source_ids.len()
            invariant
                i <= self.source_ids.len(),
                wired@ == self.source_ids@.subrange(0, i as int),
            decreases self.source_ids.len() - i,
        {
            wired.push(self.source_ids[i]);
            i = i + 1;
        }
        proof {
            assert(wired@ =~= self.source_ids@);
        }
        scheduler.wired_sources = wired;
    }
}

/// The endpoint registry: the collection of named event/query interfaces a
/// simulation instance exposes to remote callers. Only its event-source
/// subsystem takes part in initialization.
pub struct EndpointRegistry {
    pub event_source_registry: EventSourceRegistry,
}

impl EndpointRegistry {
    /// A registry with an empty event-source subsystem.
    pub fn new() -> (r: Self)
        ensures
            r.event_source_registry.source_ids@ == Seq::<u64>::empty(),
    {
        EndpointRegistry { event_source_registry: EventSourceRegistry::new() }
    }
}

/// A running simulation handle, produced by a blueprint's first lifecycle
/// transition.
pub struct Simulation {
    /// The validated start time the simulation was initialized with.
    pub start_time: MonotonicTime,
    /// The event sources wired to the scheduler before the first lifecycle
    /// transition ran.
    pub scheduler_sources: Vec<u64>,
}

/// A not-yet-running simulation blueprint, as the generator produces it.
///
/// Whether the first lifecycle transition will fault is part of the
/// blueprint: a valid-but-unready configuration is modeled by a blueprint
/// that carries a startup fault message.
pub struct SimInit {
    /// The scheduler-registration surface of this blueprint.
    pub scheduler_registry: SchedulerRegistry,
    /// The fault the first lifecycle transition will report, if any.
    pub startup_fault: Option<String>,
}

impl SimInit {
    /// The fault the first lifecycle transition will report, if any.
    pub open spec fn startup_fault_spec(&self) -> Option<Seq<char>> {
        match self.startup_fault {
            Some(m) => Some(m@),
            None => None,
        }
    }

    /// A blueprint whose first lifecycle transition succeeds.
    pub fn new() -> (r: Self)
        ensures
            r.startup_fault_spec() is None,
            r.scheduler_registry.wired_sources@ == Seq::<u64>::empty(),
    {
        SimInit { scheduler_registry: SchedulerRegistry::new(), startup_fault: None }
    }

    /// A blueprint whose first lifecycle transition will fail with the
    /// given message: a valid configuration that cannot be brought up.
    pub fn with_startup_fault(message: String) -> (r: Self)
        ensures
            r.startup_fault_spec() == Some(message@),
            r.scheduler_registry.wired_sources@ == Seq::<u64>::empty(),
    {
        SimInit { scheduler_registry: SchedulerRegistry::new(), startup_fault: Some(message) }
    }

    /// The first lifecycle transition: consumes the blueprint and produces a
    /// running simulation handle, or the blueprint's startup fault.
    ///
    /// Succeeds exactly when the blueprint carries no startup fault; the
    /// handle then runs from `start_time` with exactly the event sources
    /// that were wired to the scheduler surface.
    pub fn init(self, start_time: MonotonicTime) -> (r: Result<Simulation, String>)
        ensures
            r is Ok <==> self.startup_fault_spec() is None,
            r matches Ok(sim) ==> sim.start_time == start_time && sim.scheduler_sources@
                == self.scheduler_registry.wired_sources@,
            r matches Err(m) ==> self.startup_fault_spec() == Some(m@),
    {
        match self.startup_fault {
            None => Ok(
                Simulation {
                    start_time,
                    scheduler_sources: self.scheduler_registry.wired_sources,
                },
            ),
            Some(m) => Err(m),
        }
    }
}

} // verus!
