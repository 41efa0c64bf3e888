//! The initialization service: validates a request, decodes its serialized
//! configuration, invokes the caller-supplied simulation generator, and
//! drives the new simulation through its first lifecycle transition,
//! reporting a structured reply either way.

use crate::codec::{decode_config, spec_decode_config, Config, DecodeError};
use crate::errors::{
    map_simulation_error, sim_error_code, sim_error_text, simulation_error_message, to_error,
    ErrorCode, ReplyError,
};
use crate::errors::SimulationError;
use crate::simulation::{EndpointRegistry, SimInit, Simulation};
use crate::time::{timestamp_convertible, timestamp_to_monotonic, MonotonicTime, Timestamp};
use vstd::prelude::*;
use vstd::string::StringExecFns;

verus! {

/// An initialization request: an optional wire timestamp and the serialized
/// configuration bytes. Consumed once per call.
pub struct InitRequest {
    pub time: Option<Timestamp>,
    pub cfg: Vec<u8>,
}

/// An initialization reply: `Empty` on success, or one structured error.
#[derive(Debug)]
pub enum InitReply {
    Empty,
    Error(ReplyError),
}

/// How a generator invocation failed when it produced no simulation bench.
#[derive(Debug)]
pub enum GenError {
    /// The generator returned a typed simulation-construction error.
    Construction(SimulationError),
    /// The generator aborted abnormally. Carries the abort's text payload
    /// when there was one; the isolation boundary that catches the abort
    /// and extracts the text lives with the caller, outside this service.
    Aborted(Option<String>),
}

/// The caller-supplied simulation generator. It is invoked once per
/// initialization request, each invocation independent, and must report
/// every failure mode as a `GenError` rather than letting it escape.
pub trait SimGen {
    /// Creates a new simulation blueprint, complemented by a registry that
    /// exposes the public event and query interface, from a typed
    /// configuration.
    fn generate(&mut self, cfg: Config) -> Result<(SimInit, EndpointRegistry), GenError>;
}

/// The reply message when the request carries no usable start time.
pub open spec fn invalid_time_text() -> Seq<char> {
    "simulation start time not provided"@
}

/// The reply message when the configuration bytes cannot be decoded.
pub open spec fn decode_failure_text(e: DecodeError) -> Seq<char> {
    "the initializer configuration could not be deserialized: "@ + e.text_spec()
}

/// The reply message when the generator aborted abnormally, with the
/// abort's text payload when one could be extracted.
pub open spec fn abort_text(payload: Option<Seq<char>>) -> Seq<char> {
    match payload {
        Some(p) => "the simulation initializer has panicked with the message `"@ + p + "`"@,
        None => "the simulation initializer has panicked"@,
    }
}

/// The reply message when the first lifecycle transition failed. The error
/// code deliberately stays the abnormal-termination one: the wire protocol
/// conflates the two failure classes.
pub open spec fn startup_fault_text(m: Seq<char>) -> Seq<char> {
    "the simulation initializer has panicked: "@ + m
}

/// The view of an optional owned text payload.
pub open spec fn opt_string_view(p: Option<String>) -> Option<Seq<char>> {
    match p {
        Some(s) => Some(s@),
        None => None,
    }
}

/// Whether `r` is an error reply carrying exactly this code and message.
pub open spec fn is_error_reply(r: InitReply, code: ErrorCode, message: Seq<char>) -> bool {
    r matches InitReply::Error(e) && e.code == code && e.message@ == message
}

/// The monotonic start time a request validates to, if any.
pub open spec fn request_start_time(time: Option<Timestamp>) -> Option<MonotonicTime> {
    match time {
        None => None,
        Some(ts) => if timestamp_convertible(ts) {
            Some(MonotonicTime { secs: ts.secs, nanos: ts.nanos as u32 })
        } else {
            None
        },
    }
}

/// How a generator outcome is settled into a reply and, on success, a
/// running bench:
/// - an abnormal termination becomes `InitializerPanic`, with the text
///   payload embedded in the message when there is one;
/// - a typed construction error becomes its mapped domain code with that
///   error's description;
/// - a blueprint whose first lifecycle transition faults becomes
///   `InitializerPanic` with the fault appended to the message;
/// - otherwise the reply is `Empty` and the bench holds the running
///   simulation, started at `start_time`, whose scheduler has exactly the
///   registry's event sources wired before the first lifecycle transition
///   ran, together with that registry.
pub open spec fn settled(
    start_time: MonotonicTime,
    outcome: Result<(SimInit, EndpointRegistry), GenError>,
    r: (InitReply, Option<(Simulation, EndpointRegistry)>),
) -> bool {
    match outcome {
        Result::Err(GenError::Aborted(p)) => is_error_reply(
            r.0,
            ErrorCode::InitializerPanic,
            abort_text(opt_string_view(p)),
        ) && r.1 is None,
        Result::Err(GenError::Construction(e)) => is_error_reply(
            r.0,
            sim_error_code(e),
            sim_error_text(e),
        ) && r.1 is None,
        Result::Ok(bench) => match bench.0.startup_fault_spec() {
            Some(m) => is_error_reply(r.0, ErrorCode::InitializerPanic, startup_fault_text(m))
                && r.1 is None,
            None => {
                &&& r.0 is Empty
                &&& r.1 matches Some(b) && b.0.start_time == start_time
                    && b.0.scheduler_sources@ == bench.1.event_source_registry.source_ids@
                    && b.1.event_source_registry.source_ids@
                    == bench.1.event_source_registry.source_ids@
            },
        },
    }
}

/// Settles one generator outcome: registers the registry's event sources
/// against the blueprint's scheduler surface, runs the first lifecycle
/// transition, and builds the reply, exactly as `settled` describes for
/// every possible outcome value.
pub fn settle(
    start_time: MonotonicTime,
    outcome: Result<(SimInit, EndpointRegistry), GenError>,
) -> (r: (InitReply, Option<(Simulation, EndpointRegistry)>))
    ensures
        settled(start_time, outcome, r),
{
    match outcome {
        Result::Err(GenError::Aborted(Some(p))) => {
            let msg = String::from_str(
                "the simulation initializer has panicked with the message `",
            ).concat(p.as_str()).concat("`");
            (InitReply::Error(to_error(ErrorCode::InitializerPanic, msg)), None)
        },
        Result::Err(GenError::Aborted(None)) => {
            let msg = String::from_str("the simulation initializer has panicked");
            (InitReply::Error(to_error(ErrorCode::InitializerPanic, msg)), None)
        },
        Result::Err(GenError::Construction(e)) => {
            (InitReply::Error(to_error(map_simulation_error(e), simulation_error_message(e))), None)
        },
        Result::Ok((sim_init, registry)) => {
            let mut sim_init = sim_init;
            registry.event_source_registry.register_scheduler(&mut sim_init.scheduler_registry);
            match sim_init.init(start_time) {
                Ok(simu) => (InitReply::Empty, Some((simu, registry))),
                Err(m) => {
                    let msg = String::from_str(
                        "the simulation initializer has panicked: ",
                    ).concat(m.as_str());
                    (InitReply::Error(to_error(ErrorCode::InitializerPanic, msg)), None)
                },
            }
        },
    }
}

/// Whenever the generator succeeds and its blueprint carries no startup
/// fault, the settled reply is `Empty` and a bench is present: the running
/// simulation starts at the validated time, and its scheduler holds exactly
/// the registry's event sources, wired before the first lifecycle
/// transition ran.
pub proof fn lemma_success_yields_running_bench(
    start_time: MonotonicTime,
    outcome: Result<(SimInit, EndpointRegistry), GenError>,
    r: (InitReply, Option<(Simulation, EndpointRegistry)>),
)
    requires
        settled(start_time, outcome, r),
        outcome matches Ok(bench) && bench.0.startup_fault_spec() is None,
    ensures
        r.0 is Empty,
        r.1 matches Some(b) && b.0.start_time == start_time && b.0.scheduler_sources@
            == outcome->Ok_0.1.event_source_registry.source_ids@,
{
}

/// The initialization service. It owns the caller-supplied simulation
/// generator for its lifetime and creates a new simulation bench from a
/// serialized configuration every time a remote client (re)starts the
/// simulation.
pub struct InitService<G: SimGen> {
    sim_gen: G,
}

impl<G: SimGen> InitService<G> {
    /// The held generator.
    pub closed spec fn generator(&self) -> G {
        self.sim_gen
    }

    /// Creates a new `InitService` around the given generator.
    pub fn new(sim_gen: G) -> (s: Self)
        ensures
            s.generator() == sim_gen,
    {
        InitService { sim_gen }
    }

    /// Initializes the simulation based on the specified configuration.
    ///
    /// A request without a usable start time is rejected with
    /// `InvalidTime`; the generator is not invoked and the service is left
    /// unchanged. With a valid time but undecodable configuration bytes the
    /// reply is `InvalidMessage` with the decode failure's description; the
    /// generator is again not invoked. Otherwise the generator runs once on
    /// the decoded configuration and its outcome is settled as `settled`
    /// describes. A bench is returned exactly when the reply is `Empty`,
    /// and it then runs from the validated start time with the registry's
    /// event sources wired to its scheduler.
    pub fn init(&mut self, request: InitRequest) -> (r: (
        InitReply,
        Option<(Simulation, EndpointRegistry)>,
    ))
        ensures
            request_start_time(request.time) is None ==> is_error_reply(
                r.0,
                ErrorCode::InvalidTime,
                invalid_time_text(),
            ) && r.1 is None && *final(self) == *old(self),
            request_start_time(request.time) matches Some(t) ==> match spec_decode_config(
                request.cfg@,
            ) {
                Result::Err(e) => is_error_reply(r.0, ErrorCode::InvalidMessage, decode_failure_text(e))
                    && r.1 is None && *final(self) == *old(self),
                Result::Ok(_) => exists|o: Result<(SimInit, EndpointRegistry), GenError>|
                    settled(t, o, r),
            },
            r.0 is Empty <==> r.1 is Some,
            match (request_start_time(request.time), r.1) {
                (Some(t), Some(b)) => b.0.start_time == t && b.0.scheduler_sources@
                    == b.1.event_source_registry.source_ids@,
                _ => true,
            },
    {
        let start_time = match request.time {
            None => {
                let msg = String::from_str("simulation start time not provided");
                return (InitReply::Error(to_error(ErrorCode::InvalidTime, msg)), None);
            },
            Some(ts) => match timestamp_to_monotonic(ts) {
                None => {
                    let msg = String::from_str("simulation start time not provided");
                    return (InitReply::Error(to_error(ErrorCode::InvalidTime, msg)), None);
                },
                Some(t) => t,
            },
        };
        let cfg = match decode_config(&request.cfg) {
            Err(e) => {
                let detail = e.text();
                let msg = String::from_str(
                    "the initializer configuration could not be deserialized: ",
                ).concat(detail.as_str());
                return (InitReply::Error(to_error(ErrorCode::InvalidMessage, msg)), None);
            },
            Ok(c) => c,
        };
        let outcome = self.sim_gen.generate(cfg);
        let ghost o = outcome;
        let r = settle(start_time, outcome);
        proof {
            assert(settled(start_time, o, r));
        }
        r
    }
}

} // verus!
