//! The sidecar process manager: the lifecycle state machine that owns the
//! configuration and the believed-running process handle.
//!
//! The operating-system work — spawning the binary, sending the
//! termination signal, checking for an exited child, calling the liveness
//! endpoint — stays outside the library.  Its observations enter the
//! state machine here as plain values, and every transition and verdict is
//! decided by a verified function.  The phases move `Stopped → Starting →
//! Healthy → Stopped` on a normal run, and `Healthy → Crashed → Stopped`
//! when the process exits unexpectedly, which is detected lazily on the
//! next liveness check.

use vstd::prelude::*;
use crate::config::{LlamaConfig, ModelSize, spec_server_args, build_server_args};
use crate::errors::SidecarError;
use crate::numfmt::{spec_dec, append_u32};

verus! {

/// The lifecycle phase of the managed process.
#[derive(Debug, Clone, Copy, PartialEq, Eq, Structural)]
pub enum SidecarPhase {
    Stopped,
    Starting,
    Healthy,
    Crashed,
}

/// What the start flow decides once the liveness of the current process is
/// known: nothing to do, a missing binary, or a spawn with the launch
/// arguments of the current configuration.
#[derive(Debug)]
pub enum StartStep {
    AlreadyRunning,
    MissingBinary,
    Spawn(Vec<String>),
}

/// The service endpoint derived from a port: the loopback base URL, the
/// single source of truth for every call against the sidecar.
pub open spec fn spec_server_url(port: nat) -> Seq<char> {
    "http://127.0.0.1:"@ + spec_dec(port)
}

/// Renders the service endpoint for a port.
pub fn server_url_for_port(port: u16) -> (r: String)
    ensures
        r@ == spec_server_url(port as nat),
{
    let mut s = String::new();
    s.append("http://127.0.0.1:");
    append_u32(&mut s, port as u32);
    proof {
        assert(s@ =~= spec_server_url(port as nat));
    }
    s
}

/// The reported state of the managed server.
#[derive(Debug, Clone)]
pub struct ServerStatus {
    pub is_running: bool,
    pub server_url: String,
    pub model_path: String,
    pub port: u16,
    pub model_size: ModelSize,
    pub gpu_layers: i32,
    pub memory_usage: Option<u64>,
}

/// The sidecar process manager.  At most one process handle is alive per
/// manager; holding a handle does not imply liveness, which takes the
/// two-phase check of [`LlamaSidecar::is_running`].
#[derive(Debug)]
pub struct LlamaSidecar {
    /// The active configuration; replaced wholesale, only while stopped.
    pub config: LlamaConfig,
    /// The lifecycle phase.
    pub phase: SidecarPhase,
    /// The believed-running process, by its identifier; `None` exactly
    /// when stopped.
    pub process: Option<u64>,
    /// The endpoint derived from the configured port.
    pub server_url: String,
}

impl LlamaSidecar {
    /// Well-formedness: the handle exists exactly outside the stopped
    /// phase, and the endpoint always matches the configured port.
    pub open spec fn wf(&self) -> bool {
        &&& (self.phase is Stopped <==> self.process is None)
        &&& self.server_url@ == spec_server_url(self.config.port as nat)
    }

    /// A fresh, stopped manager over the given configuration.
    pub fn new(config: LlamaConfig) -> (r: LlamaSidecar)
        ensures
            r.wf(),
            r.config == config,
            r.phase is Stopped,
            r.process is None,
    {
        let url = server_url_for_port(config.port);
        LlamaSidecar { config, phase: SidecarPhase::Stopped, process: None, server_url: url }
    }

    /// The current configuration, copied.
    pub fn get_config(&self) -> (r: LlamaConfig)
        ensures
            r == self.config,
    {
        self.config.duplicate()
    }

    /// The current service endpoint, copied.
    pub fn get_server_url(&self) -> (r: String)
        ensures
            r@ == self.server_url@,
    {
        self.server_url.clone()
    }

    /// The two-phase liveness check, fed with what the caller observed of
    /// the process: whether the child was seen exited (or its state could
    /// not be read), and whether the liveness endpoint answered healthy.
    /// Without a handle the manager is not running.  An exited process is
    /// not running, and its discovery moves the phase to `Crashed` while
    /// the stale handle stays until a stop clears it.  A present process
    /// counts as running only when the endpoint answered: OS presence
    /// without wire-level responsiveness is not running.
    pub fn is_running(&mut self, exit_observed: bool, healthy: bool) -> (r: bool)
        requires
            old(self).wf(),
        ensures
            final(self).wf(),
            final(self).config == old(self).config,
            final(self).process == old(self).process,
            final(self).server_url == old(self).server_url,
            old(self).process is None ==> r == false && *final(self) == *old(self),
            old(self).process is Some && exit_observed ==> r == false && final(self).phase
                is Crashed,
            old(self).process is Some && !exit_observed ==> r == healthy && final(self).phase
                == old(self).phase,
    {
        if self.process.is_none() {
            return false;
        }
        if exit_observed {
            self.phase = SidecarPhase::Crashed;
            return false;
        }
        healthy
    }

    /// The start decision, once liveness is known: a running process makes
    /// the start a no-op, a missing binary fails it, and otherwise the
    /// process is to be spawned with the launch arguments of the current
    /// configuration.
    pub fn start_decision(&self, running: bool, binary_exists: bool) -> (r: StartStep)
        ensures
            r is Spawn <==> spec_start_spawns(running, binary_exists),
            running ==> r is AlreadyRunning,
            !running && !binary_exists ==> r is MissingBinary,
            !running && binary_exists ==> (r matches StartStep::Spawn(args) && args.deep_view()
                == spec_server_args(self.config)),
    {
        if running {
            StartStep::AlreadyRunning
        } else if !binary_exists {
            StartStep::MissingBinary
        } else {
            StartStep::Spawn(build_server_args(&self.config))
        }
    }

    /// Records a fresh spawn: the new handle replaces any stale one and
    /// the manager is starting.  Never called on a healthy manager: the
    /// start flow is a no-op there.
    pub fn on_spawned(&mut self, pid: u64)
        requires
            old(self).wf(),
            !(old(self).phase is Healthy),
        ensures
            final(self).wf(),
            final(self).config == old(self).config,
            final(self).server_url == old(self).server_url,
            final(self).phase is Starting,
            final(self).process == Some(pid),
    {
        self.process = Some(pid);
        self.phase = SidecarPhase::Starting;
    }

    /// Ends the start flow once the bounded health wait has settled: a
    /// ready endpoint makes the manager healthy, while a timeout leaves
    /// the process running under its handle, still starting, and fails
    /// the start with `HealthTimeout`; a later stop can clean it up.
    pub fn on_health_result(&mut self, ready: bool) -> (r: Result<(), SidecarError>)
        requires
            old(self).wf(),
            old(self).phase is Starting,
        ensures
            final(self).wf(),
            final(self).config == old(self).config,
            final(self).process == old(self).process,
            final(self).server_url == old(self).server_url,
            ready ==> r is Ok && final(self).phase is Healthy,
            !ready ==> r is Err && r->Err_0 is HealthTimeout && final(self).phase is Starting,
    {
        if ready {
            self.phase = SidecarPhase::Healthy;
            Ok(())
        } else {
            Err(SidecarError::HealthTimeout)
        }
    }

    /// Begins a stop: the handle to signal, if any.  Without one the stop
    /// is a no-op success and nothing changes.
    pub fn stop_begin(&self) -> (r: Option<u64>)
        ensures
            r == self.process,
    {
        self.process
    }

    /// Ends a stop after the signal was sent and the exit awaited: the
    /// handle is cleared and the manager stopped either way, and a failure
    /// to send the signal is surfaced as a `Process` error, never dropped.
    pub fn on_stop_result(&mut self, signal_ok: bool) -> (r: Result<(), SidecarError>)
        requires
            old(self).wf(),
        ensures
            final(self).wf(),
            final(self).config == old(self).config,
            final(self).server_url == old(self).server_url,
            final(self).phase is Stopped,
            final(self).process is None,
            signal_ok <==> r is Ok,
            !signal_ok ==> r->Err_0 is Process,
    {
        self.process = None;
        self.phase = SidecarPhase::Stopped;
        if signal_ok {
            Ok(())
        } else {
            Err(SidecarError::Process(String::from_str("failed to signal the sidecar process")))
        }
    }

    /// Replaces the configuration and recomputes the endpoint.  Allowed
    /// only while stopped: switching models is stop, reconfigure, start,
    /// under one exclusive guard — never a hot swap on a live process.
    pub fn reconfigure(&mut self, config: LlamaConfig)
        requires
            old(self).wf(),
            old(self).phase is Stopped,
        ensures
            final(self).wf(),
            final(self).phase is Stopped,
            final(self).process is None,
            final(self).config == config,
            final(self).server_url@ == spec_server_url(config.port as nat),
    {
        let url = server_url_for_port(config.port);
        self.config = config;
        self.server_url = url;
    }

    /// The reported status: the liveness verdict the caller just obtained,
    /// the endpoint, and the configured model path, port and GPU layers.
    pub fn status(&self, running: bool, model_size: ModelSize) -> (r: ServerStatus)
        ensures
            r.is_running == running,
            r.server_url@ == self.server_url@,
            r.model_path@ == self.config.model_path@,
            r.port == self.config.port,
            r.model_size == model_size,
            r.gpu_layers == self.config.gpu_layers,
            r.memory_usage is None,
    {
        ServerStatus {
            is_running: running,
            server_url: self.server_url.clone(),
            model_path: self.config.model_path.clone(),
            port: self.config.port,
            model_size,
            gpu_layers: self.config.gpu_layers,
            memory_usage: None,
        }
    }
}

/// Whether the start flow spawns: only when the process is not running and
/// the binary exists.
pub open spec fn spec_start_spawns(running: bool, binary_exists: bool) -> bool {
    !running && binary_exists
}

/// Starting is idempotent on a running manager: however often the start
/// flow is repeated while the liveness check reports the process running,
/// no spawn step is decided — by [`LlamaSidecar::start_decision`]'s
/// contract each such start is a no-op — so the process identity is
/// unchanged.
pub proof fn lemma_start_idempotent(e1: bool, e2: bool)
    ensures
        !spec_start_spawns(true, e1),
        !spec_start_spawns(true, e2),
{
}

/// The model size that fits the power state: the small model under low
/// battery power, the large model otherwise.
pub fn check_and_switch_model(battery_level: u8, is_on_battery: bool) -> (r: ModelSize)
    ensures
        is_on_battery && battery_level < 20 ==> r == ModelSize::Small,
        !(is_on_battery && battery_level < 20) ==> r == ModelSize::Large,
{
    if is_on_battery && battery_level < 20 {
        ModelSize::Small
    } else {
        ModelSize::Large
    }
}

} // verus!
