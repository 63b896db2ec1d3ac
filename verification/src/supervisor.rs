use vstd::prelude::*;

verus! {

/// What a non-blocking liveness probe of the tracked process reported.
#[derive(Clone, Copy, Debug, PartialEq, Eq, Structural)]
pub enum Liveness {
    /// The process has already exited.
    Exited,
    /// The process is still running.
    Alive,
    /// The probe itself failed.
    ProbeFailed,
}

/// The supervisor's view of the bridge-service process. The handle is
/// tracked by an opaque token that the caller pairs with the real OS
/// handle it holds.
#[derive(Clone, Copy, Debug, PartialEq, Eq, Structural)]
pub enum SupervisorState {
    /// No process is tracked.
    Idle,
    /// One process is tracked, under the given token.
    Running { token: u64 },
}

/// What a `start` request must do next.
#[derive(Clone, Copy, Debug, PartialEq, Eq, Structural)]
pub enum StartDecision {
    /// No live process is tracked: spawn one.
    Spawn,
    /// The tracked process is alive: leave it untouched and report the
    /// conflict.
    AlreadyRunning,
    /// The liveness probe failed: leave the handle untouched and
    /// report the failure.
    ProbeError,
}

/// What a `stop` request must do next.
#[derive(Clone, Copy, Debug, PartialEq, Eq, Structural)]
pub enum StopDecision {
    /// Terminate the process tracked under this token, then wait for
    /// its exit.
    Kill { token: u64 },
    /// Nothing is tracked: make no OS call and report the condition.
    NotRunning,
}

/// Owns the single process slot: at most one bridge-service process is
/// tracked at a time, and only these transitions may change the slot.
pub struct ProcessSupervisor {
    pub state: SupervisorState,
}

impl ProcessSupervisor {
    /// A supervisor tracking nothing.
    pub fn new() -> (r: ProcessSupervisor)
        ensures
            r.state == SupervisorState::Idle,
    {
        ProcessSupervisor { state: SupervisorState::Idle }
    }

    /// Decides a `start` request. `probe` is the liveness of the
    /// tracked process and must be given exactly when one is tracked;
    /// a live process is left untouched, a stale handle is discarded
    /// before spawning, and a failed probe changes nothing.
    pub fn on_start(&mut self, probe: Option<Liveness>) -> (r: StartDecision)
        requires
            (old(self).state is Running) <==> (probe is Some),
        ensures
            old(self).state is Idle ==> r == StartDecision::Spawn && final(self).state
                == SupervisorState::Idle,
            old(self).state is Running && probe == Some(Liveness::Alive) ==> r
                == StartDecision::AlreadyRunning && final(self).state == old(self).state,
            old(self).state is Running && probe == Some(Liveness::Exited) ==> r
                == StartDecision::Spawn && final(self).state == SupervisorState::Idle,
            old(self).state is Running && probe == Some(Liveness::ProbeFailed) ==> r
                == StartDecision::ProbeError && final(self).state == old(self).state,
    {
        match self.state {
            SupervisorState::Idle => StartDecision::Spawn,
            SupervisorState::Running { token: _ } => {
                match probe {
                    Some(Liveness::Alive) => StartDecision::AlreadyRunning,
                    Some(Liveness::Exited) => {
                        self.state = SupervisorState::Idle;
                        StartDecision::Spawn
                    },
                    Some(Liveness::ProbeFailed) => StartDecision::ProbeError,
                    None => StartDecision::ProbeError,
                }
            },
        }
    }

    /// Records a successful spawn: the new process is tracked under
    /// `token`.
    pub fn on_spawned(&mut self, token: u64)
        requires
            old(self).state is Idle,
        ensures
            final(self).state == (SupervisorState::Running { token }),
    {
        self.state = SupervisorState::Running { token };
    }

    /// Decides a `stop` request: the tracked process, if any, is to be
    /// killed and the slot cleared; with nothing tracked, no OS call is
    /// made.
    pub fn on_stop(&mut self) -> (r: StopDecision)
        ensures
            old(self).state is Idle ==> r == StopDecision::NotRunning && final(self).state
                == SupervisorState::Idle,
            forall|t: u64|
                old(self).state == (SupervisorState::Running { token: t }) ==> r
                    == (StopDecision::Kill { token: t }) && final(self).state
                    == SupervisorState::Idle,
    {
        match self.state {
            SupervisorState::Idle => StopDecision::NotRunning,
            SupervisorState::Running { token } => {
                self.state = SupervisorState::Idle;
                StopDecision::Kill { token }
            },
        }
    }
}

/// Picks the directory the bridge service is launched from, by fixed
/// precedence: an explicit override wins, then a packaged resource
/// directory that exists, then the development checkout when its
/// entry source is present, then the current directory.
pub fn resolve_service_path(
    env_override: Option<String>,
    resource_dir: Option<String>,
    resource_exists: bool,
    dev_entry_exists: bool,
) -> (r: String)
    ensures
        env_override is Some ==> r@ == env_override->0@,
        env_override is None && resource_dir is Some && resource_exists ==> r@
            == resource_dir->0@,
        env_override is None && !(resource_dir is Some && resource_exists) && dev_entry_exists
            ==> r@ == "../.."@,
        env_override is None && !(resource_dir is Some && resource_exists) && !dev_entry_exists
            ==> r@ == "."@,
{
    match env_override {
        Some(p) => p,
        None => {
            match resource_dir {
                Some(d) => {
                    if resource_exists {
                        d
                    } else if dev_entry_exists {
                        "../..".to_owned()
                    } else {
                        ".".to_owned()
                    }
                },
                None => {
                    if dev_entry_exists {
                        "../..".to_owned()
                    } else {
                        ".".to_owned()
                    }
                },
            }
        },
    }
}

/// The launch command: the packaged executable when present, else the
/// compiled script run by node, else the development run command.
/// `windows` picks the executable's file name; `exe_exists` and
/// `script_exists` report which artifacts are on disk.
pub fn get_bridge_start_command(
    service_path: &str,
    windows: bool,
    exe_exists: bool,
    script_exists: bool,
) -> (r: (String, Vec<String>, String))
    ensures
        exe_exists ==> {
            &&& r.0@ == service_path@ + "/dist/"@ + (if windows {
                "office-local-bridge-win.exe"@
            } else {
                "office-local-bridge"@
            })
            &&& r.1@.len() == 0
            &&& r.2@ == service_path@
        },
        !exe_exists && script_exists ==> {
            &&& r.0@ == "node"@
            &&& r.1@.len() == 1
            &&& r.1@[0]@ == service_path@ + "/dist/server.js"@
            &&& r.2@ == service_path@
        },
        !exe_exists && !script_exists ==> {
            &&& r.0@ == "npm"@
            &&& r.1@.len() == 2
            &&& r.1@[0]@ == "run"@
            &&& r.1@[1]@ == "dev"@
            &&& r.2@ == service_path@
        },
{
    let cwd: String = service_path.to_owned();
    if exe_exists {
        let mut cmd: String = service_path.to_owned();
        cmd.append("/dist/");
        if windows {
            cmd.append("office-local-bridge-win.exe");
        } else {
            cmd.append("office-local-bridge");
        }
        (cmd, Vec::new(), cwd)
    } else if script_exists {
        let mut script: String = service_path.to_owned();
        script.append("/dist/server.js");
        let mut args: Vec<String> = Vec::new();
        args.push(script);
        proof {
            assert(args@.len() == 1);
        }
        ("node".to_owned(), args, cwd)
    } else {
        let mut args: Vec<String> = Vec::new();
        args.push("run".to_owned());
        args.push("dev".to_owned());
        ("npm".to_owned(), args, cwd)
    }
}

} // verus!
