use vstd::prelude::*;

use crate::config::{
    daemon_args_spec, daemon_dir, host_port, join_path, login_args_spec, or_default,
    string_views, AuthRequest, DaemonConfig, RelayPlan, TunnelConfig, CLI_PROGRAM,
    DAEMON_PROGRAM, DEFAULT_SERVER_IP, DEFAULT_SERVER_PORT, NODE_HOSTNAME, RELAY_LISTEN_ADDR, SOCKET_FILE_NAME, SOCKS_PROXY_ADDR,
    STATE_FILE_NAME,
};
use crate::error::StartError;
use crate::poller::{
    poll_decision, PollDecision, ReadinessPoller, DEFAULT_MAX_ATTEMPTS, POLL_INTERVAL_MILLIS,
};

verus! {

/// Where the startup sequence stands.
#[derive(Clone, Copy, Debug, PartialEq, Eq, Structural)]
pub enum Phase {
    /// Creating the daemon's private directory.
    PreparingDir,
    /// Starting the daemon process.
    Spawning,
    /// Looking for the daemon's control socket.
    Polling,
    /// Waiting one interval before the next look.
    Waiting,
    /// Running the companion to join the network.
    LoggingIn,
    /// Authenticated; the relay has been handed its plan.
    Relaying,
    /// The sequence stopped on a failure; nothing more is started.
    Failed,
}

/// What the host reports back after carrying out an action.
#[derive(Clone, Debug)]
pub enum Event {
    /// The action finished: directory created, daemon started, wait over.
    Completed,
    /// The action could not be carried out, with the cause.
    Failed(String),
    /// Result of looking for the control socket.
    SocketProbed(bool),
    /// The companion exited: its exit code (none if a signal ended it) and
    /// its standard error as text.
    LoginExited { exit_code: Option<i32>, stderr: String },
}

/// What the host is asked to do next.
#[derive(Clone, Debug)]
pub enum Action {
    CreateDir { path: String },
    SpawnDaemon { program: String, args: Vec<String> },
    ProbeSocket { path: String },
    Sleep { millis: u64 },
    RunLogin { program: String, args: Vec<String> },
    StartRelay(RelayPlan),
    Stop(StartError),
    /// The event does not concern the current phase: nothing to do.
    Idle,
}

/// The startup sequence: daemon, readiness, authentication, relay. Each step
/// takes the outcome of the previous action and names the next one; the host
/// performs the I/O.
#[derive(Clone, Debug)]
pub struct Orchestrator {
    pub phase: Phase,
    pub poller: ReadinessPoller,
    pub daemon: DaemonConfig,
    pub login: AuthRequest,
    pub relay: RelayPlan,
}

/// The phase entered, and the attempts spent, after one event.
pub open spec fn next_state(phase: Phase, attempts: nat, max_attempts: nat, e: Event) -> (Phase, nat) {
    match (phase, e) {
        (Phase::PreparingDir, Event::Completed) => (Phase::Spawning, attempts),
        (Phase::PreparingDir, Event::Failed(_)) => (Phase::Failed, attempts),
        (Phase::Spawning, Event::Completed) => (Phase::Polling, attempts),
        (Phase::Spawning, Event::Failed(_)) => (Phase::Failed, attempts),
        (Phase::Polling, Event::SocketProbed(exists)) => match poll_decision(
            attempts,
            max_attempts,
            exists,
        ) {
            PollDecision::Ready => (Phase::LoggingIn, attempts),
            PollDecision::Wait => (Phase::Waiting, attempts + 1),
            PollDecision::TimedOut => (Phase::Failed, attempts),
        },
        (Phase::Waiting, Event::Completed) => (Phase::Polling, attempts),
        (Phase::LoggingIn, Event::LoginExited { exit_code, .. }) => if exit_code == Some(0i32) {
            (Phase::Relaying, attempts)
        } else {
            (Phase::Failed, attempts)
        },
        (Phase::LoggingIn, Event::Failed(_)) => (Phase::Failed, attempts),
        _ => (phase, attempts),
    }
}

/// The failure reported when `e` ends the sequence in `phase`.
pub open spec fn failure_of(phase: Phase, e: Event) -> StartError {
    match (phase, e) {
        (Phase::PreparingDir, Event::Failed(m)) => StartError::CreateDir(m),
        (Phase::Spawning, Event::Failed(m)) => StartError::Spawn(m),
        (Phase::LoggingIn, Event::Failed(m)) => StartError::LoginLaunch(m),
        (Phase::LoggingIn, Event::LoginExited { exit_code, stderr }) => StartError::Auth {
            exit_code: match exit_code {
                Some(c) => c,
                None => -1i32,
            },
            stderr,
        },
        _ => StartError::Timeout,
    }
}

/// The program-and-arguments form of an action that runs a process.
pub open spec fn runs(a: Action, program: Seq<char>, args: Seq<Seq<char>>) -> bool {
    match a {
        Action::SpawnDaemon { program: p, args: v } => p@ == program && string_views(v@) == args,
        Action::RunLogin { program: p, args: v } => p@ == program && string_views(v@) == args,
        _ => false,
    }
}

impl Orchestrator {
    /// The phase and the attempts spent so far.
    pub open spec fn state(&self) -> (Phase, nat) {
        (self.phase, self.poller.attempts as nat)
    }

    pub open spec fn wf(&self) -> bool {
        &&& self.poller.wf()
        &&& self.login.socket_path == self.daemon.socket_path
    }

    /// The action taken on entering `self.phase` from `before` after event `e`.
    pub open spec fn entry_action(&self, before: Phase, e: Event, a: Action) -> bool {
        if self.phase == before {
            a is Idle
        } else {
            match self.phase {
                Phase::Spawning => runs(
                    a,
                    DAEMON_PROGRAM@,
                    daemon_args_spec(self.daemon.state_file_path@, self.daemon.socket_path@),
                ) && a is SpawnDaemon,
                Phase::Polling => a is ProbeSocket && a->ProbeSocket_path == self.daemon.socket_path,
                Phase::Waiting => a is Sleep && a->Sleep_millis == POLL_INTERVAL_MILLIS,
                Phase::LoggingIn => runs(
                    a,
                    CLI_PROGRAM@,
                    login_args_spec(
                        self.login.socket_path@,
                        self.login.auth_key@,
                        self.login.hostname@,
                        self.login.accept_routes,
                    ),
                ) && a is RunLogin,
                Phase::Relaying => a is StartRelay && a->StartRelay_0 == self.relay,
                Phase::Failed => a is Stop && a->Stop_0 == failure_of(before, e),
                Phase::PreparingDir => false,
            }
        }
    }

    /// Begins the sequence from the environment's values and the
    /// application's data directory. Without a key it stops at once, before
    /// any directory or process is touched.
    pub fn start(
        auth_key: Option<String>,
        server_ip: Option<String>,
        server_port: Option<String>,
        data_dir: &str,
    ) -> (r: (Orchestrator, Action))
        ensures
            r.0.wf(),
            r.0.poller.attempts == 0,
            r.0.poller.max_attempts == DEFAULT_MAX_ATTEMPTS,
            auth_key is None ==> r.0.phase == Phase::Failed && r.1 is Stop
                && r.1->Stop_0 is MissingAuthKey,
            auth_key is Some ==> {
                &&& r.0.phase == Phase::PreparingDir
                &&& r.1 is CreateDir
                &&& r.1->CreateDir_path@ == daemon_dir(data_dir@)
                &&& r.0.daemon.dir@ == daemon_dir(data_dir@)
                &&& r.0.daemon.state_file_path@ == join_path(daemon_dir(data_dir@), STATE_FILE_NAME@)
                &&& r.0.daemon.socket_path@ == join_path(daemon_dir(data_dir@), SOCKET_FILE_NAME@)
                &&& r.0.login.auth_key == auth_key->Some_0
                &&& r.0.login.hostname@ == NODE_HOSTNAME@
                &&& r.0.login.accept_routes
                &&& r.0.relay.listen_addr@ == RELAY_LISTEN_ADDR@
                &&& r.0.relay.socks_addr@ == SOCKS_PROXY_ADDR@
                &&& r.0.relay.target@ == host_port(
                    or_default(server_ip, DEFAULT_SERVER_IP@),
                    or_default(server_port, DEFAULT_SERVER_PORT@),
                )
            },
    {
        let daemon = DaemonConfig::in_data_dir(data_dir);
        let poller = ReadinessPoller::new(DEFAULT_MAX_ATTEMPTS);
        match TunnelConfig::resolve(auth_key, server_ip, server_port) {
            None => {
                let login = AuthRequest::for_node(String::new(), daemon.socket_path.clone());
                let relay = RelayPlan {
                    listen_addr: String::from_str(RELAY_LISTEN_ADDR),
                    socks_addr: String::from_str(SOCKS_PROXY_ADDR),
                    target: String::new(),
                };
                (
                    Orchestrator { phase: Phase::Failed, poller, daemon, login, relay },
                    Action::Stop(StartError::MissingAuthKey),
                )
            },
            Some(tunnel) => {
                let relay = RelayPlan::for_tunnel(&tunnel);
                let login = AuthRequest::for_node(tunnel.auth_key, daemon.socket_path.clone());
                let action = Action::CreateDir { path: daemon.dir.clone() };
                (Orchestrator { phase: Phase::PreparingDir, poller, daemon, login, relay }, action)
            },
        }
    }

    fn enter(&mut self, phase: Phase) -> (r: Action)
        requires
            old(self).wf(),
            phase != Phase::Failed,
            phase != Phase::PreparingDir,
            phase != old(self).phase,
        ensures
            final(self).phase == phase,
            final(self).poller == old(self).poller,
            final(self).daemon == old(self).daemon,
            final(self).login == old(self).login,
            final(self).relay == old(self).relay,
            final(self).entry_action(old(self).phase, Event::Completed, r),
    {
        self.phase = phase;
        match phase {
            Phase::Spawning => Action::SpawnDaemon {
                program: String::from_str(DAEMON_PROGRAM),
                args: self.daemon.daemon_args(),
            },
            Phase::Polling => Action::ProbeSocket { path: self.daemon.socket_path.clone() },
            Phase::Waiting => Action::Sleep { millis: POLL_INTERVAL_MILLIS },
            Phase::LoggingIn => Action::RunLogin {
                program: String::from_str(CLI_PROGRAM),
                args: self.login.login_args(),
            },
            _ => Action::StartRelay(
                RelayPlan {
                    listen_addr: self.relay.listen_addr.clone(),
                    socks_addr: self.relay.socks_addr.clone(),
                    target: self.relay.target.clone(),
                },
            ),
        }
    }

    fn fail(&mut self, error: StartError) -> (r: Action)
        ensures
            final(self).phase == Phase::Failed,
            final(self).poller == old(self).poller,
            final(self).daemon == old(self).daemon,
            final(self).login == old(self).login,
            final(self).relay == old(self).relay,
            r is Stop && r->Stop_0 == error,
    {
        self.phase = Phase::Failed;
        Action::Stop(error)
    }

    /// Takes the outcome of the last action and names the next one.
    pub fn step(&mut self, event: Event) -> (r: Action)
        requires
            old(self).wf(),
        ensures
            final(self).wf(),
            final(self).state() == next_state(
                old(self).phase,
                old(self).poller.attempts as nat,
                old(self).poller.max_attempts as nat,
                event,
            ),
            final(self).poller.max_attempts == old(self).poller.max_attempts,
            final(self).daemon == old(self).daemon,
            final(self).login == old(self).login,
            final(self).relay == old(self).relay,
            final(self).entry_action(old(self).phase, event, r),
    {
        let ghost before = *self;
        match (self.phase, event) {
            (Phase::PreparingDir, Event::Completed) => self.enter(Phase::Spawning),
            (Phase::PreparingDir, Event::Failed(m)) => self.fail(StartError::CreateDir(m)),
            (Phase::Spawning, Event::Completed) => self.enter(Phase::Polling),
            (Phase::Spawning, Event::Failed(m)) => self.fail(StartError::Spawn(m)),
            (Phase::Polling, Event::SocketProbed(exists)) => {
                match self.poller.observe(exists) {
                    PollDecision::Ready => self.enter(Phase::LoggingIn),
                    PollDecision::Wait => self.enter(Phase::Waiting),
                    PollDecision::TimedOut => self.fail(StartError::Timeout),
                }
            },
            (Phase::Waiting, Event::Completed) => self.enter(Phase::Polling),
            (Phase::LoggingIn, Event::LoginExited { exit_code, stderr }) => {
                match exit_code {
                    Some(0i32) => self.enter(Phase::Relaying),
                    Some(c) => self.fail(StartError::Auth { exit_code: c, stderr }),
                    None => self.fail(StartError::Auth { exit_code: -1i32, stderr }),
                }
            },
            (Phase::LoggingIn, Event::Failed(m)) => self.fail(StartError::LoginLaunch(m)),
            _ => Action::Idle,
        }
    }
}

/// The phases entered, one per event, when `events` arrive in order.
pub open spec fn phases_after(
    phase: Phase,
    attempts: nat,
    max_attempts: nat,
    events: Seq<Event>,
) -> Seq<Phase>
    decreases events.len(),
{
    if events.len() == 0 {
        Seq::empty()
    } else {
        let next = next_state(phase, attempts, max_attempts, events[0]);
        seq![next.0] + phases_after(next.0, next.1, max_attempts, events.drop_first())
    }
}

/// A stopped sequence stays stopped: whatever events follow, it neither
/// starts a process nor the relay. This is where a missing key leaves it.
pub proof fn lemma_failed_is_final(attempts: nat, max_attempts: nat, events: Seq<Event>)
    ensures
        phases_after(Phase::Failed, attempts, max_attempts, events).len() == events.len(),
        forall|i: int|
            0 <= i < events.len() ==> #[trigger] phases_after(
                Phase::Failed,
                attempts,
                max_attempts,
                events,
            )[i] == Phase::Failed,
    decreases events.len(),
{
    if events.len() > 0 {
        lemma_failed_is_final(attempts, max_attempts, events.drop_first());
        let rest = phases_after(Phase::Failed, attempts, max_attempts, events.drop_first());
        assert(phases_after(Phase::Failed, attempts, max_attempts, events) == seq![Phase::Failed]
            + rest);
        assert forall|i: int| 0 <= i < events.len() implies #[trigger] phases_after(
            Phase::Failed,
            attempts,
            max_attempts,
            events,
        )[i] == Phase::Failed by {
            if i > 0 {
                assert(rest[i - 1] == Phase::Failed);
            }
        }
    }
}

/// Without a key nothing is spawned: from the phase that `start` reports for
/// a missing key, no sequence of events ever reaches the daemon's spawn.
pub proof fn lemma_missing_key_spawns_nothing(attempts: nat, max_attempts: nat, events: Seq<Event>)
    ensures
        forall|i: int|
            0 <= i < events.len() ==> #[trigger] phases_after(
                Phase::Failed,
                attempts,
                max_attempts,
                events,
            )[i] != Phase::Spawning,
{
    lemma_failed_is_final(attempts, max_attempts, events);
}

/// A rejected login ends the sequence with an authentication error that
/// carries the companion's exit code and standard error unchanged, and the
/// relay is never started afterwards, whatever events follow.
pub proof fn lemma_rejected_login_never_relays(
    attempts: nat,
    max_attempts: nat,
    exit_code: i32,
    stderr: String,
    events: Seq<Event>,
)
    requires
        exit_code != 0,
    ensures
        ({
            let e = Event::LoginExited { exit_code: Some(exit_code), stderr };
            &&& next_state(Phase::LoggingIn, attempts, max_attempts, e).0 == Phase::Failed
            &&& failure_of(Phase::LoggingIn, e) == StartError::Auth { exit_code, stderr }
        }),
        forall|i: int|
            0 <= i < events.len() ==> #[trigger] phases_after(
                Phase::Failed,
                attempts,
                max_attempts,
                events,
            )[i] != Phase::Relaying,
{
    lemma_failed_is_final(attempts, max_attempts, events);
}

/// The relay is entered only from the login phase, and only on a zero exit
/// of the companion.
pub proof fn lemma_relay_only_after_login(phase: Phase, attempts: nat, max_attempts: nat, e: Event)
    requires
        phase != Phase::Relaying,
        next_state(phase, attempts, max_attempts, e).0 == Phase::Relaying,
    ensures
        phase == Phase::LoggingIn,
        e is LoginExited,
        e->LoginExited_exit_code == Some(0i32),
{
}

/// The companion runs only after a look that found the control socket.
pub proof fn lemma_login_only_after_socket_seen(
    phase: Phase,
    attempts: nat,
    max_attempts: nat,
    e: Event,
)
    requires
        phase != Phase::LoggingIn,
        next_state(phase, attempts, max_attempts, e).0 == Phase::LoggingIn,
    ensures
        phase == Phase::Polling,
        e == Event::SocketProbed(true),
{
}

} // verus!
