use vstd::prelude::*;
use crate::config::{ConfigError, ConfigView, TrowBuilder, TrowConfig};
use crate::http::{http_settings, HttpServerConfig, HttpView};
use crate::text::{banner, banner_lines};

verus! {

/// Where the launch sequence stands: the step it has asked for and awaits.
#[derive(Clone, Copy, PartialEq, Eq, Structural, Debug)]
pub enum Phase {
    Configured,
    InitializingLogger,
    FinalizingHttp,
    Announcing,
    SpawningBackend,
    Connecting,
    InstallingSignalHook,
    Serving,
    Exited,
}

/// What the embedding program reports back after performing an action, or
/// from outside (a termination signal, the backend thread ending).
#[derive(Clone, Copy, PartialEq, Eq, Structural, Debug)]
pub enum Event {
    Begin,
    LoggerReady,
    LoggerFailed,
    HttpReady,
    HttpRejected,
    BannerShown,
    BackendSpawned,
    SpawnFailed,
    ChannelOpened,
    SignalHookInstalled,
    SignalHookFailed,
    BackendExited,
    ServeEnded,
    TerminationSignal,
}

/// Why startup was abandoned.
#[derive(Clone, Copy, PartialEq, Eq, Structural, Debug)]
pub enum StartError {
    /// Logging could not be set up.
    Logger,
    /// The HTTP server settings were rejected when finalized.
    Config(ConfigError),
    /// The backend thread could not be created.
    Spawn,
}

/// What the embedding program is to do next.
pub enum Action {
    /// Set up logging.
    InitLogger,
    /// Finalize these HTTP server settings (address and TLS material).
    FinalizeHttp(HttpServerConfig),
    /// Print these lines.
    ShowBanner(Vec<String>),
    /// Print that this was a dry run and exit with code 0.
    DryRunExit,
    /// Start the backend service in a thread of its own.
    SpawnBackend { data_dir: String, host: String, port: u16 },
    /// Open the client channel to the backend.
    ConnectChannel { host: String, port: u16 },
    /// Install the handler of the termination signal.
    InstallSignalHook,
    /// Mount the routes and serve until terminated.
    Serve,
    /// Report that the backend thread ended while the server runs.
    ReportBackendExit,
    /// Exit the process with code 0.
    Exit,
    /// Abandon startup with this error.
    Fail(StartError),
    /// Nothing: the event does not apply in this phase.
    Ignore,
}

pub enum ActionView {
    InitLogger,
    FinalizeHttp(HttpView),
    ShowBanner(Seq<Seq<char>>),
    DryRunExit,
    SpawnBackend { data_dir: Seq<char>, host: Seq<char>, port: u16 },
    ConnectChannel { host: Seq<char>, port: u16 },
    InstallSignalHook,
    Serve,
    ReportBackendExit,
    Exit,
    Fail(StartError),
    Ignore,
}

impl View for Action {
    type V = ActionView;

    open spec fn view(&self) -> ActionView {
        match self {
            Action::InitLogger => ActionView::InitLogger,
            Action::FinalizeHttp(h) => ActionView::FinalizeHttp(h@),
            Action::ShowBanner(lines) => ActionView::ShowBanner(crate::policy::strs(lines@)),
            Action::DryRunExit => ActionView::DryRunExit,
            Action::SpawnBackend { data_dir, host, port } => ActionView::SpawnBackend {
                data_dir: data_dir@,
                host: host@,
                port: *port,
            },
            Action::ConnectChannel { host, port } => ActionView::ConnectChannel {
                host: host@,
                port: *port,
            },
            Action::InstallSignalHook => ActionView::InstallSignalHook,
            Action::Serve => ActionView::Serve,
            Action::ReportBackendExit => ActionView::ReportBackendExit,
            Action::Exit => ActionView::Exit,
            Action::Fail(e) => ActionView::Fail(*e),
            Action::Ignore => ActionView::Ignore,
        }
    }
}

/// The launch sequence: set up logging, finalize the HTTP settings, show the
/// summary, stop there on a dry run, else start the backend, open the
/// channel, install the signal handler and serve. A failure before serving
/// abandons startup; a termination signal ends the process at once.
pub open spec fn next(c: ConfigView, p: Phase, e: Event) -> (Phase, ActionView) {
    if p == Phase::Exited {
        (Phase::Exited, ActionView::Ignore)
    } else if e == Event::TerminationSignal {
        (Phase::Exited, ActionView::Exit)
    } else {
        match (p, e) {
            (Phase::Configured, Event::Begin) => (Phase::InitializingLogger, ActionView::InitLogger),
            (Phase::InitializingLogger, Event::LoggerReady) => (
                Phase::FinalizingHttp,
                ActionView::FinalizeHttp(http_settings(c)),
            ),
            (Phase::InitializingLogger, Event::LoggerFailed) => (
                Phase::Exited,
                ActionView::Fail(StartError::Logger),
            ),
            (Phase::FinalizingHttp, Event::HttpReady) => (
                Phase::Announcing,
                ActionView::ShowBanner(banner_lines(c)),
            ),
            (Phase::FinalizingHttp, Event::HttpRejected) => (
                Phase::Exited,
                ActionView::Fail(StartError::Config(ConfigError {})),
            ),
            (Phase::Announcing, Event::BannerShown) => if c.dry_run {
                (Phase::Exited, ActionView::DryRunExit)
            } else {
                (
                    Phase::SpawningBackend,
                    ActionView::SpawnBackend {
                        data_dir: c.data_dir,
                        host: c.backend.host,
                        port: c.backend.port,
                    },
                )
            },
            (Phase::SpawningBackend, Event::BackendSpawned) => (
                Phase::Connecting,
                ActionView::ConnectChannel { host: c.backend.host, port: c.backend.port },
            ),
            (Phase::SpawningBackend, Event::SpawnFailed) => (
                Phase::Exited,
                ActionView::Fail(StartError::Spawn),
            ),
            (Phase::Connecting, Event::ChannelOpened) => (
                Phase::InstallingSignalHook,
                ActionView::InstallSignalHook,
            ),
            (Phase::InstallingSignalHook, Event::SignalHookInstalled) => (
                Phase::Serving,
                ActionView::Serve,
            ),
            (Phase::InstallingSignalHook, Event::SignalHookFailed) => (
                Phase::Serving,
                ActionView::Serve,
            ),
            (Phase::Connecting, Event::BackendExited) => (p, ActionView::ReportBackendExit),
            (Phase::InstallingSignalHook, Event::BackendExited) => (
                p,
                ActionView::ReportBackendExit,
            ),
            (Phase::Serving, Event::BackendExited) => (p, ActionView::ReportBackendExit),
            (Phase::Serving, Event::ServeEnded) => (Phase::Exited, ActionView::Exit),
            _ => (p, ActionView::Ignore),
        }
    }
}

/// The phase reached and the actions asked for when `events` arrive one by
/// one from phase `p`.
pub open spec fn run(c: ConfigView, p: Phase, events: Seq<Event>) -> (Phase, Seq<ActionView>)
    decreases events.len(),
{
    if events.len() == 0 {
        (p, Seq::empty())
    } else {
        let (q, a) = next(c, p, events[0]);
        let (r, rest) = run(c, q, events.drop_first());
        (r, seq![a] + rest)
    }
}

/// Phases in which nothing has been started yet, or everything has ended.
pub open spec fn before_start(p: Phase) -> bool {
    p == Phase::Configured || p == Phase::InitializingLogger || p == Phase::FinalizingHttp
        || p == Phase::Announcing || p == Phase::Exited
}

/// An action that starts the backend, opens a channel, or binds a listener.
pub open spec fn starts_work(a: ActionView) -> bool {
    a is SpawnBackend || a is ConnectChannel || a is InstallSignalHook || a is Serve
}

proof fn lemma_run_prepend(c: ConfigView, p: Phase, e: Event, rest: Seq<Event>)
    ensures
        run(c, p, seq![e] + rest) == (
            run(c, next(c, p, e).0, rest).0,
            seq![next(c, p, e).1] + run(c, next(c, p, e).0, rest).1,
        ),
{
    assert((seq![e] + rest).drop_first() =~= rest);
    assert((seq![e] + rest)[0] == e);
}

proof fn lemma_dry_run_stays_before_start(c: ConfigView, p: Phase, events: Seq<Event>)
    requires
        c.dry_run,
        before_start(p),
    ensures
        before_start(run(c, p, events).0),
        forall|i: int| 0 <= i < run(c, p, events).1.len() ==> !starts_work(#[trigger] run(c, p, events).1[i]),
    decreases events.len(),
{
    if events.len() > 0 {
        let (q, a) = next(c, p, events[0]);
        let tail = events.drop_first();
        lemma_dry_run_stays_before_start(c, q, tail);
        let all = run(c, p, events).1;
        let rest = run(c, q, tail).1;
        assert(all == seq![a] + rest);
        assert forall|i: int| 0 <= i < all.len() implies !starts_work(#[trigger] all[i]) by {
            if i > 0 {
                assert(all[i] == rest[i - 1]);
            }
        }
    }
}

/// On a dry run, whatever events arrive, the launch sequence never starts the
/// backend, opens a channel or binds a listener; after logging, settings and
/// summary it exits with code 0.
pub proof fn lemma_dry_run_starts_nothing(c: ConfigView, events: Seq<Event>)
    requires
        c.dry_run,
    ensures
        forall|i: int|
            0 <= i < run(c, Phase::Configured, events).1.len() ==> !starts_work(
                #[trigger] run(c, Phase::Configured, events).1[i],
            ),
        run(
            c,
            Phase::Configured,
            seq![Event::Begin, Event::LoggerReady, Event::HttpReady, Event::BannerShown],
        ) == (
            Phase::Exited,
            seq![
                ActionView::InitLogger,
                ActionView::FinalizeHttp(http_settings(c)),
                ActionView::ShowBanner(banner_lines(c)),
                ActionView::DryRunExit,
            ],
        ),
{
    lemma_dry_run_stays_before_start(c, Phase::Configured, events);
    let e4 = seq![Event::BannerShown];
    let e3 = seq![Event::HttpReady] + e4;
    let e2 = seq![Event::LoggerReady] + e3;
    let e1 = seq![Event::Begin] + e2;
    assert(e4 =~= seq![Event::BannerShown] + Seq::<Event>::empty());
    lemma_run_prepend(c, Phase::Announcing, Event::BannerShown, Seq::<Event>::empty());
    lemma_run_prepend(c, Phase::FinalizingHttp, Event::HttpReady, e4);
    lemma_run_prepend(c, Phase::InitializingLogger, Event::LoggerReady, e3);
    lemma_run_prepend(c, Phase::Configured, Event::Begin, e2);
    assert(e1 =~= seq![Event::Begin, Event::LoggerReady, Event::HttpReady, Event::BannerShown]);
    assert(run(c, Phase::Configured, e1).1 =~= seq![
        ActionView::InitLogger,
        ActionView::FinalizeHttp(http_settings(c)),
        ActionView::ShowBanner(banner_lines(c)),
        ActionView::DryRunExit,
    ]);
}

/// Without a dry run, a launch in which every step succeeds spawns the
/// backend once, with the data directory and the backend address, then
/// connects to that address and serves.
pub proof fn lemma_full_launch(c: ConfigView)
    requires
        !c.dry_run,
    ensures
        run(
            c,
            Phase::Configured,
            seq![
                Event::Begin,
                Event::LoggerReady,
                Event::HttpReady,
                Event::BannerShown,
                Event::BackendSpawned,
                Event::ChannelOpened,
                Event::SignalHookInstalled,
            ],
        ) == (
            Phase::Serving,
            seq![
                ActionView::InitLogger,
                ActionView::FinalizeHttp(http_settings(c)),
                ActionView::ShowBanner(banner_lines(c)),
                ActionView::SpawnBackend {
                    data_dir: c.data_dir,
                    host: c.backend.host,
                    port: c.backend.port,
                },
                ActionView::ConnectChannel { host: c.backend.host, port: c.backend.port },
                ActionView::InstallSignalHook,
                ActionView::Serve,
            ],
        ),
{
    let e7 = seq![Event::SignalHookInstalled];
    let e6 = seq![Event::ChannelOpened] + e7;
    let e5 = seq![Event::BackendSpawned] + e6;
    let e4 = seq![Event::BannerShown] + e5;
    let e3 = seq![Event::HttpReady] + e4;
    let e2 = seq![Event::LoggerReady] + e3;
    let e1 = seq![Event::Begin] + e2;
    assert(e7 =~= seq![Event::SignalHookInstalled] + Seq::<Event>::empty());
    lemma_run_prepend(c, Phase::InstallingSignalHook, Event::SignalHookInstalled, Seq::<Event>::empty());
    lemma_run_prepend(c, Phase::Connecting, Event::ChannelOpened, e7);
    lemma_run_prepend(c, Phase::SpawningBackend, Event::BackendSpawned, e6);
    lemma_run_prepend(c, Phase::Announcing, Event::BannerShown, e5);
    lemma_run_prepend(c, Phase::FinalizingHttp, Event::HttpReady, e4);
    lemma_run_prepend(c, Phase::InitializingLogger, Event::LoggerReady, e3);
    lemma_run_prepend(c, Phase::Configured, Event::Begin, e2);
    assert(e1 =~= seq![
        Event::Begin,
        Event::LoggerReady,
        Event::HttpReady,
        Event::BannerShown,
        Event::BackendSpawned,
        Event::ChannelOpened,
        Event::SignalHookInstalled,
    ]);
    assert(run(c, Phase::Configured, e1).1 =~= seq![
        ActionView::InitLogger,
        ActionView::FinalizeHttp(http_settings(c)),
        ActionView::ShowBanner(banner_lines(c)),
        ActionView::SpawnBackend {
            data_dir: c.data_dir,
            host: c.backend.host,
            port: c.backend.port,
        },
        ActionView::ConnectChannel { host: c.backend.host, port: c.backend.port },
        ActionView::InstallSignalHook,
        ActionView::Serve,
    ]);
}

/// A termination signal ends the process at once, in whatever phase short of
/// the end it arrives.
pub proof fn lemma_signal_exits_at_once(c: ConfigView, p: Phase)
    requires
        p != Phase::Exited,
    ensures
        next(c, p, Event::TerminationSignal) == (Phase::Exited, ActionView::Exit),
{
}

/// Once serving, the process leaves that phase only on a termination signal
/// or when the server itself returns; the backend thread ending is reported
/// and serving goes on.
pub proof fn lemma_serving_persists(c: ConfigView, e: Event)
    requires
        e != Event::TerminationSignal,
        e != Event::ServeEnded,
    ensures
        next(c, Phase::Serving, e).0 == Phase::Serving,
        e == Event::BackendExited ==> next(c, Phase::Serving, e).1 == ActionView::ReportBackendExit,
{
}

/// A frozen configuration together with the phase of its launch sequence.
pub struct Launcher {
    config: TrowConfig,
    phase: Phase,
}

impl View for Launcher {
    type V = (ConfigView, Phase);

    closed spec fn view(&self) -> (ConfigView, Phase) {
        (self.config@, self.phase)
    }
}

impl TrowBuilder {
    /// Freezes the configuration and readies its launch sequence.
    pub fn launcher(self) -> (r: Launcher)
        ensures
            r@ == (self@, Phase::Configured),
    {
        Launcher { config: self.build(), phase: Phase::Configured }
    }
}

impl Launcher {
    pub fn config(&self) -> (r: &TrowConfig)
        ensures
            r@ == self@.0,
    {
        &self.config
    }

    pub fn phase(&self) -> (r: Phase)
        ensures
            r == self@.1,
    {
        self.phase
    }

    /// Takes in `event` and returns the action it calls for.
    pub fn step(&mut self, event: Event) -> (a: Action)
        ensures
            final(self)@.0 == old(self)@.0,
            (final(self)@.1, a@) == next(old(self)@.0, old(self)@.1, event),
    {
        let c = &self.config;
        if self.phase == Phase::Exited {
            return Action::Ignore;
        }
        if event == Event::TerminationSignal {
            self.phase = Phase::Exited;
            return Action::Exit;
        }
        let (p, a) = match (self.phase, event) {
            (Phase::Configured, Event::Begin) => (Phase::InitializingLogger, Action::InitLogger),
            (Phase::InitializingLogger, Event::LoggerReady) => (
                Phase::FinalizingHttp,
                Action::FinalizeHttp(c.http_config()),
            ),
            (Phase::InitializingLogger, Event::LoggerFailed) => (
                Phase::Exited,
                Action::Fail(StartError::Logger),
            ),
            (Phase::FinalizingHttp, Event::HttpReady) => (Phase::Announcing, Action::ShowBanner(banner(c))),
            (Phase::FinalizingHttp, Event::HttpRejected) => (
                Phase::Exited,
                Action::Fail(StartError::Config(ConfigError {})),
            ),
            (Phase::Announcing, Event::BannerShown) => if c.dry_run() {
                (Phase::Exited, Action::DryRunExit)
            } else {
                let backend = c.backend_addr();
                (
                    Phase::SpawningBackend,
                    Action::SpawnBackend {
                        data_dir: c.data_dir().clone(),
                        host: backend.host.clone(),
                        port: backend.port,
                    },
                )
            },
            (Phase::SpawningBackend, Event::BackendSpawned) => {
                let backend = c.backend_addr();
                (
                    Phase::Connecting,
                    Action::ConnectChannel { host: backend.host.clone(), port: backend.port },
                )
            },
            (Phase::SpawningBackend, Event::SpawnFailed) => (
                Phase::Exited,
                Action::Fail(StartError::Spawn),
            ),
            (Phase::Connecting, Event::ChannelOpened) => (
                Phase::InstallingSignalHook,
                Action::InstallSignalHook,
            ),
            (Phase::InstallingSignalHook, Event::SignalHookInstalled) => (
                Phase::Serving,
                Action::Serve,
            ),
            (Phase::InstallingSignalHook, Event::SignalHookFailed) => (Phase::Serving, Action::Serve),
            (Phase::Connecting, Event::BackendExited) => (self.phase, Action::ReportBackendExit),
            (Phase::InstallingSignalHook, Event::BackendExited) => (
                self.phase,
                Action::ReportBackendExit,
            ),
            (Phase::Serving, Event::BackendExited) => (self.phase, Action::ReportBackendExit),
            (Phase::Serving, Event::ServeEnded) => (Phase::Exited, Action::Exit),
            _ => (self.phase, Action::Ignore),
        };
        self.phase = p;
        a
    }
}

} // verus!
