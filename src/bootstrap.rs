//! The startup sequence of the backend as a state machine.
//!
//! The program around the library performs each action and reports the
//! outcome as the next event: resolve the configuration, open the database
//! file, bind the listener, serve. Any failure aborts, and nothing follows an
//! abort.

use vstd::prelude::*;
use crate::config::{config_of_source, Config, ConfigError, ConfigFault, ConfigSource};

verus! {

/// The loopback address, as octets.
pub open spec fn loopback() -> [u8; 4] {
    [127u8, 0u8, 0u8, 1u8]
}

/// The address that the listener binds to.
#[derive(Debug, Clone, Copy, PartialEq, Eq)]
pub struct ListenAddr {
    pub ip: [u8; 4],
    pub port: u16,
}

/// The loopback address with the given port.
pub open spec fn listen_addr_of(port: u16) -> ListenAddr {
    ListenAddr { ip: loopback(), port }
}

impl ListenAddr {
    /// The loopback address with the given port.
    pub fn loopback(port: u16) -> (r: ListenAddr)
        ensures
            r == listen_addr_of(port),
    {
        ListenAddr { ip: [127u8, 0u8, 0u8, 1u8], port }
    }
}

/// Where the startup sequence stands.
#[derive(Debug, Clone, Copy, PartialEq, Eq, Structural)]
pub enum Phase {
    /// Nothing has been done yet.
    Start,
    /// The database file is being opened; the listener will take `port`.
    OpeningDatabase { port: u16 },
    /// The listener is being bound.
    Binding,
    /// Requests are being served.
    Serving,
    /// Startup failed; the process is to exit.
    Aborted,
}

/// The outcome of the last action, reported back to the machine.
#[derive(Debug, Clone, PartialEq, Eq)]
pub enum Event {
    /// The configuration file was looked for.
    ConfigRead(ConfigSource),
    /// The database file is open.
    DatabaseOpened,
    /// The database file could not be opened; the text describes why.
    DatabaseFailed(String),
    /// The listener is bound.
    Bound,
    /// The listener could not be bound; the text describes why.
    BindFailed(String),
}

/// The step at which startup failed, with its cause.
#[derive(Debug, Clone, PartialEq, Eq)]
pub enum StartupError {
    Config(ConfigError),
    Database(String),
    Bind(String),
}

/// A startup failure, as plain values.
pub enum StartupFault {
    Config(ConfigFault),
    Database(Seq<char>),
    Bind(Seq<char>),
}

impl View for StartupError {
    type V = StartupFault;

    open spec fn view(&self) -> StartupFault {
        match self {
            StartupError::Config(e) => StartupFault::Config(e@),
            StartupError::Database(m) => StartupFault::Database(m@),
            StartupError::Bind(m) => StartupFault::Bind(m@),
        }
    }
}

/// What the program is to do next.
#[derive(Debug, Clone, PartialEq, Eq)]
pub enum Action {
    /// Open or create the database file at this path.
    OpenDatabase(String),
    /// Bind the listener to this address.
    Listen(ListenAddr),
    /// Serve requests until the process is stopped.
    Serve,
    /// Report the failure and exit with a non-zero status.
    Abort(StartupError),
    /// Nothing: the event does not belong to the current phase.
    Idle,
}

/// An action, as plain values.
pub enum ActionView {
    OpenDatabase(Seq<char>),
    Listen(ListenAddr),
    Serve,
    Abort(StartupFault),
    Idle,
}

impl View for Action {
    type V = ActionView;

    open spec fn view(&self) -> ActionView {
        match self {
            Action::OpenDatabase(p) => ActionView::OpenDatabase(p@),
            Action::Listen(a) => ActionView::Listen(*a),
            Action::Serve => ActionView::Serve,
            Action::Abort(e) => ActionView::Abort(e@),
            Action::Idle => ActionView::Idle,
        }
    }
}

/// The next phase and action after `e` arrives in phase `p`.
pub open spec fn step_of(p: Phase, e: Event) -> (Phase, ActionView) {
    match p {
        Phase::Start => match e {
            Event::ConfigRead(src) => match config_of_source(src) {
                Ok(c) => (Phase::OpeningDatabase { port: c.port }, ActionView::OpenDatabase(c.path)),
                Err(f) => (Phase::Aborted, ActionView::Abort(StartupFault::Config(f))),
            },
            _ => (p, ActionView::Idle),
        },
        Phase::OpeningDatabase { port } => match e {
            Event::DatabaseOpened => (Phase::Binding, ActionView::Listen(listen_addr_of(port))),
            Event::DatabaseFailed(m) => (Phase::Aborted, ActionView::Abort(StartupFault::Database(m@))),
            _ => (p, ActionView::Idle),
        },
        Phase::Binding => match e {
            Event::Bound => (Phase::Serving, ActionView::Serve),
            Event::BindFailed(m) => (Phase::Aborted, ActionView::Abort(StartupFault::Bind(m@))),
            _ => (p, ActionView::Idle),
        },
        Phase::Serving => (p, ActionView::Idle),
        Phase::Aborted => (p, ActionView::Idle),
    }
}

/// The actions that a run of events from phase `p` produces, one per event.
pub open spec fn actions_of(p: Phase, events: Seq<Event>) -> Seq<ActionView>
    decreases events.len(),
{
    if events.len() == 0 {
        Seq::empty()
    } else {
        let (q, a) = step_of(p, events[0]);
        seq![a] + actions_of(q, events.drop_first())
    }
}

impl Phase {
    /// Takes one event: the next phase and the action to perform.
    pub fn step(self, e: Event) -> (r: (Phase, Action))
        ensures
            r.0 == step_of(self, e).0,
            r.1@ == step_of(self, e).1,
    {
        match self {
            Phase::Start => match e {
                Event::ConfigRead(src) => match Config::resolve(src) {
                    Ok(c) => (
                        Phase::OpeningDatabase { port: c.server.port },
                        Action::OpenDatabase(c.database.path),
                    ),
                    Err(f) => (Phase::Aborted, Action::Abort(StartupError::Config(f))),
                },
                _ => (self, Action::Idle),
            },
            Phase::OpeningDatabase { port } => match e {
                Event::DatabaseOpened => (Phase::Binding, Action::Listen(ListenAddr::loopback(port))),
                Event::DatabaseFailed(m) => (Phase::Aborted, Action::Abort(StartupError::Database(m))),
                _ => (self, Action::Idle),
            },
            Phase::Binding => match e {
                Event::Bound => (Phase::Serving, Action::Serve),
                Event::BindFailed(m) => (Phase::Aborted, Action::Abort(StartupError::Bind(m))),
                _ => (self, Action::Idle),
            },
            Phase::Serving => (self, Action::Idle),
            Phase::Aborted => (self, Action::Idle),
        }
    }
}

/// Once startup has aborted, every later event leads to no action.
pub proof fn lemma_aborted_stays_idle(events: Seq<Event>)
    ensures
        actions_of(Phase::Aborted, events).len() == events.len(),
        forall|i: int| 0 <= i < events.len() ==> #[trigger] actions_of(Phase::Aborted, events)[i] is Idle,
    decreases events.len(),
{
    if events.len() > 0 {
        lemma_aborted_stays_idle(events.drop_first());
        let rest = actions_of(Phase::Aborted, events.drop_first());
        assert forall|i: int| 0 <= i < events.len() implies #[trigger] actions_of(Phase::Aborted, events)[i] is Idle by {
            if i > 0 {
                assert(actions_of(Phase::Aborted, events)[i] == rest[i - 1]);
            }
        }
    }
}

/// A configuration that cannot be resolved (an unreadable file, one that is
/// not TOML, or one of the wrong shape) aborts startup at once, and no
/// listener is ever bound, whatever events follow.
pub proof fn lemma_bad_config_never_listens(src: ConfigSource, events: Seq<Event>)
    requires
        config_of_source(src) is Err,
    ensures
        ({
            let acts = actions_of(Phase::Start, seq![Event::ConfigRead(src)] + events);
            &&& acts.len() == events.len() + 1
            &&& acts[0] is Abort
            &&& forall|i: int| 0 <= i < acts.len() ==> !(#[trigger] acts[i] is Listen)
        }),
{
    let all = seq![Event::ConfigRead(src)] + events;
    assert(all[0] == Event::ConfigRead(src));
    assert(all.drop_first() =~= events);
    lemma_aborted_stays_idle(events);
    let acts = actions_of(Phase::Start, all);
    let rest = actions_of(Phase::Aborted, events);
    assert forall|i: int| 0 <= i < acts.len() implies !(#[trigger] acts[i] is Listen) by {
        if i > 0 {
            assert(acts[i] == rest[i - 1]);
        }
    }
}

/// When the configuration resolves, startup opens the database at its path,
/// then binds the loopback address with its port, then serves.
pub proof fn lemma_resolved_config_starts(src: ConfigSource)
    requires
        config_of_source(src) is Ok,
    ensures
        ({
            let c = config_of_source(src)->Ok_0;
            let events = seq![Event::ConfigRead(src), Event::DatabaseOpened, Event::Bound];
            let acts = actions_of(Phase::Start, events);
            &&& acts.len() == 3
            &&& acts[0] == ActionView::OpenDatabase(c.path)
            &&& acts[1] == ActionView::Listen(listen_addr_of(c.port))
            &&& acts[2] == ActionView::Serve
        }),
{
    let events = seq![Event::ConfigRead(src), Event::DatabaseOpened, Event::Bound];
    assert(events.drop_first() =~= seq![Event::DatabaseOpened, Event::Bound]);
    assert(events.drop_first().drop_first() =~= seq![Event::Bound]);
    assert(events.drop_first().drop_first().drop_first() =~= Seq::<Event>::empty());
    reveal_with_fuel(actions_of, 4);
}

} // verus!
