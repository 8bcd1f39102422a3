//! The decisions of the orchestrator. It opens every connection first,
//! starts the units (drivers, publishers, receivers) only once all of them
//! are up, keeps the first failure that any unit reports, whatever the order
//! in which units end, and reduces the run to one success or failure.
use vstd::prelude::*;

verus! {

/// Why a run failed.
#[derive(Debug, Clone, Copy, PartialEq, Eq, Structural)]
pub enum Failure {
    /// The connection settings were missing or invalid.
    Configuration,
    /// Connection `stream` could not be opened, or its driver ended in error.
    Connection { stream: u64 },
    /// The publisher of stream `stream` could not submit a reading.
    Publish { stream: u64 },
}

/// What the runner tells the supervisor.
#[derive(Debug, Clone, Copy, PartialEq, Eq, Structural)]
pub enum RunEvent {
    /// The connection asked for last is established.
    Connected,
    /// The connection asked for last could not be established.
    ConnectFailed,
    /// The units have been spawned.
    Started,
    /// A publisher exhausted its bound.
    PublisherDone,
    /// A unit ended in failure.
    UnitFailed(Failure),
}

/// What the supervisor asks the runner to do.
#[derive(Debug, Clone, Copy, PartialEq, Eq, Structural)]
pub enum Command {
    /// Open connection number `stream`.
    Connect { stream: u64 },
    /// Spawn the driver, publishers and receiver of every connection.
    Start,
    /// Wait for the next unit to end.
    Await,
    /// End the run with this failure.
    Abort(Failure),
    /// End the run successfully.
    Succeed,
}

/// The state of one run.
#[derive(Debug, Clone, Copy, PartialEq, Eq, Structural)]
pub struct Supervisor {
    /// Connections to open.
    pub connections: u64,
    /// Publisher units to start once every connection is up.
    pub publishers: u64,
    /// Connections opened so far.
    pub connected: u64,
    /// Whether the units have been spawned.
    pub started: bool,
    /// Publisher units spawned.
    pub publishers_started: u64,
    /// Publisher units that exhausted their bound.
    pub publishers_done: u64,
    /// The first failure reported, if any.
    pub failure: Option<Failure>,
}

/// The state after `ev`.
pub open spec fn step(s: Supervisor, ev: RunEvent) -> Supervisor {
    match ev {
        RunEvent::Connected => if s.failure is None && !s.started && s.connected < s.connections {
            Supervisor { connected: (s.connected + 1) as u64, ..s }
        } else {
            s
        },
        RunEvent::ConnectFailed => if s.failure is None {
            Supervisor { failure: Some(Failure::Connection { stream: s.connected }), ..s }
        } else {
            s
        },
        RunEvent::Started => if s.failure is None && !s.started && s.connected == s.connections {
            Supervisor { started: true, publishers_started: s.publishers, ..s }
        } else {
            s
        },
        RunEvent::PublisherDone => if s.started && s.publishers_done < s.publishers_started {
            Supervisor { publishers_done: (s.publishers_done + 1) as u64, ..s }
        } else {
            s
        },
        RunEvent::UnitFailed(f) => if s.failure is None {
            Supervisor { failure: Some(f), ..s }
        } else {
            s
        },
    }
}

/// What to do in state `s`.
pub open spec fn command_of(s: Supervisor) -> Command {
    if let Some(f) = s.failure {
        Command::Abort(f)
    } else if s.connected < s.connections {
        Command::Connect { stream: s.connected }
    } else if !s.started {
        Command::Start
    } else if s.publishers_done < s.publishers_started {
        Command::Await
    } else {
        Command::Succeed
    }
}

/// The state after each event of `evs` in turn.
pub open spec fn replay(s: Supervisor, evs: Seq<RunEvent>) -> Supervisor
    decreases evs.len(),
{
    if evs.len() == 0 {
        s
    } else {
        replay(step(s, evs[0]), evs.drop_first())
    }
}

/// The process exit status of a run in state `s`: zero only without failure.
pub open spec fn exit_status(s: Supervisor) -> i32 {
    if s.failure is Some {
        1
    } else {
        0
    }
}

impl Supervisor {
    /// A run with `connections` connections and `publishers` publisher units.
    pub fn new(connections: u64, publishers: u64) -> (r: Supervisor)
        ensures
            r == (Supervisor {
                connections,
                publishers,
                connected: 0,
                started: false,
                publishers_started: 0,
                publishers_done: 0,
                failure: None,
            }),
    {
        Supervisor {
            connections,
            publishers,
            connected: 0,
            started: false,
            publishers_started: 0,
            publishers_done: 0,
            failure: None,
        }
    }

    /// What to do now.
    pub fn command(&self) -> (c: Command)
        ensures
            c == command_of(*self),
    {
        if let Some(f) = self.failure {
            Command::Abort(f)
        } else if self.connected < self.connections {
            Command::Connect { stream: self.connected }
        } else if !self.started {
            Command::Start
        } else if self.publishers_done < self.publishers_started {
            Command::Await
        } else {
            Command::Succeed
        }
    }

    /// Takes in `ev` and says what to do next.
    pub fn handle(&mut self, ev: RunEvent) -> (c: Command)
        ensures
            *final(self) == step(*old(self), ev),
            c == command_of(*final(self)),
    {
        match ev {
            RunEvent::Connected => {
                if self.failure.is_none() && !self.started && self.connected < self.connections {
                    self.connected = self.connected + 1;
                }
            },
            RunEvent::ConnectFailed => {
                if self.failure.is_none() {
                    self.failure = Some(Failure::Connection { stream: self.connected });
                }
            },
            RunEvent::Started => {
                if self.failure.is_none() && !self.started && self.connected == self.connections {
                    self.started = true;
                    self.publishers_started = self.publishers;
                }
            },
            RunEvent::PublisherDone => {
                if self.started && self.publishers_done < self.publishers_started {
                    self.publishers_done = self.publishers_done + 1;
                }
            },
            RunEvent::UnitFailed(f) => {
                if self.failure.is_none() {
                    self.failure = Some(f);
                }
            },
        }
        self.command()
    }

    /// The exit status of the run as it stands.
    pub fn exit_status(&self) -> (code: i32)
        ensures
            code == exit_status(*self),
    {
        if self.failure.is_some() {
            1
        } else {
            0
        }
    }
}

/// Once a failure is recorded, no later event replaces it or starts a unit.
pub proof fn lemma_first_failure_kept(s: Supervisor, evs: Seq<RunEvent>)
    requires
        s.failure is Some,
    ensures
        replay(s, evs).failure == s.failure,
        replay(s, evs).started == s.started,
        replay(s, evs).publishers_started == s.publishers_started,
    decreases evs.len(),
{
    if evs.len() > 0 {
        lemma_first_failure_kept(step(s, evs[0]), evs.drop_first());
    }
}

/// A connect that fails before the units are started ends the run in that
/// failure, with a non-zero exit status and no publisher ever started,
/// whatever events follow.
pub proof fn lemma_connect_failure_is_fatal(s: Supervisor, evs: Seq<RunEvent>)
    requires
        s.failure is None,
        !s.started,
        s.publishers_started == 0,
    ensures
        replay(step(s, RunEvent::ConnectFailed), evs).failure == Some(
            Failure::Connection { stream: s.connected },
        ),
        replay(step(s, RunEvent::ConnectFailed), evs).publishers_started == 0,
        command_of(replay(step(s, RunEvent::ConnectFailed), evs)) == Command::Abort(
            Failure::Connection { stream: s.connected },
        ),
        exit_status(replay(step(s, RunEvent::ConnectFailed), evs)) != 0,
{
    lemma_first_failure_kept(step(s, RunEvent::ConnectFailed), evs);
}

/// An event that ends the run in failure.
pub open spec fn is_failure(ev: RunEvent) -> bool {
    ev is ConnectFailed || ev is UnitFailed
}

/// A failure reported at any point among the events, whatever came before or
/// after it, leaves the run failed with a non-zero exit status.
pub proof fn lemma_any_failure_is_fatal(s: Supervisor, evs: Seq<RunEvent>, i: int)
    requires
        0 <= i < evs.len(),
        is_failure(evs[i]),
    ensures
        replay(s, evs).failure is Some,
        command_of(replay(s, evs)) is Abort,
        exit_status(replay(s, evs)) != 0,
    decreases evs.len(),
{
    if i == 0 {
        lemma_first_failure_kept(step(s, evs[0]), evs.drop_first());
    } else {
        lemma_any_failure_is_fatal(step(s, evs[0]), evs.drop_first(), i - 1);
    }
}

/// A run succeeds only with every connection up, the units started and
/// every publisher done, and no failure recorded.
pub proof fn lemma_success_needs_all_done(s: Supervisor)
    ensures
        command_of(s) == Command::Succeed ==> s.failure is None && s.connected >= s.connections
            && s.started && s.publishers_done >= s.publishers_started && exit_status(s) == 0,
{
}

} // verus!
