//! The decisions of the event loop of the daemon.
//!
//! The loop waits, without a limit of time, until one of its descriptors
//! can be read or is in an error state, with both kinds of interest built
//! from the same descriptors. What it does on waking is decided here: the
//! `Multiplexer` knows the role of each descriptor and owns the live
//! configuration, and turns what woke the loop into tasks. Waiting,
//! accepting, reading and writing are left to the one who runs the loop.

use crate::config::{Config, ConfigError, ConfigFailure, ConfigView};
use crate::control::{
    channel, dropped, step_of, Action, Event, EventView, Outcome, Session, Step,
};
use crate::errors::{RawFd, ServerError, ServerFailure};
use crate::login::{UserId, ROOT_ID};
use std::collections::HashMap;
use vstd::prelude::*;
use vstd::std_specs::hash::{group_hash_axioms, spec_keys_iter};
use vstd::std_specs::iter::IteratorSpec;

verus! {

broadcast use group_hash_axioms;

/// What a descriptor is for.
#[derive(Clone, Copy, Debug, PartialEq, Eq, Structural)]
pub enum Role {
    /// It listens for connections on the control channel.
    Control,
}

/// What to do about a descriptor that woke the loop.
#[derive(Clone, Copy, Debug, PartialEq, Eq, Structural)]
pub enum Task {
    /// The listener of the control channel is in an error state: find the
    /// error that it holds, and hand it to `on_fault`.
    ProbeFault { fd: RawFd },
    /// A descriptor without a role is in an error state: warn, and go on.
    IgnoreError { fd: RawFd },
    /// The listener of the control channel has a connection waiting:
    /// accept it, and serve it in the name of this user.
    Accept { fd: RawFd, user: UserId },
    /// A descriptor without a role can be read: warn, and go on.
    IgnoreReadable { fd: RawFd },
}

/// What was found when the error of a descriptor was asked for.
#[derive(Debug)]
pub enum FaultProbe {
    /// The descriptor holds this error.
    Found { err: std::io::Error },
    /// The descriptor holds no error.
    Absent,
    /// The error could not be asked for.
    Unavailable { err: std::io::Error },
}

/// A `FaultProbe` in plain values. The error found stays in it as it is.
pub enum FaultProbeView {
    Found { err: std::io::Error },
    Absent,
    Unavailable { err: std::io::Error },
}

impl View for FaultProbe {
    type V = FaultProbeView;

    open spec fn view(&self) -> FaultProbeView {
        match *self {
            FaultProbe::Found { err } => FaultProbeView::Found { err },
            FaultProbe::Absent => FaultProbeView::Absent,
            FaultProbe::Unavailable { err } => FaultProbeView::Unavailable { err },
        }
    }
}

/// Whether the loop goes on.
#[derive(Debug)]
#[allow(inconsistent_fields)]
pub enum Verdict {
    /// The daemon must stop: the failure is to be logged.
    Fatal { err: ServerError },
    /// The loop goes on, though the error of the descriptor could not be
    /// asked for: that is to be logged.
    Continue { err: std::io::Error },
}

/// A `Verdict` in plain values. The error to be logged stays in it as it
/// is.
pub enum VerdictView {
    Fatal { failure: ServerFailure },
    Continue { err: std::io::Error },
}

impl View for Verdict {
    type V = VerdictView;

    open spec fn view(&self) -> VerdictView {
        match *self {
            Verdict::Fatal { err } => VerdictView::Fatal { failure: err@ },
            Verdict::Continue { err } => VerdictView::Continue { err },
        }
    }
}

/// The task for a descriptor in an error state.
pub open spec fn error_task(roles: Map<RawFd, Role>, fd: RawFd) -> Task {
    if roles.contains_key(fd) {
        Task::ProbeFault { fd }
    } else {
        Task::IgnoreError { fd }
    }
}

/// The task for a descriptor that can be read. A peer on the control
/// channel, which is local and trusted, is the root user.
pub open spec fn read_task(roles: Map<RawFd, Role>, fd: RawFd) -> Task {
    if roles.contains_key(fd) {
        Task::Accept { fd, user: ROOT_ID }
    } else {
        Task::IgnoreReadable { fd }
    }
}

/// The tasks of one waking: those for the descriptors in an error state
/// first, then those for the descriptors that can be read, each kind in the
/// order given.
pub open spec fn tasks_of(roles: Map<RawFd, Role>, errored: Seq<RawFd>, readable: Seq<RawFd>) -> Seq<
    Task,
> {
    Seq::new(errored.len(), |i: int| error_task(roles, errored[i])) + Seq::new(
        readable.len(),
        |i: int| read_task(roles, readable[i]),
    )
}

/// What follows from the error that the listener of the control channel
/// holds. An error there stops the daemon: nothing else can administer it;
/// the failure holds the very error that was found. So does a listener that
/// woke on an error and holds none. Where the error could not be asked for,
/// the loop goes on, with the error that says why to be logged.
pub open spec fn verdict_of(fd: RawFd, probe: FaultProbeView) -> VerdictView {
    match probe {
        FaultProbeView::Found { err } => VerdictView::Fatal {
            failure: ServerFailure::CtlSocket { fd, err },
        },
        FaultProbeView::Absent => VerdictView::Fatal {
            failure: ServerFailure::Fd { what: "CTL"@, fd },
        },
        FaultProbeView::Unavailable { err } => VerdictView::Continue { err },
    }
}

/// The one descriptor that the service manager is to hand over, the
/// listener of the control channel; nothing where it handed over none or
/// more than one.
pub open spec fn sole(descriptors: Seq<RawFd>) -> Option<RawFd> {
    if descriptors.len() == 1 {
        Some(descriptors[0])
    } else {
        None
    }
}

/// Finds the listener of the control channel among the descriptors that the
/// service manager handed over: it is to be the only one.
pub fn control_descriptor(descriptors: &Vec<RawFd>) -> (r: Option<RawFd>)
    ensures
        r == sole(descriptors@),
{
    if descriptors.len() == 1 {
        Some(descriptors[0])
    } else {
        None
    }
}

/// The step that the loop makes of a connection on an event, given the
/// path of the source of the live configuration. It is the step of the
/// connection, but for one case: a connection that waits for the
/// configuration to be read again takes it only from that source. What was
/// read from another file is refused, and the live configuration stays.
pub open spec fn served(session: Session, event: EventView, config: ConfigView, source: Seq<char>) -> Step {
    match (session, event) {
        (Session::AwaitSource, EventView::Source { path, content }) => if path == source {
            step_of(session, event, config)
        } else {
            dropped(
                ServerFailure::WrongSource { what: channel(), got: path, expected: source },
                config,
            )
        },
        _ => step_of(session, event, config),
    }
}

/// The state of the event loop: the role of each descriptor, the live
/// configuration, whose paths are all absolute, and the path of the file
/// that the configuration was first read from.
pub struct Multiplexer {
    roles: HashMap<RawFd, Role>,
    config: Config,
    source: String,
}

impl Multiplexer {
    /// Every path of the live configuration is absolute.
    #[verifier::type_invariant]
    spec fn paths_absolute(self) -> bool {
        self.config@.resolved()
    }

    /// The role of each descriptor that the loop waits for.
    pub closed spec fn roles(self) -> Map<RawFd, Role> {
        self.roles@
    }

    /// The live configuration.
    pub closed spec fn live(self) -> ConfigView {
        self.config@
    }

    /// The path of the source of the configuration: the file that it was
    /// first read from, and is read from again on a reload without a
    /// payload.
    pub closed spec fn source_path(self) -> Seq<char> {
        self.source@
    }

    /// The state of a loop that waits for the listener of the control
    /// channel alone, with a configuration that was read from the file at
    /// `source`. The paths of the configuration must all be absolute: the
    /// first that is not is reported, and there is no state then.
    pub fn with_source(control: RawFd, config: Config, source: &str) -> (r: Result<
        Multiplexer,
        ConfigError,
    >)
        ensures
            match r {
                Ok(state) => config@.resolved() && state.live() == config@ && state.roles()
                    == Map::<RawFd, Role>::empty().insert(control, Role::Control)
                    && state.source_path() == source@,
                Err(e) => config@.relative_path() matches Some(found) && e@ == (
                ConfigFailure::RelativePath { field: found.0, delinquint: found.1 }),
            },
    {
        let mut config = config;
        match config.resolve() {
            Ok(_) => {},
            Err(err) => {
                return Err(err);
            },
        }
        let mut roles: HashMap<RawFd, Role> = HashMap::new();
        roles.insert(control, Role::Control);
        Ok(Multiplexer { roles, config, source: source.to_owned() })
    }

    /// The state of a loop that waits for the listener of the control
    /// channel alone, with a configuration that was read from no file: the
    /// path of its source is empty.
    pub fn new(control: RawFd, config: Config) -> (r: Result<Multiplexer, ConfigError>)
        ensures
            match r {
                Ok(state) => config@.resolved() && state.live() == config@ && state.roles()
                    == Map::<RawFd, Role>::empty().insert(control, Role::Control)
                    && state.source_path() == Seq::<char>::empty(),
                Err(e) => config@.relative_path() matches Some(found) && e@ == (
                ConfigFailure::RelativePath { field: found.0, delinquint: found.1 }),
            },
    {
        proof {
            reveal_strlit("");
        }
        let r = Multiplexer::with_source(control, config, "");
        assert(""@ =~= Seq::<char>::empty());
        r
    }

    /// The path of the source of the configuration.
    pub fn source(&self) -> (r: &str)
        ensures
            r@ == self.source_path(),
    {
        self.source.as_str()
    }

    /// The live configuration. All its paths are absolute.
    pub fn config(&self) -> (r: &Config)
        ensures
            r@ == self.live(),
            r@.resolved(),
    {
        proof {
            use_type_invariant(self);
        }
        &self.config
    }

    /// The descriptors that the loop waits for, each once and in no fixed
    /// order. The loop waits to read from these and watches these for
    /// errors: both kinds of interest are built from the same descriptors.
    pub fn descriptors(&self) -> (r: Vec<RawFd>)
        ensures
            r@.to_set() == self.roles().dom(),
            r@.no_duplicates(),
    {
        let mut r: Vec<RawFd> = Vec::new();
        let ghost keys = spec_keys_iter(&self.roles).remaining();
        for fd in it: self.roles.keys()
            invariant
                it.seq() == keys,
                r@.len() == it.index(),
                forall|k: int| 0 <= k < r@.len() ==> r@[k] == *(#[trigger] keys[k]),
        {
            r.push(*fd);
        }
        assert(r@ =~= keys.unref());
        assert forall|k: int, l: int| 0 <= k < l < r@.len() implies r@[k] != r@[l] by {
            assert(keys[k] != keys[l]);
        }
        r
    }

    /// The role of a descriptor, if it has one.
    pub fn role(&self, fd: RawFd) -> (r: Option<Role>)
        ensures
            match r {
                Some(role) => self.roles().contains_key(fd) && self.roles()[fd] == role,
                None => !self.roles().contains_key(fd),
            },
    {
        match self.roles.get(&fd) {
            Some(role) => Some(*role),
            None => None,
        }
    }

    /// The tasks of one waking, given the descriptors in an error state
    /// and the descriptors that can be read.
    pub fn on_wake(&self, errored: &Vec<RawFd>, readable: &Vec<RawFd>) -> (tasks: Vec<Task>)
        ensures
            tasks@ == tasks_of(self.roles(), errored@, readable@),
    {
        let mut tasks: Vec<Task> = Vec::new();
        let mut i: usize = 0;
        while i < errored.len()
            invariant
                i <= errored.len(),
                tasks@ == Seq::new(i as nat, |k: int| error_task(self.roles@, errored@[k])),
            decreases errored.len() - i,
        {
            let fd: RawFd = errored[i];
            let task = match self.role(fd) {
                Some(Role::Control) => Task::ProbeFault { fd },
                None => Task::IgnoreError { fd },
            };
            tasks.push(task);
            i += 1;
        }
        let ghost first = tasks@;
        let mut j: usize = 0;
        while j < readable.len()
            invariant
                j <= readable.len(),
                tasks@ == first + Seq::new(j as nat, |k: int| read_task(self.roles@, readable@[k])),
            decreases readable.len() - j,
        {
            let fd: RawFd = readable[j];
            let task = match self.role(fd) {
                Some(Role::Control) => Task::Accept { fd, user: ROOT_ID },
                None => Task::IgnoreReadable { fd },
            };
            tasks.push(task);
            j += 1;
        }
        tasks
    }

    /// Decides whether the loop goes on, given what was found when the
    /// error of the listener of the control channel was asked for.
    pub fn on_fault(&self, fd: RawFd, probe: FaultProbe) -> (verdict: Verdict)
        ensures
            verdict@ == verdict_of(fd, probe@),
    {
        match probe {
            FaultProbe::Found { err } => Verdict::Fatal {
                err: ServerError::CtlSocketError { fd, err },
            },
            FaultProbe::Absent => Verdict::Fatal { err: ServerError::FdError { what: "CTL", fd } },
            FaultProbe::Unavailable { err } => Verdict::Continue { err },
        }
    }

    /// Serves a connection on the control channel one step further,
    /// against the live configuration. A configuration that was read again
    /// is taken only from the source of the live one. The descriptors, their
    /// roles and the source stay as they are, whatever the step does.
    pub fn serve(&mut self, session: &mut Session, event: Event) -> (action: Action)
        ensures
            final(self).roles() == old(self).roles(),
            final(self).source_path() == old(self).source_path(),
            (Step { session: *final(session), action: action@, config: final(self).live() })
                == served(*old(session), event@, old(self).live(), old(self).source_path()),
    {
        proof {
            use_type_invariant(&*self);
        }
        let waits: Session = *session;
        let event = match event {
            Event::Source { path, content } => {
                match waits {
                    Session::AwaitSource => {
                        if !(path == self.source) {
                            *session = Session::Done;
                            return Action::Close {
                                outcome: Outcome::Failed {
                                    err: ServerError::WrongSource {
                                        what: "CTL",
                                        got: path,
                                        expected: self.source.clone(),
                                    },
                                },
                            };
                        }
                    },
                    _ => {},
                }
                Event::Source { path, content }
            },
            other => other,
        };
        let mut config = self.config.clone();
        let action = session.step(event, &mut config);
        self.config = config;
        action
    }
}

/// The tasks of a waking deal with the errors first and with the reads
/// afterwards, one task for each descriptor and in the order given.
pub proof fn law_errors_before_reads(
    roles: Map<RawFd, Role>,
    errored: Seq<RawFd>,
    readable: Seq<RawFd>,
)
    ensures
        tasks_of(roles, errored, readable).len() == errored.len() + readable.len(),
        forall|i: int|
            0 <= i < errored.len() ==> #[trigger] tasks_of(roles, errored, readable)[i]
                == error_task(roles, errored[i]),
        forall|i: int|
            0 <= i < readable.len() ==> #[trigger] tasks_of(roles, errored, readable)[errored.len()
                + i] == read_task(roles, readable[i]),
{
}

/// A descriptor without a role never stops the loop nor gets a connection
/// accepted: all that is done about it is to ignore it. Only the error of
/// a descriptor with a role is asked for, and only a verdict on such an
/// error can be fatal.
pub proof fn law_unknown_descriptors_are_ignored(roles: Map<RawFd, Role>, fd: RawFd)
    ensures
        !roles.contains_key(fd) ==> error_task(roles, fd) == (Task::IgnoreError { fd })
            && read_task(roles, fd) == (Task::IgnoreReadable { fd }),
        roles.contains_key(fd) ==> error_task(roles, fd) == (Task::ProbeFault { fd }) && read_task(
            roles,
            fd,
        ) == (Task::Accept { fd, user: ROOT_ID }),
{
}

/// An error wake-up of the control listener stops the daemon whether an
/// error is found on it or not; the loop goes on only where the error could
/// not be asked for.
pub proof fn law_control_faults_are_fatal(fd: RawFd, probe: FaultProbeView)
    ensures
        verdict_of(fd, probe) is Fatal <==> !(probe is Unavailable),
{
}

/// A reload without a payload takes the configuration from its source
/// alone: what is handed in as read from another file ends the connection,
/// and the live configuration stays.
pub proof fn law_reload_from_the_source_alone(
    path: Seq<char>,
    content: Result<Seq<u8>, std::io::Error>,
    config: ConfigView,
    source: Seq<char>,
)
    requires
        path != source,
    ensures
        served(Session::AwaitSource, EventView::Source { path, content }, config, source)
            == dropped(
            ServerFailure::WrongSource { what: channel(), got: path, expected: source },
            config,
        ),
{
}

} // verus!
