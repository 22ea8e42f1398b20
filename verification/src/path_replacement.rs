//! Decisions of the HA node agent when it replaces a failed NVMe path: connect
//! the new path and wait until it is live, then disconnect the failed one.
//! The agent's I/O (gRPC calls, sysfs, sleeping) is done by the caller, which
//! feeds each outcome back as an event and performs the action it gets.
use vstd::prelude::*;

use crate::nvme_uri::{
    first_match, get_subsystem, parse_outcome, parse_uri, subsystem_address, subsystem_matches,
    subsystem_not_found, subsystems_view, uri_components, ParsedUri, ResourceKind, SubsystemAddr,
    SubsystemInfo, SvcError, SvcErrorView,
};

verus! {

/// Common error source name for all gRPC errors in HA Node agent.
pub const HA_AGENT_ERR_SOURCE: &'static str = "HA Node agent gRPC server";

/// NVMe subsystem refresh interval when monitoring its state, in milliseconds.
pub const SUBSYSTEM_STATE_REFRESH_INTERVAL_MS: u64 = 500;

/// Outcomes of the outside work while a new path is connected.
#[derive(Debug)]
pub enum ConnectEvent {
    /// Start connecting.
    Begin,
    /// No client of the node's NVMe connection service could be had.
    ClientUnavailable(SvcError),
    /// The connection call failed; the error's text.
    ConnectFailed(String),
    /// The connection call succeeded.
    Connected,
    /// The host's NVMe subsystems could not be listed.
    SubsystemsUnavailable,
    /// The host's NVMe subsystems.
    Subsystems(Vec<SubsystemInfo>),
    /// The subsystem's state could not be refreshed.
    SyncFailed,
    /// The subsystem's refreshed state.
    Synced(String),
}

/// What the caller is to do next while a new path is connected.
#[derive(Debug)]
pub enum ConnectAction {
    /// Ask the node's NVMe connection service to connect this URI.
    Connect(String),
    /// List the host's NVMe subsystems.
    ListSubsystems,
    /// Watch the subsystem at this position of the list: wait and refresh its state.
    Track(usize),
    /// Wait and refresh the subsystem's state again.
    Wait,
    /// Connecting is over with this result.
    Done(Result<(), SvcError>),
    /// The path cannot be taken apart: its URI has an authority and no path.
    Abort,
    /// The event does not fit the current step; nothing to do.
    Ignore,
}

/// Step of connecting a new path.
#[derive(Debug)]
pub enum ConnectStep {
    Start,
    AwaitConnect,
    AwaitSubsystems(ParsedUri),
    AwaitSync,
    Finished,
}

/// Mathematical value of a `ConnectEvent`.
pub enum ConnectEventView {
    Begin,
    ClientUnavailable(SvcErrorView),
    ConnectFailed(Seq<char>),
    Connected,
    SubsystemsUnavailable,
    Subsystems(Seq<(Seq<char>, Seq<char>)>),
    SyncFailed,
    Synced(Seq<char>),
}

/// Mathematical value of a `ConnectAction`.
pub enum ConnectActionView {
    Connect(Seq<char>),
    ListSubsystems,
    Track(int),
    Wait,
    Done(Result<(), SvcErrorView>),
    Abort,
    Ignore,
}

/// Mathematical value of a `ConnectStep`.
pub enum ConnectStepView {
    Start,
    AwaitConnect,
    AwaitSubsystems((Seq<char>, Seq<char>, Seq<char>)),
    AwaitSync,
    Finished,
}

impl DeepView for ConnectEvent {
    type V = ConnectEventView;

    open spec fn deep_view(&self) -> ConnectEventView {
        match self {
            ConnectEvent::Begin => ConnectEventView::Begin,
            ConnectEvent::ClientUnavailable(e) => ConnectEventView::ClientUnavailable(
                e.deep_view(),
            ),
            ConnectEvent::ConnectFailed(t) => ConnectEventView::ConnectFailed(t@),
            ConnectEvent::Connected => ConnectEventView::Connected,
            ConnectEvent::SubsystemsUnavailable => ConnectEventView::SubsystemsUnavailable,
            ConnectEvent::Subsystems(l) => ConnectEventView::Subsystems(subsystems_view(l@)),
            ConnectEvent::SyncFailed => ConnectEventView::SyncFailed,
            ConnectEvent::Synced(s) => ConnectEventView::Synced(s@),
        }
    }
}

/// The view of a unit result.
pub open spec fn unit_result_view(r: Result<(), SvcError>) -> Result<(), SvcErrorView> {
    match r {
        Ok(()) => Ok(()),
        Err(e) => Err(e.deep_view()),
    }
}

impl DeepView for ConnectAction {
    type V = ConnectActionView;

    open spec fn deep_view(&self) -> ConnectActionView {
        match self {
            ConnectAction::Connect(u) => ConnectActionView::Connect(u@),
            ConnectAction::ListSubsystems => ConnectActionView::ListSubsystems,
            ConnectAction::Track(i) => ConnectActionView::Track(*i as int),
            ConnectAction::Wait => ConnectActionView::Wait,
            ConnectAction::Done(r) => ConnectActionView::Done(unit_result_view(*r)),
            ConnectAction::Abort => ConnectActionView::Abort,
            ConnectAction::Ignore => ConnectActionView::Ignore,
        }
    }
}

impl DeepView for ConnectStep {
    type V = ConnectStepView;

    open spec fn deep_view(&self) -> ConnectStepView {
        match self {
            ConnectStep::Start => ConnectStepView::Start,
            ConnectStep::AwaitConnect => ConnectStepView::AwaitConnect,
            ConnectStep::AwaitSubsystems(p) => ConnectStepView::AwaitSubsystems(p.spec_parts()),
            ConnectStep::AwaitSync => ConnectStepView::AwaitSync,
            ConnectStep::Finished => ConnectStepView::Finished,
        }
    }
}

/// Message of a failed connection to the new target.
pub open spec fn connect_failure_message(error: Seq<char>, new_path: Seq<char>, nqn: Seq<char>) -> Seq<
    char,
> {
    "Failed to connect to new NVMe target: "@ + error + ", new path: "@ + new_path + ", nqn: "@ + nqn
}

/// Message of a subsystem found in a state that will not become live.
pub open spec fn incorrect_state_message(state: Seq<char>) -> Seq<char> {
    "New NVMe path is in incorrect state: "@ + state
}

/// The next step and action of connecting `new_path` for target `nqn`, given the
/// current step and an event.
pub open spec fn connect_transition(
    step: ConnectStepView,
    new_path: Seq<char>,
    nqn: Seq<char>,
    event: ConnectEventView,
) -> (ConnectStepView, ConnectActionView) {
    match (step, event) {
        (ConnectStepView::Start, ConnectEventView::Begin) => (
            ConnectStepView::AwaitConnect,
            ConnectActionView::Connect(new_path),
        ),
        (ConnectStepView::AwaitConnect, ConnectEventView::ClientUnavailable(e)) => (
            ConnectStepView::Finished,
            ConnectActionView::Done(Err(e)),
        ),
        (ConnectStepView::AwaitConnect, ConnectEventView::ConnectFailed(text)) => (
            ConnectStepView::Finished,
            ConnectActionView::Done(
                Err(
                    SvcErrorView::Internal {
                        details: connect_failure_message(text, new_path, nqn),
                    },
                ),
            ),
        ),
        (ConnectStepView::AwaitConnect, ConnectEventView::Connected) => match parse_outcome(
            uri_components(new_path),
        ) {
            None => (ConnectStepView::Finished, ConnectActionView::Abort),
            Some(Err(e)) => (ConnectStepView::Finished, ConnectActionView::Done(Err(e))),
            Some(Ok(parsed)) => (
                ConnectStepView::AwaitSubsystems(parsed),
                ConnectActionView::ListSubsystems,
            ),
        },
        (ConnectStepView::AwaitSubsystems(parsed), ConnectEventView::SubsystemsUnavailable) => (
            ConnectStepView::Finished,
            ConnectActionView::Done(Err(SvcErrorView::SubsystemNotFound { nqn: parsed.2 })),
        ),
        (ConnectStepView::AwaitSubsystems(parsed), ConnectEventView::Subsystems(list)) => match first_match(
            list,
            parsed,
        ) {
            Some(i) => (ConnectStepView::AwaitSync, ConnectActionView::Track(i)),
            None => (
                ConnectStepView::Finished,
                ConnectActionView::Done(Err(SvcErrorView::SubsystemNotFound { nqn: parsed.2 })),
            ),
        },
        (ConnectStepView::AwaitSync, ConnectEventView::SyncFailed) => (
            ConnectStepView::Finished,
            ConnectActionView::Done(Ok(())),
        ),
        (ConnectStepView::AwaitSync, ConnectEventView::Synced(state)) => if state == "connecting"@
            || state == "new"@ {
            (ConnectStepView::AwaitSync, ConnectActionView::Wait)
        } else if state == "live"@ {
            (ConnectStepView::Finished, ConnectActionView::Done(Ok(())))
        } else {
            (
                ConnectStepView::Finished,
                ConnectActionView::Done(
                    Err(SvcErrorView::Internal { details: incorrect_state_message(state) }),
                ),
            )
        },
        (s, _) => (s, ConnectActionView::Ignore),
    }
}

/// Connecting a new NVMe path and waiting till the controller is fully connected.
#[derive(Debug)]
pub struct ConnectController {
    new_path: String,
    nqn: String,
    step: ConnectStep,
}

impl ConnectController {
    /// The path being connected.
    pub closed spec fn spec_new_path(self) -> Seq<char> {
        self.new_path@
    }

    /// The NQN of the target.
    pub closed spec fn spec_nqn(self) -> Seq<char> {
        self.nqn@
    }

    /// The current step.
    pub closed spec fn spec_step(self) -> ConnectStepView {
        self.step.deep_view()
    }

    /// Starts connecting `new_path` for the target `nqn`.
    pub fn new(new_path: String, nqn: String) -> (r: Self)
        ensures
            r.spec_new_path() == new_path@,
            r.spec_nqn() == nqn@,
            r.spec_step() == ConnectStepView::Start,
    {
        ConnectController { new_path, nqn, step: ConnectStep::Start }
    }

    /// Whether connecting is over.
    pub fn is_finished(&self) -> (r: bool)
        ensures
            r == (self.spec_step() is Finished),
    {
        match self.step {
            ConnectStep::Finished => true,
            _ => false,
        }
    }

    /// Takes the outcome of the last action and says what to do next.
    pub fn handle(&mut self, event: ConnectEvent) -> (action: ConnectAction)
        ensures
            final(self).spec_new_path() == old(self).spec_new_path(),
            final(self).spec_nqn() == old(self).spec_nqn(),
            (final(self).spec_step(), action.deep_view()) == connect_transition(
                old(self).spec_step(),
                old(self).spec_new_path(),
                old(self).spec_nqn(),
                event.deep_view(),
            ),
    {
        let mut step = ConnectStep::Finished;
        std::mem::swap(&mut step, &mut self.step);
        match (step, event) {
            (ConnectStep::Start, ConnectEvent::Begin) => {
                self.step = ConnectStep::AwaitConnect;
                ConnectAction::Connect(self.new_path.clone())
            },
            (ConnectStep::AwaitConnect, ConnectEvent::ClientUnavailable(e)) => {
                ConnectAction::Done(Err(e))
            },
            (ConnectStep::AwaitConnect, ConnectEvent::ConnectFailed(text)) => {
                let mut details = String::from_str("Failed to connect to new NVMe target: ");
                details.append(text.as_str());
                details.append(", new path: ");
                details.append(self.new_path.as_str());
                details.append(", nqn: ");
                details.append(self.nqn.as_str());
                ConnectAction::Done(Err(SvcError::Internal { details }))
            },
            (ConnectStep::AwaitConnect, ConnectEvent::Connected) => {
                match parse_uri(self.new_path.as_str()) {
                    None => ConnectAction::Abort,
                    Some(Err(e)) => ConnectAction::Done(Err(e)),
                    Some(Ok(parsed)) => {
                        self.step = ConnectStep::AwaitSubsystems(parsed);
                        ConnectAction::ListSubsystems
                    },
                }
            },
            (ConnectStep::AwaitSubsystems(parsed), ConnectEvent::SubsystemsUnavailable) => {
                ConnectAction::Done(Err(subsystem_not_found(&parsed)))
            },
            (ConnectStep::AwaitSubsystems(parsed), ConnectEvent::Subsystems(list)) => {
                match get_subsystem(&parsed, &list) {
                    Ok(i) => {
                        self.step = ConnectStep::AwaitSync;
                        ConnectAction::Track(i)
                    },
                    Err(e) => ConnectAction::Done(Err(e)),
                }
            },
            (ConnectStep::AwaitSync, ConnectEvent::SyncFailed) => ConnectAction::Done(Ok(())),
            (ConnectStep::AwaitSync, ConnectEvent::Synced(state)) => {
                let connecting = String::from_str("connecting");
                let fresh = String::from_str("new");
                let live = String::from_str("live");
                if state == connecting || state == fresh {
                    self.step = ConnectStep::AwaitSync;
                    ConnectAction::Wait
                } else if state == live {
                    ConnectAction::Done(Ok(()))
                } else {
                    let mut details = String::from_str("New NVMe path is in incorrect state: ");
                    details.append(state.as_str());
                    ConnectAction::Done(Err(SvcError::Internal { details }))
                }
            },
            (s, _) => {
                self.step = s;
                ConnectAction::Ignore
            },
        }
    }
}


/// What the caller found out about the controller of the failed path.
#[derive(Debug)]
pub enum ControllerSubsystem {
    /// The controller has no system path.
    NoSystemPath,
    /// The NVMe subsystem of the controller could not be read.
    Unreadable,
    /// The NVMe subsystem of the controller, with this address.
    Found(String),
}

/// Outcomes of the outside work while the failed path is disconnected.
#[derive(Debug)]
pub enum DisconnectEvent {
    /// Start disconnecting.
    Begin,
    /// What was found out about the controller.
    Observed(ControllerSubsystem),
    /// Disconnecting finished; the error's text if it failed.
    Disconnected(Result<(), String>),
}

/// What the caller is to do next while the failed path is disconnected.
#[derive(Debug)]
pub enum DisconnectAction {
    /// Find the controller's system path and read its NVMe subsystem.
    Inspect,
    /// Disconnect the controller's subsystem.
    Disconnect,
    /// Disconnecting is over with this result.
    Done(Result<(), SvcError>),
    /// The new path cannot be taken apart: its URI has an authority and no path.
    Abort,
    /// The event does not fit the current step; nothing to do.
    Ignore,
}

/// Step of disconnecting the failed path.
#[derive(Debug)]
pub enum DisconnectStep {
    Start,
    AwaitInspect(ParsedUri),
    AwaitDisconnect,
    Finished,
}

/// Mathematical value of a `ControllerSubsystem`.
pub enum ControllerSubsystemView {
    NoSystemPath,
    Unreadable,
    Found(Seq<char>),
}

/// Mathematical value of a `DisconnectEvent`.
pub enum DisconnectEventView {
    Begin,
    Observed(ControllerSubsystemView),
    Disconnected(Result<(), Seq<char>>),
}

/// Mathematical value of a `DisconnectAction`.
pub enum DisconnectActionView {
    Inspect,
    Disconnect,
    Done(Result<(), SvcErrorView>),
    Abort,
    Ignore,
}

/// Mathematical value of a `DisconnectStep`.
pub enum DisconnectStepView {
    Start,
    AwaitInspect((Seq<char>, Seq<char>, Seq<char>)),
    AwaitDisconnect,
    Finished,
}

impl DeepView for DisconnectEvent {
    type V = DisconnectEventView;

    open spec fn deep_view(&self) -> DisconnectEventView {
        match self {
            DisconnectEvent::Begin => DisconnectEventView::Begin,
            DisconnectEvent::Observed(o) => DisconnectEventView::Observed(
                match o {
                    ControllerSubsystem::NoSystemPath => ControllerSubsystemView::NoSystemPath,
                    ControllerSubsystem::Unreadable => ControllerSubsystemView::Unreadable,
                    ControllerSubsystem::Found(a) => ControllerSubsystemView::Found(a@),
                },
            ),
            DisconnectEvent::Disconnected(r) => DisconnectEventView::Disconnected(
                match r {
                    Ok(()) => Ok(()),
                    Err(t) => Err(t@),
                },
            ),
        }
    }
}

impl DeepView for DisconnectAction {
    type V = DisconnectActionView;

    open spec fn deep_view(&self) -> DisconnectActionView {
        match self {
            DisconnectAction::Inspect => DisconnectActionView::Inspect,
            DisconnectAction::Disconnect => DisconnectActionView::Disconnect,
            DisconnectAction::Done(r) => DisconnectActionView::Done(unit_result_view(*r)),
            DisconnectAction::Abort => DisconnectActionView::Abort,
            DisconnectAction::Ignore => DisconnectActionView::Ignore,
        }
    }
}

impl DeepView for DisconnectStep {
    type V = DisconnectStepView;

    open spec fn deep_view(&self) -> DisconnectStepView {
        match self {
            DisconnectStep::Start => DisconnectStepView::Start,
            DisconnectStep::AwaitInspect(p) => DisconnectStepView::AwaitInspect(p.spec_parts()),
            DisconnectStep::AwaitDisconnect => DisconnectStepView::AwaitDisconnect,
            DisconnectStep::Finished => DisconnectStepView::Finished,
        }
    }
}

/// Message of a failed disconnection of the controller at `path`.
pub open spec fn disconnect_failure_message(path: Seq<char>, error: Seq<char>) -> Seq<char> {
    "Failed to disconnect NVMe controller "@ + path + ": "@ + error
}

/// The next step and action of disconnecting the controller at
/// `controller_path` once `new_path` has been connected.
pub open spec fn disconnect_transition(
    step: DisconnectStepView,
    new_path: Seq<char>,
    controller_path: Seq<char>,
    event: DisconnectEventView,
) -> (DisconnectStepView, DisconnectActionView) {
    match (step, event) {
        (DisconnectStepView::Start, DisconnectEventView::Begin) => match parse_outcome(
            uri_components(new_path),
        ) {
            None => (DisconnectStepView::Finished, DisconnectActionView::Abort),
            Some(Err(e)) => (DisconnectStepView::Finished, DisconnectActionView::Done(Err(e))),
            Some(Ok(parsed)) => (
                DisconnectStepView::AwaitInspect(parsed),
                DisconnectActionView::Inspect,
            ),
        },
        (DisconnectStepView::AwaitInspect(parsed), DisconnectEventView::Observed(o)) => match o {
            ControllerSubsystemView::NoSystemPath => (
                DisconnectStepView::Finished,
                DisconnectActionView::Done(
                    Err(
                        SvcErrorView::Internal {
                            details: "Failed to get system path for controller"@,
                        },
                    ),
                ),
            ),
            ControllerSubsystemView::Unreadable => (
                DisconnectStepView::Finished,
                DisconnectActionView::Done(
                    Err(
                        SvcErrorView::Internal {
                            details: "Failed to get NVMe subsystem for controller"@,
                        },
                    ),
                ),
            ),
            ControllerSubsystemView::Found(address) => if address == subsystem_address(
                parsed.0,
                parsed.1,
            ) {
                (DisconnectStepView::Finished, DisconnectActionView::Done(Ok(())))
            } else {
                (DisconnectStepView::AwaitDisconnect, DisconnectActionView::Disconnect)
            },
        },
        (DisconnectStepView::AwaitDisconnect, DisconnectEventView::Disconnected(r)) => match r {
            Ok(()) => (DisconnectStepView::Finished, DisconnectActionView::Done(Ok(()))),
            Err(text) => (
                DisconnectStepView::Finished,
                DisconnectActionView::Done(
                    Err(
                        SvcErrorView::Internal {
                            details: disconnect_failure_message(controller_path, text),
                        },
                    ),
                ),
            ),
        },
        (s, _) => (s, DisconnectActionView::Ignore),
    }
}

/// Disconnecting the cached NVMe controller of a failed path, unless it is the
/// controller of the new path itself.
#[derive(Debug)]
pub struct DisconnectController {
    new_path: String,
    controller_path: String,
    step: DisconnectStep,
}

impl DisconnectController {
    /// The new path.
    pub closed spec fn spec_new_path(self) -> Seq<char> {
        self.new_path@
    }

    /// The system path of the controller of the failed path.
    pub closed spec fn spec_controller_path(self) -> Seq<char> {
        self.controller_path@
    }

    /// The current step.
    pub closed spec fn spec_step(self) -> DisconnectStepView {
        self.step.deep_view()
    }

    /// Starts disconnecting the controller at `controller_path` now that
    /// `new_path` is connected.
    pub fn new(controller_path: String, new_path: String) -> (r: Self)
        ensures
            r.spec_new_path() == new_path@,
            r.spec_controller_path() == controller_path@,
            r.spec_step() == DisconnectStepView::Start,
    {
        DisconnectController { new_path, controller_path, step: DisconnectStep::Start }
    }

    /// Whether disconnecting is over.
    pub fn is_finished(&self) -> (r: bool)
        ensures
            r == (self.spec_step() is Finished),
    {
        match self.step {
            DisconnectStep::Finished => true,
            _ => false,
        }
    }

    /// Takes the outcome of the last action and says what to do next.
    pub fn handle(&mut self, event: DisconnectEvent) -> (action: DisconnectAction)
        ensures
            final(self).spec_new_path() == old(self).spec_new_path(),
            final(self).spec_controller_path() == old(self).spec_controller_path(),
            (final(self).spec_step(), action.deep_view()) == disconnect_transition(
                old(self).spec_step(),
                old(self).spec_new_path(),
                old(self).spec_controller_path(),
                event.deep_view(),
            ),
    {
        let mut step = DisconnectStep::Finished;
        std::mem::swap(&mut step, &mut self.step);
        match (step, event) {
            (DisconnectStep::Start, DisconnectEvent::Begin) => {
                match parse_uri(self.new_path.as_str()) {
                    None => DisconnectAction::Abort,
                    Some(Err(e)) => DisconnectAction::Done(Err(e)),
                    Some(Ok(parsed)) => {
                        self.step = DisconnectStep::AwaitInspect(parsed);
                        DisconnectAction::Inspect
                    },
                }
            },
            (DisconnectStep::AwaitInspect(parsed), DisconnectEvent::Observed(o)) => {
                match o {
                    ControllerSubsystem::NoSystemPath => DisconnectAction::Done(
                        Err(
                            SvcError::Internal {
                                details: String::from_str("Failed to get system path for controller"),
                            },
                        ),
                    ),
                    ControllerSubsystem::Unreadable => DisconnectAction::Done(
                        Err(
                            SvcError::Internal {
                                details: String::from_str(
                                    "Failed to get NVMe subsystem for controller",
                                ),
                            },
                        ),
                    ),
                    ControllerSubsystem::Found(address) => {
                        if address == SubsystemAddr::new(parsed.host(), parsed.port()) {
                            DisconnectAction::Done(Ok(()))
                        } else {
                            self.step = DisconnectStep::AwaitDisconnect;
                            DisconnectAction::Disconnect
                        }
                    },
                }
            },
            (DisconnectStep::AwaitDisconnect, DisconnectEvent::Disconnected(r)) => {
                match r {
                    Ok(()) => DisconnectAction::Done(Ok(())),
                    Err(text) => {
                        let mut details = String::from_str("Failed to disconnect NVMe controller ");
                        details.append(self.controller_path.as_str());
                        details.append(": ");
                        details.append(text.as_str());
                        DisconnectAction::Done(Err(SvcError::Internal { details }))
                    },
                }
            },
            (s, _) => {
                self.step = s;
                DisconnectAction::Ignore
            },
        }
    }
}

/// Kinds of errors returned to gRPC callers.
#[derive(Debug, Clone, Copy, PartialEq, Eq, Structural)]
pub enum ReplyErrorKind {
    FailedPrecondition,
    InvalidArgument,
    Internal,
    NotFound,
}

/// Error returned to a gRPC caller.
#[derive(Debug)]
pub struct ReplyError {
    /// Kind of error.
    pub kind: ReplyErrorKind,
    /// Resource the error is about.
    pub resource: ResourceKind,
    /// Where the error comes from.
    pub source: String,
    /// What went wrong.
    pub extra: String,
}

impl ReplyError {
    /// A failed-precondition error about `resource`.
    pub fn failed_precondition(resource: ResourceKind, source: String, extra: String) -> (r: Self)
        ensures
            r.kind == ReplyErrorKind::FailedPrecondition,
            r.resource == resource,
            r.source == source,
            r.extra == extra,
    {
        ReplyError { kind: ReplyErrorKind::FailedPrecondition, resource, source, extra }
    }

    /// An invalid-argument error about the named argument of `resource`.
    pub fn invalid_argument(resource: ResourceKind, arg_name: &str, error: String) -> (r: Self)
        ensures
            r.kind == ReplyErrorKind::InvalidArgument,
            r.resource == resource,
            r.source@ == arg_name@,
            r.extra == error,
    {
        ReplyError {
            kind: ReplyErrorKind::InvalidArgument,
            resource,
            source: String::from_str(arg_name),
            extra: error,
        }
    }
}

/// Why replacing a failed path failed.
#[derive(Debug)]
pub enum ReplacePathError {
    /// The controller of the failed path could not be looked up.
    Lookup(ReplyError),
    /// Connecting the new path failed.
    Connect(SvcError),
}

/// Outcomes of the outside work while a failed path is replaced.
#[derive(Debug)]
pub enum ReplaceEvent {
    /// Start replacing.
    Begin,
    /// No controller is cached for the target.
    LookupFailed,
    /// The controller of the failed path was found.
    LookupFound,
    /// Connecting the new path finished.
    Connected(Result<(), SvcError>),
    /// Disconnecting the failed path finished.
    Disconnected(Result<(), SvcError>),
}

/// What the caller is to do next while a failed path is replaced.
#[derive(Debug)]
pub enum ReplaceAction {
    /// Look up the cached controller of this target NQN.
    Lookup(String),
    /// Connect the new path (a `ConnectController`) for the target NQN.
    Connect { new_path: String, nqn: String },
    /// Disconnect the failed path (a `DisconnectController`) now that this new path is connected.
    Disconnect(String),
    /// Replacing is over with this result.
    Done(Result<(), ReplacePathError>),
    /// Replacing succeeded, but the failed path could not be disconnected: a warning only.
    DoneWithWarning(SvcError),
    /// The event does not fit the current step; nothing to do.
    Ignore,
}

/// Step of replacing a failed path.
#[derive(Debug, Clone, Copy, PartialEq, Eq, Structural)]
pub enum ReplaceStep {
    Start,
    AwaitLookup,
    AwaitConnect,
    AwaitDisconnect,
    Finished,
}

/// Mathematical value of a `ReplaceEvent`.
pub enum ReplaceEventView {
    Begin,
    LookupFailed,
    LookupFound,
    Connected(Result<(), SvcErrorView>),
    Disconnected(Result<(), SvcErrorView>),
}

/// Mathematical value of a `ReplyError`.
pub struct ReplyErrorView {
    pub kind: ReplyErrorKind,
    pub resource: ResourceKind,
    pub source: Seq<char>,
    pub extra: Seq<char>,
}

/// Mathematical value of a `ReplacePathError`.
pub enum ReplacePathErrorView {
    Lookup(ReplyErrorView),
    Connect(SvcErrorView),
}

/// Mathematical value of a `ReplaceAction`.
pub enum ReplaceActionView {
    Lookup(Seq<char>),
    Connect { new_path: Seq<char>, nqn: Seq<char> },
    Disconnect(Seq<char>),
    Done(Result<(), ReplacePathErrorView>),
    DoneWithWarning(SvcErrorView),
    Ignore,
}

impl DeepView for ReplaceEvent {
    type V = ReplaceEventView;

    open spec fn deep_view(&self) -> ReplaceEventView {
        match self {
            ReplaceEvent::Begin => ReplaceEventView::Begin,
            ReplaceEvent::LookupFailed => ReplaceEventView::LookupFailed,
            ReplaceEvent::LookupFound => ReplaceEventView::LookupFound,
            ReplaceEvent::Connected(r) => ReplaceEventView::Connected(unit_result_view(*r)),
            ReplaceEvent::Disconnected(r) => ReplaceEventView::Disconnected(unit_result_view(*r)),
        }
    }
}

impl DeepView for ReplyError {
    type V = ReplyErrorView;

    open spec fn deep_view(&self) -> ReplyErrorView {
        ReplyErrorView {
            kind: self.kind,
            resource: self.resource,
            source: self.source@,
            extra: self.extra@,
        }
    }
}

impl DeepView for ReplaceAction {
    type V = ReplaceActionView;

    open spec fn deep_view(&self) -> ReplaceActionView {
        match self {
            ReplaceAction::Lookup(n) => ReplaceActionView::Lookup(n@),
            ReplaceAction::Connect { new_path, nqn } => ReplaceActionView::Connect {
                new_path: new_path@,
                nqn: nqn@,
            },
            ReplaceAction::Disconnect(p) => ReplaceActionView::Disconnect(p@),
            ReplaceAction::Done(r) => ReplaceActionView::Done(
                match r {
                    Ok(()) => Ok(()),
                    Err(ReplacePathError::Lookup(e)) => Err(
                        ReplacePathErrorView::Lookup(e.deep_view()),
                    ),
                    Err(ReplacePathError::Connect(e)) => Err(
                        ReplacePathErrorView::Connect(e.deep_view()),
                    ),
                },
            ),
            ReplaceAction::DoneWithWarning(e) => ReplaceActionView::DoneWithWarning(e.deep_view()),
            ReplaceAction::Ignore => ReplaceActionView::Ignore,
        }
    }
}

/// The error of a controller that could not be looked up.
pub open spec fn lookup_error() -> ReplyErrorView {
    ReplyErrorView {
        kind: ReplyErrorKind::FailedPrecondition,
        resource: ResourceKind::Nexus,
        source: HA_AGENT_ERR_SOURCE@,
        extra: "Failed to lookup controller"@,
    }
}

/// The next step and action of replacing the failed path to `target_nqn` by `new_path`.
pub open spec fn replace_transition(
    step: ReplaceStep,
    target_nqn: Seq<char>,
    new_path: Seq<char>,
    event: ReplaceEventView,
) -> (ReplaceStep, ReplaceActionView) {
    match (step, event) {
        (ReplaceStep::Start, ReplaceEventView::Begin) => (
            ReplaceStep::AwaitLookup,
            ReplaceActionView::Lookup(target_nqn),
        ),
        (ReplaceStep::AwaitLookup, ReplaceEventView::LookupFailed) => (
            ReplaceStep::Finished,
            ReplaceActionView::Done(Err(ReplacePathErrorView::Lookup(lookup_error()))),
        ),
        (ReplaceStep::AwaitLookup, ReplaceEventView::LookupFound) => (
            ReplaceStep::AwaitConnect,
            ReplaceActionView::Connect { new_path, nqn: target_nqn },
        ),
        (ReplaceStep::AwaitConnect, ReplaceEventView::Connected(r)) => match r {
            Ok(()) => (ReplaceStep::AwaitDisconnect, ReplaceActionView::Disconnect(new_path)),
            Err(e) => (
                ReplaceStep::Finished,
                ReplaceActionView::Done(Err(ReplacePathErrorView::Connect(e))),
            ),
        },
        (ReplaceStep::AwaitDisconnect, ReplaceEventView::Disconnected(r)) => match r {
            Ok(()) => (ReplaceStep::Finished, ReplaceActionView::Done(Ok(()))),
            Err(e) => (ReplaceStep::Finished, ReplaceActionView::DoneWithWarning(e)),
        },
        (s, _) => (s, ReplaceActionView::Ignore),
    }
}

/// Replacing the failed NVMe path to a target NQN by a new path.
#[derive(Debug)]
pub struct ReplacePathTask {
    target_nqn: String,
    new_path: String,
    step: ReplaceStep,
}

impl ReplacePathTask {
    /// The NQN of the target.
    pub closed spec fn spec_target_nqn(self) -> Seq<char> {
        self.target_nqn@
    }

    /// The new path.
    pub closed spec fn spec_new_path(self) -> Seq<char> {
        self.new_path@
    }

    /// The current step.
    pub closed spec fn spec_step(self) -> ReplaceStep {
        self.step
    }

    /// Starts replacing the failed path to `target_nqn` by `new_path`.
    pub fn new(target_nqn: String, new_path: String) -> (r: Self)
        ensures
            r.spec_target_nqn() == target_nqn@,
            r.spec_new_path() == new_path@,
            r.spec_step() == ReplaceStep::Start,
    {
        ReplacePathTask { target_nqn, new_path, step: ReplaceStep::Start }
    }

    /// Whether replacing is over.
    pub fn is_finished(&self) -> (r: bool)
        ensures
            r == (self.spec_step() == ReplaceStep::Finished),
    {
        self.step == ReplaceStep::Finished
    }

    /// Takes the outcome of the last action and says what to do next.
    pub fn handle(&mut self, event: ReplaceEvent) -> (action: ReplaceAction)
        ensures
            final(self).spec_target_nqn() == old(self).spec_target_nqn(),
            final(self).spec_new_path() == old(self).spec_new_path(),
            (final(self).spec_step(), action.deep_view()) == replace_transition(
                old(self).spec_step(),
                old(self).spec_target_nqn(),
                old(self).spec_new_path(),
                event.deep_view(),
            ),
    {
        match (self.step, event) {
            (ReplaceStep::Start, ReplaceEvent::Begin) => {
                self.step = ReplaceStep::AwaitLookup;
                ReplaceAction::Lookup(self.target_nqn.clone())
            },
            (ReplaceStep::AwaitLookup, ReplaceEvent::LookupFailed) => {
                self.step = ReplaceStep::Finished;
                ReplaceAction::Done(
                    Err(
                        ReplacePathError::Lookup(
                            ReplyError::failed_precondition(
                                ResourceKind::Nexus,
                                String::from_str(HA_AGENT_ERR_SOURCE),
                                String::from_str("Failed to lookup controller"),
                            ),
                        ),
                    ),
                )
            },
            (ReplaceStep::AwaitLookup, ReplaceEvent::LookupFound) => {
                self.step = ReplaceStep::AwaitConnect;
                ReplaceAction::Connect {
                    new_path: self.new_path.clone(),
                    nqn: self.target_nqn.clone(),
                }
            },
            (ReplaceStep::AwaitConnect, ReplaceEvent::Connected(r)) => {
                self.step = ReplaceStep::Finished;
                match r {
                    Ok(()) => {
                        self.step = ReplaceStep::AwaitDisconnect;
                        ReplaceAction::Disconnect(self.new_path.clone())
                    },
                    Err(e) => ReplaceAction::Done(Err(ReplacePathError::Connect(e))),
                }
            },
            (ReplaceStep::AwaitDisconnect, ReplaceEvent::Disconnected(r)) => {
                self.step = ReplaceStep::Finished;
                match r {
                    Ok(()) => ReplaceAction::Done(Ok(())),
                    Err(e) => ReplaceAction::DoneWithWarning(e),
                }
            },
            _ => ReplaceAction::Ignore,
        }
    }
}

/// Once connecting is finished, no event changes anything.
pub proof fn law_connect_finished_is_final(new_path: Seq<char>, nqn: Seq<char>, event: ConnectEventView)
    ensures
        connect_transition(ConnectStepView::Finished, new_path, nqn, event) == (
            ConnectStepView::Finished,
            ConnectActionView::Ignore,
        ),
{
}

/// Connecting succeeds only once the new subsystem is live, or when its state can
/// no longer be refreshed; while it is connecting or new, the caller keeps waiting.
pub proof fn law_connect_success(
    step: ConnectStepView,
    new_path: Seq<char>,
    nqn: Seq<char>,
    event: ConnectEventView,
)
    ensures
        ({
            let (next, action) = connect_transition(step, new_path, nqn, event);
            &&& action == ConnectActionView::Done(Ok(())) ==> step is AwaitSync && (
            event is SyncFailed || event == ConnectEventView::Synced("live"@))
            &&& action is Wait <==> (step is AwaitSync && (event == ConnectEventView::Synced(
                "connecting"@,
            ) || event == ConnectEventView::Synced("new"@)))
            &&& action is Wait ==> next is AwaitSync
        }),
{
}

/// Once disconnecting is finished, no event changes anything.
pub proof fn law_disconnect_finished_is_final(
    new_path: Seq<char>,
    controller_path: Seq<char>,
    event: DisconnectEventView,
)
    ensures
        disconnect_transition(DisconnectStepView::Finished, new_path, controller_path, event) == (
            DisconnectStepView::Finished,
            DisconnectActionView::Ignore,
        ),
{
}

/// The controller is never disconnected when its subsystem is the one of the new path.
pub proof fn law_disconnect_spares_new_path(
    parsed: (Seq<char>, Seq<char>, Seq<char>),
    new_path: Seq<char>,
    controller_path: Seq<char>,
)
    ensures
        disconnect_transition(
            DisconnectStepView::AwaitInspect(parsed),
            new_path,
            controller_path,
            DisconnectEventView::Observed(
                ControllerSubsystemView::Found(subsystem_address(parsed.0, parsed.1)),
            ),
        ) == (DisconnectStepView::Finished, DisconnectActionView::Done(Ok(()))),
{
}

/// Once replacing is finished, no event changes anything.
pub proof fn law_replace_finished_is_final(
    target_nqn: Seq<char>,
    new_path: Seq<char>,
    event: ReplaceEventView,
)
    ensures
        replace_transition(ReplaceStep::Finished, target_nqn, new_path, event) == (
            ReplaceStep::Finished,
            ReplaceActionView::Ignore,
        ),
{
}

/// The failed path is disconnected only after the new path has been connected,
/// and a failure to disconnect it never fails the replacement.
pub proof fn law_replace_disconnect_after_connect(
    step: ReplaceStep,
    target_nqn: Seq<char>,
    new_path: Seq<char>,
    event: ReplaceEventView,
)
    ensures
        ({
            let (next, action) = replace_transition(step, target_nqn, new_path, event);
            &&& action is Disconnect ==> step == ReplaceStep::AwaitConnect && event
                == ReplaceEventView::Connected(Ok(()))
            &&& step == ReplaceStep::AwaitDisconnect && event is Disconnected ==> (action
                == ReplaceActionView::Done(Ok(())) || action is DoneWithWarning)
            &&& action is Connect ==> step == ReplaceStep::AwaitLookup && event is LookupFound
        }),
{
    if let ReplaceEventView::Connected(r) = event {
        if let Ok(u) = r {
            assert(u == ());
            assert(r == Ok::<(), SvcErrorView>(()));
        }
    }
}

/// What each step of replacing a path does with each outcome: the lookup comes
/// first, with the target's NQN; a failed lookup fails the replacement with a
/// failed-precondition error about the nexus; a found controller leads to
/// connecting the new path for the target; a failed connection fails the
/// replacement with that very error; a successful one leads to disconnecting the
/// failed path; and only a failed disconnection ends in a warning, with its error.
pub proof fn law_replace_outcomes(
    target_nqn: Seq<char>,
    new_path: Seq<char>,
    e: SvcErrorView,
)
    ensures
        replace_transition(ReplaceStep::Start, target_nqn, new_path, ReplaceEventView::Begin) == (
            ReplaceStep::AwaitLookup,
            ReplaceActionView::Lookup(target_nqn),
        ),
        replace_transition(
            ReplaceStep::AwaitLookup,
            target_nqn,
            new_path,
            ReplaceEventView::LookupFailed,
        ) == (
            ReplaceStep::Finished,
            ReplaceActionView::Done(
                Err(
                    ReplacePathErrorView::Lookup(
                        ReplyErrorView {
                            kind: ReplyErrorKind::FailedPrecondition,
                            resource: ResourceKind::Nexus,
                            source: "HA Node agent gRPC server"@,
                            extra: "Failed to lookup controller"@,
                        },
                    ),
                ),
            ),
        ),
        replace_transition(
            ReplaceStep::AwaitLookup,
            target_nqn,
            new_path,
            ReplaceEventView::LookupFound,
        ) == (ReplaceStep::AwaitConnect, ReplaceActionView::Connect { new_path, nqn: target_nqn }),
        replace_transition(
            ReplaceStep::AwaitConnect,
            target_nqn,
            new_path,
            ReplaceEventView::Connected(Err(e)),
        ) == (ReplaceStep::Finished, ReplaceActionView::Done(Err(ReplacePathErrorView::Connect(e)))),
        replace_transition(
            ReplaceStep::AwaitConnect,
            target_nqn,
            new_path,
            ReplaceEventView::Connected(Ok(())),
        ) == (ReplaceStep::AwaitDisconnect, ReplaceActionView::Disconnect(new_path)),
        replace_transition(
            ReplaceStep::AwaitDisconnect,
            target_nqn,
            new_path,
            ReplaceEventView::Disconnected(Ok(())),
        ) == (ReplaceStep::Finished, ReplaceActionView::Done(Ok(()))),
        replace_transition(
            ReplaceStep::AwaitDisconnect,
            target_nqn,
            new_path,
            ReplaceEventView::Disconnected(Err(e)),
        ) == (ReplaceStep::Finished, ReplaceActionView::DoneWithWarning(e)),
{
    reveal_strlit("HA Node agent gRPC server");
}

/// A replacement ends with a warning only after a failed disconnection, carrying
/// its error; it ends in success only after the failed path is disconnected.
pub proof fn law_replace_warning_only_after_disconnect(
    step: ReplaceStep,
    target_nqn: Seq<char>,
    new_path: Seq<char>,
    event: ReplaceEventView,
)
    ensures
        ({
            let (_, action) = replace_transition(step, target_nqn, new_path, event);
            &&& action matches ReplaceActionView::DoneWithWarning(e) ==> step
                == ReplaceStep::AwaitDisconnect && event == ReplaceEventView::Disconnected(Err(e))
            &&& action == ReplaceActionView::Done(Ok(())) ==> step == ReplaceStep::AwaitDisconnect
                && event == ReplaceEventView::Disconnected(Ok(()))
        }),
{
    if let ReplaceEventView::Disconnected(r) = event {
        if let Ok(u) = r {
            assert(u == ());
            assert(r == Ok::<(), SvcErrorView>(()));
        }
    }
}

/// What connecting does with each outcome: it asks to connect the new path; a
/// missing client fails it with the client's error; a refused connection fails it
/// with an internal error naming the refusal, the new path and the NQN; a
/// subsystem list without the path's subsystem, or no list, fails it as not found;
/// and a tracked subsystem is waited on while it is connecting or new, succeeds
/// once live, succeeds when it can no longer be refreshed, and fails in any other
/// state with an internal error naming that state.
pub proof fn law_connect_outcomes(
    new_path: Seq<char>,
    nqn: Seq<char>,
    e: SvcErrorView,
    text: Seq<char>,
    parsed: (Seq<char>, Seq<char>, Seq<char>),
    list: Seq<(Seq<char>, Seq<char>)>,
    state: Seq<char>,
)
    ensures
        connect_transition(ConnectStepView::Start, new_path, nqn, ConnectEventView::Begin) == (
            ConnectStepView::AwaitConnect,
            ConnectActionView::Connect(new_path),
        ),
        connect_transition(
            ConnectStepView::AwaitConnect,
            new_path,
            nqn,
            ConnectEventView::ClientUnavailable(e),
        ) == (ConnectStepView::Finished, ConnectActionView::Done(Err(e))),
        connect_transition(
            ConnectStepView::AwaitConnect,
            new_path,
            nqn,
            ConnectEventView::ConnectFailed(text),
        ) == (
            ConnectStepView::Finished,
            ConnectActionView::Done(
                Err(
                    SvcErrorView::Internal {
                        details: "Failed to connect to new NVMe target: "@ + text + ", new path: "@
                            + new_path + ", nqn: "@ + nqn,
                    },
                ),
            ),
        ),
        connect_transition(
            ConnectStepView::AwaitSubsystems(parsed),
            new_path,
            nqn,
            ConnectEventView::SubsystemsUnavailable,
        ) == (
            ConnectStepView::Finished,
            ConnectActionView::Done(Err(SvcErrorView::SubsystemNotFound { nqn: parsed.2 })),
        ),
        (forall|i: int|
            0 <= i < list.len() ==> !(#[trigger] list[i].0 == parsed.2 && list[i].1 == "traddr="@
                + parsed.0 + ",trsvcid="@ + parsed.1)) ==> connect_transition(
            ConnectStepView::AwaitSubsystems(parsed),
            new_path,
            nqn,
            ConnectEventView::Subsystems(list),
        ) == (
            ConnectStepView::Finished,
            ConnectActionView::Done(Err(SvcErrorView::SubsystemNotFound { nqn: parsed.2 })),
        ),
        connect_transition(ConnectStepView::AwaitSync, new_path, nqn, ConnectEventView::SyncFailed)
            == (ConnectStepView::Finished, ConnectActionView::Done(Ok(()))),
        (state == "connecting"@ || state == "new"@) ==> connect_transition(
            ConnectStepView::AwaitSync,
            new_path,
            nqn,
            ConnectEventView::Synced(state),
        ) == (ConnectStepView::AwaitSync, ConnectActionView::Wait),
        state == "live"@ ==> connect_transition(
            ConnectStepView::AwaitSync,
            new_path,
            nqn,
            ConnectEventView::Synced(state),
        ) == (ConnectStepView::Finished, ConnectActionView::Done(Ok(()))),
        (state != "connecting"@ && state != "new"@ && state != "live"@) ==> connect_transition(
            ConnectStepView::AwaitSync,
            new_path,
            nqn,
            ConnectEventView::Synced(state),
        ) == (
            ConnectStepView::Finished,
            ConnectActionView::Done(
                Err(
                    SvcErrorView::Internal {
                        details: "New NVMe path is in incorrect state: "@ + state,
                    },
                ),
            ),
        ),
{
    reveal_strlit("live");
    reveal_strlit("new");
    reveal_strlit("connecting");
    assert("live"@[0] != "new"@[0]);
    assert("live"@.len() != "connecting"@.len());
    if forall|i: int|
        0 <= i < list.len() ==> !(#[trigger] list[i].0 == parsed.2 && list[i].1 == "traddr="@
            + parsed.0 + ",trsvcid="@ + parsed.1) {
        assert forall|j: int| 0 <= j < list.len() implies !subsystem_matches(#[trigger] list[j], parsed) by {
            assert(!(list[j].0 == parsed.2 && list[j].1 == "traddr="@ + parsed.0 + ",trsvcid="@ + parsed.1));
        }
        crate::nvme_uri::lemma_first_match(list, parsed, list.len() as int);
    }
}

/// A tracked subsystem is the first one in the list with the path's NQN and the
/// address of its host and port.
pub proof fn law_connect_tracks_first_match(
    new_path: Seq<char>,
    nqn: Seq<char>,
    parsed: (Seq<char>, Seq<char>, Seq<char>),
    list: Seq<(Seq<char>, Seq<char>)>,
    i: int,
)
    requires
        0 <= i < list.len(),
        list[i].0 == parsed.2,
        list[i].1 == "traddr="@ + parsed.0 + ",trsvcid="@ + parsed.1,
        forall|j: int|
            0 <= j < i ==> !(#[trigger] list[j].0 == parsed.2 && list[j].1 == "traddr="@ + parsed.0
                + ",trsvcid="@ + parsed.1),
    ensures
        connect_transition(
            ConnectStepView::AwaitSubsystems(parsed),
            new_path,
            nqn,
            ConnectEventView::Subsystems(list),
        ) == (ConnectStepView::AwaitSync, ConnectActionView::Track(i)),
{
    assert forall|j: int| 0 <= j < i implies !subsystem_matches(#[trigger] list[j], parsed) by {
        assert(!(list[j].0 == parsed.2 && list[j].1 == "traddr="@ + parsed.0 + ",trsvcid="@ + parsed.1));
    }
    crate::nvme_uri::lemma_first_match(list, parsed, i);
}

/// What disconnecting does once the new path is taken apart: a controller with
/// no system path or an unreadable subsystem fails it with an internal error; a
/// subsystem at the new path's own address is kept and the call succeeds; any
/// other is disconnected; a failed disconnection fails it with an internal error
/// naming the controller and the error.
pub proof fn law_disconnect_outcomes(
    parsed: (Seq<char>, Seq<char>, Seq<char>),
    new_path: Seq<char>,
    controller_path: Seq<char>,
    address: Seq<char>,
    text: Seq<char>,
)
    ensures
        disconnect_transition(
            DisconnectStepView::AwaitInspect(parsed),
            new_path,
            controller_path,
            DisconnectEventView::Observed(ControllerSubsystemView::NoSystemPath),
        ) == (
            DisconnectStepView::Finished,
            DisconnectActionView::Done(
                Err(SvcErrorView::Internal { details: "Failed to get system path for controller"@ }),
            ),
        ),
        disconnect_transition(
            DisconnectStepView::AwaitInspect(parsed),
            new_path,
            controller_path,
            DisconnectEventView::Observed(ControllerSubsystemView::Unreadable),
        ) == (
            DisconnectStepView::Finished,
            DisconnectActionView::Done(
                Err(
                    SvcErrorView::Internal {
                        details: "Failed to get NVMe subsystem for controller"@,
                    },
                ),
            ),
        ),
        address != "traddr="@ + parsed.0 + ",trsvcid="@ + parsed.1 ==> disconnect_transition(
            DisconnectStepView::AwaitInspect(parsed),
            new_path,
            controller_path,
            DisconnectEventView::Observed(ControllerSubsystemView::Found(address)),
        ) == (DisconnectStepView::AwaitDisconnect, DisconnectActionView::Disconnect),
        address == "traddr="@ + parsed.0 + ",trsvcid="@ + parsed.1 ==> disconnect_transition(
            DisconnectStepView::AwaitInspect(parsed),
            new_path,
            controller_path,
            DisconnectEventView::Observed(ControllerSubsystemView::Found(address)),
        ) == (DisconnectStepView::Finished, DisconnectActionView::Done(Ok(()))),
        disconnect_transition(
            DisconnectStepView::AwaitDisconnect,
            new_path,
            controller_path,
            DisconnectEventView::Disconnected(Err(text)),
        ) == (
            DisconnectStepView::Finished,
            DisconnectActionView::Done(
                Err(
                    SvcErrorView::Internal {
                        details: "Failed to disconnect NVMe controller "@ + controller_path + ": "@
                            + text,
                    },
                ),
            ),
        ),
        disconnect_transition(
            DisconnectStepView::AwaitDisconnect,
            new_path,
            controller_path,
            DisconnectEventView::Disconnected(Ok(())),
        ) == (DisconnectStepView::Finished, DisconnectActionView::Done(Ok(()))),
{
}

/// Once the new path is connected, it is taken apart: a path that is no URI with
/// a host and a port fails connecting with that error; otherwise the subsystems are
/// listed to find the one of its host, port and NQN. Disconnecting likewise starts
/// by taking the new path apart, and inspects the controller only if that works.
pub proof fn law_path_taken_apart_first(new_path: Seq<char>, nqn: Seq<char>, controller_path: Seq<char>)
    ensures
        parse_outcome(uri_components(new_path)) matches Some(Ok(parsed)) ==> connect_transition(
            ConnectStepView::AwaitConnect,
            new_path,
            nqn,
            ConnectEventView::Connected,
        ) == (ConnectStepView::AwaitSubsystems(parsed), ConnectActionView::ListSubsystems),
        parse_outcome(uri_components(new_path)) matches Some(Err(e)) ==> connect_transition(
            ConnectStepView::AwaitConnect,
            new_path,
            nqn,
            ConnectEventView::Connected,
        ) == (ConnectStepView::Finished, ConnectActionView::Done(Err(e))),
        parse_outcome(uri_components(new_path)) matches Some(Ok(parsed)) ==> disconnect_transition(
            DisconnectStepView::Start,
            new_path,
            controller_path,
            DisconnectEventView::Begin,
        ) == (DisconnectStepView::AwaitInspect(parsed), DisconnectActionView::Inspect),
        parse_outcome(uri_components(new_path)) matches Some(Err(e)) ==> disconnect_transition(
            DisconnectStepView::Start,
            new_path,
            controller_path,
            DisconnectEventView::Begin,
        ) == (DisconnectStepView::Finished, DisconnectActionView::Done(Err(e))),
{
}

} // verus!
