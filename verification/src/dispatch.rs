//! The dispatcher of administrative requests.
//!
//! A request changes the shared state of the server, asks for work that
//! other parts of the server do, or both. The dispatcher makes the change
//! itself and names the work as a list of effects; whoever runs the
//! dispatcher carries the effects out in their order, outside of any lock on
//! the state, and hands what an effect reports to [`follow_up`].

use crate::clients::{
    after_action,
    after_removal_request,
    ClientListAction,
    ClientRegistry,
    ConnectionState,
    Removal,
};
use crate::event::{Document, EventType, EventTypeView, LogEntry, LogEntryView, LogLevel};
use vstd::prelude::*;
use vstd::string::*;

verus! {

/// What to do with the firewall rules of the host.
#[derive(Clone, Copy, Debug, PartialEq, Eq, Structural)]
pub enum FirewallRulesAction {
    Add,
    Remove,
}

/// A request from a dashboard. Values that other parts of the server own
/// are carried as the JSON text in which they arrived.
#[derive(Debug)]
pub enum ServerRequest {
    /// Log an entry as if the server had made it.
    Log(LogEntry),
    /// Broadcast a snapshot of the session.
    GetSession,
    /// Replace the session.
    UpdateSession(Document),
    /// Change single values of the session.
    SetValues(String),
    /// Change the registry of clients.
    UpdateClientList { hostname: String, action: ClientListAction },
    /// Broadcast the audio devices of the host.
    GetAudioDevices,
    /// Save the next frame.
    CaptureFrame,
    /// Ask the encoder for a key frame.
    InsertIdr,
    /// Start recording the stream.
    StartRecording,
    /// Stop recording the stream.
    StopRecording,
    /// Add or remove the firewall rules of the server.
    FirewallRules(FirewallRulesAction),
    /// Register this server's driver.
    RegisterAlvrDriver,
    /// Unregister the driver at a path.
    UnregisterDriver(String),
    /// Broadcast the registered drivers.
    GetDriverList,
    /// Restart the runtime.
    RestartSteamvr,
    /// Shut the runtime down.
    ShutdownSteamvr,
}

/// A request as a mathematical value.
pub enum ServerRequestView {
    Log(LogEntryView),
    GetSession,
    UpdateSession(Seq<char>),
    SetValues(Seq<char>),
    UpdateClientList { hostname: Seq<char>, action: ClientListAction },
    GetAudioDevices,
    CaptureFrame,
    InsertIdr,
    StartRecording,
    StopRecording,
    FirewallRules(FirewallRulesAction),
    RegisterAlvrDriver,
    UnregisterDriver(Seq<char>),
    GetDriverList,
    RestartSteamvr,
    ShutdownSteamvr,
}

impl View for ServerRequest {
    type V = ServerRequestView;

    open spec fn view(&self) -> ServerRequestView {
        match self {
            ServerRequest::Log(entry) => ServerRequestView::Log(entry@),
            ServerRequest::GetSession => ServerRequestView::GetSession,
            ServerRequest::UpdateSession(session) => ServerRequestView::UpdateSession(session@),
            ServerRequest::SetValues(values) => ServerRequestView::SetValues(values@),
            ServerRequest::UpdateClientList { hostname, action } => {
                ServerRequestView::UpdateClientList { hostname: hostname@, action: *action }
            },
            ServerRequest::GetAudioDevices => ServerRequestView::GetAudioDevices,
            ServerRequest::CaptureFrame => ServerRequestView::CaptureFrame,
            ServerRequest::InsertIdr => ServerRequestView::InsertIdr,
            ServerRequest::StartRecording => ServerRequestView::StartRecording,
            ServerRequest::StopRecording => ServerRequestView::StopRecording,
            ServerRequest::FirewallRules(action) => ServerRequestView::FirewallRules(*action),
            ServerRequest::RegisterAlvrDriver => ServerRequestView::RegisterAlvrDriver,
            ServerRequest::UnregisterDriver(path) => ServerRequestView::UnregisterDriver(path@),
            ServerRequest::GetDriverList => ServerRequestView::GetDriverList,
            ServerRequest::RestartSteamvr => ServerRequestView::RestartSteamvr,
            ServerRequest::ShutdownSteamvr => ServerRequestView::ShutdownSteamvr,
        }
    }
}

/// Work that a request asks of another part of the server.
#[derive(Debug, PartialEq, Eq)]
pub enum Effect {
    /// Log `content` at `level` through the logging sink.
    Log { level: LogLevel, content: String },
    /// Send an event through the logging sink.
    Emit(EventType),
    /// Hand the changes to the session store; whether they applied is not reported.
    SetValues(String),
    /// Tell the connection manager to look at the registry.
    NotifyDisconnect,
    /// Ask for the audio devices and report them.
    QueryAudioDevices,
    /// Save the next frame.
    CaptureFrame,
    /// Ask the encoder for a key frame.
    RequestIdr,
    /// Open a recording.
    StartRecording,
    /// Close the recording.
    StopRecording,
    /// Add or remove the firewall rules and report whether that worked.
    SetFirewallRules(FirewallRulesAction),
    /// Register this server's driver; whether that worked is not reported.
    RegisterDriver,
    /// Unregister the driver at a path; whether that worked is not reported.
    UnregisterDriver(String),
    /// Ask for the registered drivers and report them.
    QueryDrivers,
    /// Restart the runtime, on a task of its own.
    RestartDriver,
    /// Shut the runtime down, on a task of its own.
    ShutdownDriver,
}

/// An effect as a mathematical value.
pub enum EffectView {
    Log { level: LogLevel, content: Seq<char> },
    Emit(EventTypeView),
    SetValues(Seq<char>),
    NotifyDisconnect,
    QueryAudioDevices,
    CaptureFrame,
    RequestIdr,
    StartRecording,
    StopRecording,
    SetFirewallRules(FirewallRulesAction),
    RegisterDriver,
    UnregisterDriver(Seq<char>),
    QueryDrivers,
    RestartDriver,
    ShutdownDriver,
}

impl View for Effect {
    type V = EffectView;

    open spec fn view(&self) -> EffectView {
        match self {
            Effect::Log { level, content } => EffectView::Log { level: *level, content: content@ },
            Effect::Emit(payload) => EffectView::Emit(payload@),
            Effect::SetValues(values) => EffectView::SetValues(values@),
            Effect::NotifyDisconnect => EffectView::NotifyDisconnect,
            Effect::QueryAudioDevices => EffectView::QueryAudioDevices,
            Effect::CaptureFrame => EffectView::CaptureFrame,
            Effect::RequestIdr => EffectView::RequestIdr,
            Effect::StartRecording => EffectView::StartRecording,
            Effect::StopRecording => EffectView::StopRecording,
            Effect::SetFirewallRules(action) => EffectView::SetFirewallRules(*action),
            Effect::RegisterDriver => EffectView::RegisterDriver,
            Effect::UnregisterDriver(path) => EffectView::UnregisterDriver(path@),
            Effect::QueryDrivers => EffectView::QueryDrivers,
            Effect::RestartDriver => EffectView::RestartDriver,
            Effect::ShutdownDriver => EffectView::ShutdownDriver,
        }
    }
}

impl EffectView {
    /// Whether the effect takes so long that it runs on a task of its own.
    pub open spec fn detached(self) -> bool {
        self is RestartDriver || self is ShutdownDriver
    }
}

impl Effect {
    /// Whether the effect takes so long that it runs on a task of its own,
    /// so that the request is answered without waiting for it.
    pub fn is_detached(&self) -> (detached: bool)
        ensures
            detached == self@.detached(),
    {
        match self {
            Effect::RestartDriver => true,
            Effect::ShutdownDriver => true,
            _ => false,
        }
    }
}

/// What an effect reported.
#[derive(Debug)]
pub enum Reply {
    /// The audio devices, or `None` if they could not be had.
    AudioDevices(Option<Document>),
    /// The registered drivers, or `None` if they could not be had.
    Drivers(Option<Document>),
    /// Whether the firewall rules were set.
    Firewall(bool),
}

/// A report as a mathematical value.
pub enum ReplyView {
    AudioDevices(Option<Seq<char>>),
    Drivers(Option<Seq<char>>),
    Firewall(bool),
}

impl View for Reply {
    type V = ReplyView;

    open spec fn view(&self) -> ReplyView {
        match self {
            Reply::AudioDevices(Some(document)) => ReplyView::AudioDevices(Some(document@)),
            Reply::AudioDevices(None) => ReplyView::AudioDevices(None),
            Reply::Drivers(Some(document)) => ReplyView::Drivers(Some(document@)),
            Reply::Drivers(None) => ReplyView::Drivers(None),
            Reply::Firewall(done) => ReplyView::Firewall(*done),
        }
    }
}

/// The state that the requests read and change.
pub struct ServerState {
    /// The session.
    pub session: Document,
    /// The known clients.
    pub clients: ClientRegistry,
}

/// The shared state as a mathematical value.
pub struct ServerStateView {
    pub session: Seq<char>,
    pub clients: Map<Seq<char>, ConnectionState>,
}

impl View for ServerState {
    type V = ServerStateView;

    open spec fn view(&self) -> ServerStateView {
        ServerStateView { session: self.session@, clients: self.clients@ }
    }
}

impl ServerState {
    /// Whether the state is well formed.
    pub open spec fn wf(&self) -> bool {
        self.clients.wf()
    }

    /// The state of a server with the given session and no clients.
    pub fn new(session: Document) -> (state: Self)
        ensures
            state.wf(),
            state@ == (ServerStateView { session: session@, clients: Map::empty() }),
    {
        ServerState { session, clients: ClientRegistry::new() }
    }
}

/// A list of effects as mathematical values.
pub open spec fn effects_view(effects: Seq<Effect>) -> Seq<EffectView> {
    Seq::new(effects.len(), |i: int| effects[i]@)
}

/// The shared state after a request.
pub open spec fn state_after(request: ServerRequestView, state: ServerStateView) -> ServerStateView {
    match request {
        ServerRequestView::UpdateSession(session) => ServerStateView { session, ..state },
        ServerRequestView::UpdateClientList { hostname, action } => ServerStateView {
            clients: if action == ClientListAction::RemoveEntry {
                after_removal_request(state.clients, hostname)
            } else {
                after_action(state.clients, hostname, action)
            },
            ..state
        },
        _ => state,
    }
}

/// The effects that a request asks for, in their order.
pub open spec fn effects_of(request: ServerRequestView, state: ServerStateView) -> Seq<EffectView> {
    match request {
        ServerRequestView::Log(entry) => seq![
            EffectView::Log { level: entry.severity.level(), content: entry.content },
        ],
        ServerRequestView::GetSession => seq![
            EffectView::Emit(EventTypeView::Session(state.session)),
        ],
        ServerRequestView::UpdateSession(_) => seq![],
        ServerRequestView::SetValues(values) => seq![EffectView::SetValues(values)],
        ServerRequestView::UpdateClientList { hostname, action } => if action
            == ClientListAction::RemoveEntry && !state.clients.contains_key(hostname) {
            seq![]
        } else {
            seq![EffectView::NotifyDisconnect]
        },
        ServerRequestView::GetAudioDevices => seq![EffectView::QueryAudioDevices],
        ServerRequestView::CaptureFrame => seq![EffectView::CaptureFrame],
        ServerRequestView::InsertIdr => seq![EffectView::RequestIdr],
        ServerRequestView::StartRecording => seq![EffectView::StartRecording],
        ServerRequestView::StopRecording => seq![EffectView::StopRecording],
        ServerRequestView::FirewallRules(action) => seq![EffectView::SetFirewallRules(action)],
        ServerRequestView::RegisterAlvrDriver => seq![
            EffectView::RegisterDriver,
            EffectView::QueryDrivers,
        ],
        ServerRequestView::UnregisterDriver(path) => seq![
            EffectView::UnregisterDriver(path),
            EffectView::QueryDrivers,
        ],
        ServerRequestView::GetDriverList => seq![EffectView::QueryDrivers],
        ServerRequestView::RestartSteamvr => seq![EffectView::RestartDriver],
        ServerRequestView::ShutdownSteamvr => seq![EffectView::ShutdownDriver],
    }
}

/// What follows from a report: an event for a list that was had, a log
/// entry for the firewall rules, and nothing for a list that could not be had.
pub open spec fn follow_up_of(reply: ReplyView) -> Option<EffectView> {
    match reply {
        ReplyView::AudioDevices(Some(document)) => Some(
            EffectView::Emit(EventTypeView::AudioDevices(document)),
        ),
        ReplyView::AudioDevices(None) => None,
        ReplyView::Drivers(Some(document)) => Some(
            EffectView::Emit(EventTypeView::DriversList(document)),
        ),
        ReplyView::Drivers(None) => None,
        ReplyView::Firewall(true) => Some(
            EffectView::Log {
                level: LogLevel::Info,
                content: "Setting firewall rules succeeded!"@,
            },
        ),
        ReplyView::Firewall(false) => Some(
            EffectView::Log { level: LogLevel::Error, content: "Setting firewall rules failed!"@ },
        ),
    }
}

/// A list of one effect.
fn one(effect: Effect) -> (effects: Vec<Effect>)
    ensures
        effects_view(effects@) == seq![effect@],
{
    let mut effects = Vec::new();
    effects.push(effect);
    assert(effects_view(effects@) =~= seq![effect@]);
    effects
}

/// A list of two effects.
fn two(first: Effect, second: Effect) -> (effects: Vec<Effect>)
    ensures
        effects_view(effects@) == seq![first@, second@],
{
    let mut effects = Vec::new();
    effects.push(first);
    effects.push(second);
    assert(effects_view(effects@) =~= seq![first@, second@]);
    effects
}

/// Handles one request: changes the shared state as the request says, and
/// returns the work that it asks of other parts of the server.
///
/// A request to remove a client follows the rule of the registry: a client
/// that is not disconnected is marked for removal and stays. A request
/// about the registry is followed by a notice to the connection manager,
/// but for the removal of a client that is not registered: that changes
/// nothing and asks for nothing.
pub fn dispatch(request: ServerRequest, state: &mut ServerState) -> (effects: Vec<Effect>)
    requires
        old(state).wf(),
    ensures
        final(state).wf(),
        final(state)@ == state_after(request@, old(state)@),
        effects_view(effects@) == effects_of(request@, old(state)@),
{
    match request {
        ServerRequest::Log(entry) => one(
            Effect::Log { level: entry.severity.into_log_level(), content: entry.content },
        ),
        ServerRequest::GetSession => one(Effect::Emit(EventType::Session(state.session.clone()))),
        ServerRequest::UpdateSession(session) => {
            state.session = session;
            let effects = Vec::new();
            assert(effects_view(effects@) =~= seq![]);
            effects
        },
        ServerRequest::SetValues(values) => one(Effect::SetValues(values)),
        ServerRequest::UpdateClientList { hostname, action } => {
            let changed = match action {
                ClientListAction::RemoveEntry => {
                    match state.clients.request_removal(hostname.as_str()) {
                        Removal::Absent => false,
                        _ => true,
                    }
                },
                _ => {
                    state.clients.apply(hostname.as_str(), action);
                    true
                },
            };
            if changed {
                one(Effect::NotifyDisconnect)
            } else {
                let effects = Vec::new();
                assert(effects_view(effects@) =~= seq![]);
                effects
            }
        },
        ServerRequest::GetAudioDevices => one(Effect::QueryAudioDevices),
        ServerRequest::CaptureFrame => one(Effect::CaptureFrame),
        ServerRequest::InsertIdr => one(Effect::RequestIdr),
        ServerRequest::StartRecording => one(Effect::StartRecording),
        ServerRequest::StopRecording => one(Effect::StopRecording),
        ServerRequest::FirewallRules(action) => one(Effect::SetFirewallRules(action)),
        ServerRequest::RegisterAlvrDriver => two(Effect::RegisterDriver, Effect::QueryDrivers),
        ServerRequest::UnregisterDriver(path) => two(
            Effect::UnregisterDriver(path),
            Effect::QueryDrivers,
        ),
        ServerRequest::GetDriverList => one(Effect::QueryDrivers),
        ServerRequest::RestartSteamvr => one(Effect::RestartDriver),
        ServerRequest::ShutdownSteamvr => one(Effect::ShutdownDriver),
    }
}

/// Decides what follows from the report of an effect.
pub fn follow_up(reply: Reply) -> (effect: Option<Effect>)
    ensures
        match effect {
            Some(e) => follow_up_of(reply@) == Some(e@),
            None => follow_up_of(reply@) is None,
        },
{
    match reply {
        Reply::AudioDevices(Some(document)) => Some(Effect::Emit(EventType::AudioDevices(document))),
        Reply::AudioDevices(None) => None,
        Reply::Drivers(Some(document)) => Some(Effect::Emit(EventType::DriversList(document))),
        Reply::Drivers(None) => None,
        Reply::Firewall(true) => Some(
            Effect::Log {
                level: LogLevel::Info,
                content: String::from_str("Setting firewall rules succeeded!"),
            },
        ),
        Reply::Firewall(false) => Some(
            Effect::Log {
                level: LogLevel::Error,
                content: String::from_str("Setting firewall rules failed!"),
            },
        ),
    }
}

/// The body of a request, as far as it could be read.
#[derive(Debug)]
pub enum Body {
    /// The request had no body.
    Missing,
    /// The body is not a request.
    Malformed,
    /// The body is this request.
    Request(ServerRequest),
}

/// Answers a request on the dashboard's route: a request that could be read
/// is dispatched and answered with 204; a body that is missing or cannot be
/// read is answered with 400 and changes nothing.
pub fn answer(body: Body, state: &mut ServerState) -> (answer: (u16, Vec<Effect>))
    requires
        old(state).wf(),
    ensures
        final(state).wf(),
        match body {
            Body::Request(request) => {
                &&& answer.0 == 204
                &&& final(state)@ == state_after(request@, old(state)@)
                &&& effects_view(answer.1@) == effects_of(request@, old(state)@)
            },
            _ => {
                &&& answer.0 == 400
                &&& final(state)@ == old(state)@
                &&& answer.1@.len() == 0
            },
        },
{
    match body {
        Body::Request(request) => {
            let effects = dispatch(request, state);
            (204, effects)
        },
        _ => (400, Vec::new()),
    }
}

} // verus!
