//! The dispatch orchestrator: one run per admitted message, as a state machine
//! that answers each event from the outside world with the next action.
//!
//! A run acquires the conversation's permit, marks the message read (best
//! effort), starts presence, calls the AI, delivers a non-empty reply, and on
//! every way out stops presence (if it started) and releases the permit.
use vstd::prelude::*;
use crate::envelope::{
    build_request, copy_kind, AgentSettings, AiContext, InputRequest, LlmApiResponse, Provider,
    RequestView, request_of,
};
use crate::message::{CanonicalMessage, ErrorView, HandleError, TextHandleError, WacraftHandleError};
use crate::text::opt_text;

verus! {

/// Which optional steps a run takes.
#[derive(Debug, Clone, Copy, PartialEq, Eq, Structural)]
pub struct RunOptions {
    pub send_seen: bool,
    pub typing: bool,
    pub ai_response: bool,
}

/// Where a run stands: the action it last emitted is awaiting its event.
#[derive(Debug, Clone, Copy, PartialEq, Eq, Structural)]
pub enum Phase {
    Ready,
    Locking,
    Reading,
    Starting,
    Asking,
    Replying,
    Stopping,
    Releasing,
    Finished,
}

/// One orchestration run for one canonical message.
pub struct DispatchRun {
    pub provider: Provider,
    pub options: RunOptions,
    pub message: CanonicalMessage,
    pub request: InputRequest,
    pub phase: Phase,
    pub locked: bool,
    pub presence_started: bool,
    pub presence_stopped: bool,
    pub failure: Option<HandleError>,
}

/// What the outside world reports back to a run.
#[derive(Debug, PartialEq, Eq)]
pub enum Event {
    Begin,
    LockGranted,
    ReadMarked(Result<(), String>),
    PresenceStarted(Result<(), String>),
    AiAnswered(Result<LlmApiResponse, String>),
    ReplySent(Result<(), String>),
    PresenceStopIssued,
    LockReleased,
}

/// What a run asks the outside world to do next.
#[derive(Debug, PartialEq, Eq)]
pub enum Action {
    AcquireLock { key: String },
    MarkRead { chat_id: String, session: String, message_id: String },
    StartPresence { chat_id: String, session: String },
    CallAi(InputRequest),
    SendReply { chat_id: String, session: String, text: String },
    StopPresence { chat_id: String, session: String },
    ReleaseLock { key: String },
    Finish(Result<(), HandleError>),
    Ignore,
}

pub struct RunView {
    pub provider: Provider,
    pub options: RunOptions,
    pub key: Seq<char>,
    pub session: Seq<char>,
    pub message_id: Seq<char>,
    pub request: RequestView,
    pub phase: Phase,
    pub locked: bool,
    pub presence_started: bool,
    pub presence_stopped: bool,
    pub failure: Option<ErrorView>,
}

pub enum EventView {
    Begin,
    LockGranted,
    ReadMarked,
    PresenceStarted(Result<(), Seq<char>>),
    AiAnswered(Result<Option<Seq<char>>, Seq<char>>),
    ReplySent(Result<(), Seq<char>>),
    PresenceStopIssued,
    LockReleased,
}

pub enum ActionView {
    AcquireLock(Seq<char>),
    MarkRead(Seq<char>, Seq<char>, Seq<char>),
    StartPresence(Seq<char>, Seq<char>),
    CallAi(RequestView),
    SendReply(Seq<char>, Seq<char>, Seq<char>),
    StopPresence(Seq<char>, Seq<char>),
    ReleaseLock(Seq<char>),
    Finish(Option<ErrorView>),
    Ignore,
}

pub open spec fn unit_result(r: Result<(), String>) -> Result<(), Seq<char>> {
    match r {
        Ok(_) => Ok(()),
        Err(m) => Err(m@),
    }
}

pub open spec fn error_option(e: Option<HandleError>) -> Option<ErrorView> {
    match e {
        Some(e) => Some(e@),
        None => None,
    }
}

impl View for DispatchRun {
    type V = RunView;

    open spec fn view(&self) -> RunView {
        RunView {
            provider: self.provider,
            options: self.options,
            key: self.message.conversation_key@,
            session: self.message.session@,
            message_id: self.message.message_id@,
            request: self.request@,
            phase: self.phase,
            locked: self.locked,
            presence_started: self.presence_started,
            presence_stopped: self.presence_stopped,
            failure: error_option(self.failure),
        }
    }
}

impl View for Event {
    type V = EventView;

    open spec fn view(&self) -> EventView {
        match self {
            Event::Begin => EventView::Begin,
            Event::LockGranted => EventView::LockGranted,
            Event::ReadMarked(_) => EventView::ReadMarked,
            Event::PresenceStarted(r) => EventView::PresenceStarted(unit_result(*r)),
            Event::AiAnswered(r) => EventView::AiAnswered(
                match r {
                    Ok(resp) => Ok(opt_text(resp.response)),
                    Err(m) => Err(m@),
                },
            ),
            Event::ReplySent(r) => EventView::ReplySent(unit_result(*r)),
            Event::PresenceStopIssued => EventView::PresenceStopIssued,
            Event::LockReleased => EventView::LockReleased,
        }
    }
}

impl View for Action {
    type V = ActionView;

    open spec fn view(&self) -> ActionView {
        match self {
            Action::AcquireLock { key } => ActionView::AcquireLock(key@),
            Action::MarkRead { chat_id, session, message_id } => ActionView::MarkRead(
                chat_id@,
                session@,
                message_id@,
            ),
            Action::StartPresence { chat_id, session } => ActionView::StartPresence(
                chat_id@,
                session@,
            ),
            Action::CallAi(req) => ActionView::CallAi(req@),
            Action::SendReply { chat_id, session, text } => ActionView::SendReply(
                chat_id@,
                session@,
                text@,
            ),
            Action::StopPresence { chat_id, session } => ActionView::StopPresence(
                chat_id@,
                session@,
            ),
            Action::ReleaseLock { key } => ActionView::ReleaseLock(key@),
            Action::Finish(r) => ActionView::Finish(
                match r {
                    Ok(_) => None,
                    Err(e) => Some(e@),
                },
            ),
            Action::Ignore => ActionView::Ignore,
        }
    }
}

/// A failed call to the provider, as the provider's error.
pub open spec fn provider_failure(p: Provider, m: Seq<char>) -> ErrorView {
    match p {
        Provider::Waha => ErrorView::Waha(m),
        Provider::Wacraft => ErrorView::Wacraft(m),
    }
}

/// A failed AI call, as the AI error of the provider's family.
pub open spec fn ai_failure(p: Provider, m: Seq<char>) -> ErrorView {
    match p {
        Provider::Waha => ErrorView::WahaAi(m),
        Provider::Wacraft => ErrorView::WacraftAi(m),
    }
}

/// Presence is signalled when asked for and when the provider supports it.
pub open spec fn presence_wanted(s: RunView) -> bool {
    s.options.typing && s.provider == Provider::Waha
}

/// The run's state before its first event.
pub open spec fn initial_run(
    provider: Provider,
    options: RunOptions,
    message: CanonicalMessage,
    request: RequestView,
) -> RunView {
    RunView {
        provider,
        options,
        key: message.conversation_key@,
        session: message.session@,
        message_id: message.message_id@,
        request,
        phase: Phase::Ready,
        locked: false,
        presence_started: false,
        presence_stopped: false,
        failure: None,
    }
}

/// Leaving the run with `failure`: stop presence first if it was started,
/// else release the permit.
pub open spec fn wind_down(s: RunView, failure: Option<ErrorView>) -> (RunView, ActionView) {
    if s.presence_started && !s.presence_stopped {
        (
            RunView { phase: Phase::Stopping, presence_stopped: true, failure, ..s },
            ActionView::StopPresence(s.key, s.session),
        )
    } else {
        (
            RunView { phase: Phase::Releasing, locked: false, failure, ..s },
            ActionView::ReleaseLock(s.key),
        )
    }
}

/// Calling the AI, where asked for; else leaving successfully.
pub open spec fn ask(s: RunView) -> (RunView, ActionView) {
    if s.options.ai_response {
        (RunView { phase: Phase::Asking, ..s }, ActionView::CallAi(s.request))
    } else {
        wind_down(s, None)
    }
}

/// Starting presence, where wanted; else going on to the AI.
pub open spec fn after_read(s: RunView) -> (RunView, ActionView) {
    if presence_wanted(s) {
        (RunView { phase: Phase::Starting, ..s }, ActionView::StartPresence(s.key, s.session))
    } else {
        ask(s)
    }
}

/// The run's answer to one event: its next state and the action to perform.
/// An event that the current phase does not await changes nothing.
pub open spec fn step(s: RunView, e: EventView) -> (RunView, ActionView) {
    match (s.phase, e) {
        (Phase::Ready, EventView::Begin) => (
            RunView { phase: Phase::Locking, ..s },
            ActionView::AcquireLock(s.key),
        ),
        (Phase::Locking, EventView::LockGranted) => {
            let t = RunView { locked: true, ..s };
            if s.options.send_seen {
                (
                    RunView { phase: Phase::Reading, ..t },
                    ActionView::MarkRead(s.key, s.session, s.message_id),
                )
            } else {
                after_read(t)
            }
        },
        (Phase::Reading, EventView::ReadMarked) => after_read(s),
        (Phase::Starting, EventView::PresenceStarted(Ok(_))) => ask(
            RunView { presence_started: true, ..s },
        ),
        (Phase::Starting, EventView::PresenceStarted(Err(m))) => wind_down(
            s,
            Some(provider_failure(s.provider, m)),
        ),
        (Phase::Asking, EventView::AiAnswered(Ok(reply))) => match reply {
            Some(t) => if t.len() > 0 {
                (RunView { phase: Phase::Replying, ..s }, ActionView::SendReply(s.key, s.session, t))
            } else {
                wind_down(s, None)
            },
            None => wind_down(s, None),
        },
        (Phase::Asking, EventView::AiAnswered(Err(m))) => wind_down(
            s,
            Some(ai_failure(s.provider, m)),
        ),
        (Phase::Replying, EventView::ReplySent(Ok(_))) => wind_down(s, None),
        (Phase::Replying, EventView::ReplySent(Err(m))) => wind_down(
            s,
            Some(provider_failure(s.provider, m)),
        ),
        (Phase::Stopping, EventView::PresenceStopIssued) => (
            RunView { phase: Phase::Releasing, locked: false, ..s },
            ActionView::ReleaseLock(s.key),
        ),
        (Phase::Releasing, EventView::LockReleased) => (
            RunView { phase: Phase::Finished, failure: None, ..s },
            ActionView::Finish(s.failure),
        ),
        _ => (s, ActionView::Ignore),
    }
}

/// A copy of a request.
pub fn copy_request(req: &InputRequest) -> (r: InputRequest)
    ensures
        r@ == req@,
{
    InputRequest {
        data: AiContext {
            source: req.data.source,
            chat_id: req.data.chat_id.clone(),
            session: req.data.session.clone(),
            timestamp: req.data.timestamp,
            datetime: req.data.datetime.clone(),
            kind: copy_kind(&req.data.kind),
        },
        chat_interface: req.chat_interface.clone(),
        max_retries: req.max_retries,
        loop_threshold: req.loop_threshold,
        top_k: req.top_k,
        summarize_message_window: req.summarize_message_window,
        summarize_message_keep: req.summarize_message_keep,
        summarize_system_messages: req.summarize_system_messages,
        thread_id: req.thread_id.clone(),
    }
}

impl DispatchRun {
    /// A run for an admitted message, with its request built from the agent
    /// settings and the calendar text of the message's time.
    pub fn new(
        provider: Provider,
        message: CanonicalMessage,
        options: RunOptions,
        settings: &AgentSettings,
        datetime: String,
    ) -> (r: Self)
        ensures
            r@ == initial_run(
                provider,
                options,
                message,
                request_of(*settings, provider, message, datetime@),
            ),
    {
        let request = build_request(settings, provider, &message, datetime);
        DispatchRun {
            provider,
            options,
            message,
            request,
            phase: Phase::Ready,
            locked: false,
            presence_started: false,
            presence_stopped: false,
            failure: None,
        }
    }

    fn wind_down(&mut self, failure: Option<HandleError>) -> (a: Action)
        ensures
            (final(self)@, a@) == wind_down(old(self)@, error_option(failure)),
    {
        self.failure = failure;
        if self.presence_started && !self.presence_stopped {
            self.phase = Phase::Stopping;
            self.presence_stopped = true;
            Action::StopPresence {
                chat_id: self.message.conversation_key.clone(),
                session: self.message.session.clone(),
            }
        } else {
            self.phase = Phase::Releasing;
            self.locked = false;
            Action::ReleaseLock { key: self.message.conversation_key.clone() }
        }
    }

    fn ask(&mut self) -> (a: Action)
        ensures
            (final(self)@, a@) == ask(old(self)@),
    {
        if self.options.ai_response {
            self.phase = Phase::Asking;
            Action::CallAi(copy_request(&self.request))
        } else {
            self.wind_down(None)
        }
    }

    fn after_read(&mut self) -> (a: Action)
        ensures
            (final(self)@, a@) == after_read(old(self)@),
    {
        if self.options.typing && self.provider == Provider::Waha {
            self.phase = Phase::Starting;
            Action::StartPresence {
                chat_id: self.message.conversation_key.clone(),
                session: self.message.session.clone(),
            }
        } else {
            self.ask()
        }
    }

    fn provider_error(&self, m: String) -> (e: HandleError)
        ensures
            e@ == provider_failure(self.provider, m@),
    {
        match self.provider {
            Provider::Waha => HandleError::Text(TextHandleError::Waha(m)),
            Provider::Wacraft => HandleError::Wacraft(WacraftHandleError::Wacraft(m)),
        }
    }

    fn ai_error(&self, m: String) -> (e: HandleError)
        ensures
            e@ == ai_failure(self.provider, m@),
    {
        match self.provider {
            Provider::Waha => HandleError::Text(TextHandleError::Ai(m)),
            Provider::Wacraft => HandleError::Wacraft(WacraftHandleError::Ai(m)),
        }
    }

    /// Answers one event with the next action, as `step` describes.
    pub fn advance(&mut self, event: Event) -> (a: Action)
        ensures
            (final(self)@, a@) == step(old(self)@, event@),
    {
        match event {
            Event::Begin => match self.phase {
                Phase::Ready => {
                    self.phase = Phase::Locking;
                    Action::AcquireLock { key: self.message.conversation_key.clone() }
                },
                _ => Action::Ignore,
            },
            Event::LockGranted => match self.phase {
                Phase::Locking => {
                    self.locked = true;
                    if self.options.send_seen {
                        self.phase = Phase::Reading;
                        Action::MarkRead {
                            chat_id: self.message.conversation_key.clone(),
                            session: self.message.session.clone(),
                            message_id: self.message.message_id.clone(),
                        }
                    } else {
                        self.after_read()
                    }
                },
                _ => Action::Ignore,
            },
            Event::ReadMarked(_) => match self.phase {
                Phase::Reading => self.after_read(),
                _ => Action::Ignore,
            },
            Event::PresenceStarted(r) => match self.phase {
                Phase::Starting => match r {
                    Ok(_) => {
                        self.presence_started = true;
                        self.ask()
                    },
                    Err(m) => {
                        let e = self.provider_error(m);
                        self.wind_down(Some(e))
                    },
                },
                _ => Action::Ignore,
            },
            Event::AiAnswered(r) => match self.phase {
                Phase::Asking => match r {
                    Ok(resp) => match resp.response {
                        Some(text) => {
                            if text.as_str().unicode_len() > 0 {
                                self.phase = Phase::Replying;
                                Action::SendReply {
                                    chat_id: self.message.conversation_key.clone(),
                                    session: self.message.session.clone(),
                                    text,
                                }
                            } else {
                                self.wind_down(None)
                            }
                        },
                        None => self.wind_down(None),
                    },
                    Err(m) => {
                        let e = self.ai_error(m);
                        self.wind_down(Some(e))
                    },
                },
                _ => Action::Ignore,
            },
            Event::ReplySent(r) => match self.phase {
                Phase::Replying => match r {
                    Ok(_) => self.wind_down(None),
                    Err(m) => {
                        let e = self.provider_error(m);
                        self.wind_down(Some(e))
                    },
                },
                _ => Action::Ignore,
            },
            Event::PresenceStopIssued => match self.phase {
                Phase::Stopping => {
                    self.phase = Phase::Releasing;
                    self.locked = false;
                    Action::ReleaseLock { key: self.message.conversation_key.clone() }
                },
                _ => Action::Ignore,
            },
            Event::LockReleased => match self.phase {
                Phase::Releasing => {
                    self.phase = Phase::Finished;
                    match self.failure.take() {
                        Some(e) => Action::Finish(Err(e)),
                        None => Action::Finish(Ok(())),
                    }
                },
                _ => Action::Ignore,
            },
        }
    }

    /// Whether the run has emitted its final action.
    pub fn is_finished(&self) -> (r: bool)
        ensures
            r == (self.phase == Phase::Finished),
    {
        match self.phase {
            Phase::Finished => true,
            _ => false,
        }
    }
}

} // verus!
