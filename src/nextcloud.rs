//! The Nextcloud linking flow.
//!
//! One invocation of the flow asks a Nextcloud server for a login session,
//! opens the session's login page for the user, registers the session's poll
//! token with the backend, and then asks the backend every few seconds whether
//! the link is established. The flow is a state machine: `LinkFlow::step`
//! takes the flow and the outcome of the last outside operation, and returns
//! the next flow with the one operation the caller performs next. What an
//! operation needs is read from the flow by its accessors (`login_url`,
//! `login_page`, `registration`, `register_url`, `check_url`).

use vstd::prelude::*;
use crate::endpoint::{api_url, api_url_of, nextcloud_login_url, nextcloud_login_url_of, ApiCall};
use crate::settings::{NextcloudAuthRequest, NextcloudCheckResponse};

verus! {

/// Seconds between two link checks.
pub const POLL_INTERVAL_SECS: u64 = 5;

/// The poll credentials of a Nextcloud login session.
#[derive(Debug, Clone, PartialEq)]
pub struct Poll {
    pub token: String,
    pub endpoint: String,
}

/// A Nextcloud login session: poll credentials and the page where the user
/// grants access.
#[derive(Debug, Clone, PartialEq)]
pub struct NextcloudLoginResponse {
    pub poll: Poll,
    pub login: String,
}

/// The signed-in user's access to the backend.
#[derive(Debug, Clone, PartialEq)]
pub struct BackendContext {
    pub user_id: i32,
    pub server_name: String,
    pub api_key: String,
}

impl BackendContext {
    /// A context from the ambient session values; `None` when one is missing
    /// or empty.
    pub fn new(user_id: Option<i32>, server_name: Option<String>, api_key: Option<String>) -> (r:
        Option<BackendContext>)
        ensures
            r is Some <==> (user_id is Some && server_name is Some && api_key is Some
                && server_name->Some_0@.len() > 0 && api_key->Some_0@.len() > 0),
            r is Some ==> r->Some_0.user_id == user_id->Some_0 && r->Some_0.server_name
                == server_name->Some_0 && r->Some_0.api_key == api_key->Some_0,
    {
        match (user_id, server_name, api_key) {
            (Some(user_id), Some(server_name), Some(api_key)) => {
                if server_name.as_str().is_empty() || api_key.as_str().is_empty() {
                    None
                } else {
                    Some(BackendContext { user_id, server_name, api_key })
                }
            },
            _ => None,
        }
    }
}

/// Why a login session could not be had from Nextcloud.
#[derive(Debug, Clone, Copy, PartialEq, Eq)]
pub enum NegotiationError {
    /// The request did not reach the server.
    Transport,
    /// The server answered with a status other than 200.
    Status(u16),
    /// The body of the answer is not JSON.
    InvalidJson,
    /// The body is JSON without the fields of a login session.
    Schema,
    /// The login page could not be opened for the user.
    OpenFailed,
}

/// How an invocation of the flow ended without a link.
#[derive(Debug, Clone, Copy, PartialEq, Eq)]
pub enum FlowError {
    Negotiation(NegotiationError),
    /// The backend refused the registration of the login session.
    Registration,
}

/// Why the body of the login answer could not be read as a session.
#[derive(Debug, Clone, Copy, PartialEq, Eq)]
pub enum BodyError {
    InvalidJson,
    Schema,
}

/// The messages that the flow shows to the user.
#[derive(Debug, Clone, Copy, PartialEq, Eq)]
pub enum StatusMessage {
    /// The server address field is empty.
    EnterServerUrl,
    /// No login session could be had from the server.
    LoginFailed,
}

impl StatusMessage {
    /// The words shown for this message.
    pub open spec fn text_of(self) -> Seq<char> {
        match self {
            StatusMessage::EnterServerUrl => "Please enter a Nextcloud server URL."@,
            StatusMessage::LoginFailed =>
                "Failed to initiate Nextcloud login. Please check the server URL."@,
        }
    }

    /// The words shown for this message.
    pub fn text(&self) -> (r: String)
        ensures
            r@ == self.text_of(),
    {
        match self {
            StatusMessage::EnterServerUrl => String::from_str(
                "Please enter a Nextcloud server URL.",
            ),
            StatusMessage::LoginFailed => String::from_str(
                "Failed to initiate Nextcloud login. Please check the server URL.",
            ),
        }
    }
}

/// Where an invocation of the flow stands.
#[derive(Debug, Clone, PartialEq)]
pub enum FlowState {
    /// Not started.
    Idle,
    /// The login request to `server_url` is in flight.
    Negotiating { server_url: String },
    /// The server answered 200; its body is being read.
    ReadingLogin { server_url: String },
    /// The session's login page is being opened.
    Opening { server_url: String, session: NextcloudLoginResponse },
    /// The registration is in flight.
    Registering { registration: NextcloudAuthRequest },
    /// A link check is in flight.
    Checking { registration: NextcloudAuthRequest },
    /// Waiting out the interval before the next check.
    Waiting { registration: NextcloudAuthRequest },
    /// The backend reported the link: the flow is over.
    Linked,
    /// The flow ended on an error.
    Stopped { error: FlowError },
}

/// The outcome of the operation that the flow asked for last, or the user's
/// trigger.
#[derive(Debug, Clone, PartialEq)]
pub enum FlowEvent {
    /// The user activated the trigger with this server address.
    Triggered { server_url: String },
    /// The login request got an answer with this status.
    LoginAnswered { status: u16 },
    /// The login request did not reach the server.
    LoginUnreachable,
    /// The body of the login answer was read as this session.
    LoginRead { session: NextcloudLoginResponse },
    /// The body of the login answer could not be read as a session.
    LoginUnreadable { error: BodyError },
    /// The login page was opened (`true`) or could not be (`false`).
    LoginOpened { opened: bool },
    /// The backend accepted (`true`) or refused (`false`) the registration.
    Registered { accepted: bool },
    /// A link check answered.
    Checked { response: NextcloudCheckResponse },
    /// A link check failed on the way (network or decoding).
    CheckFailed,
    /// The wait between two checks is over.
    Slept,
}

/// The one operation to perform after a step.
#[derive(Debug, Clone, Copy, PartialEq, Eq)]
pub enum FlowAction {
    /// Show this message to the user.
    ShowStatus { message: StatusMessage },
    /// POST to `login_url()`, no body, cross-origin.
    PostLogin,
    /// Read the body of the login answer.
    ReadLoginBody,
    /// Open the session's login page (`login_page()`) for the user.
    OpenLogin,
    /// POST `registration()` to `register_url()`.
    Register,
    /// GET `check_url()`.
    Check,
    /// Wait this many seconds, then report `Slept`.
    Sleep { seconds: u64 },
    /// The account is linked; nothing more to do.
    Done,
    /// The flow ended on an error that is not shown to the user.
    Stop,
    /// Nothing to do: the event does not apply to this state.
    Nothing,
}

/// Whether an action makes a network call.
pub open spec fn is_network_call(a: FlowAction) -> bool {
    match a {
        FlowAction::PostLogin | FlowAction::Register | FlowAction::Check => true,
        _ => false,
    }
}

/// One invocation of the linking flow.
#[derive(Debug, Clone, PartialEq)]
pub struct LinkFlow {
    pub context: BackendContext,
    pub state: FlowState,
}

/// The registration built from a login session.
pub open spec fn registration_of(
    context: BackendContext,
    server_url: String,
    session: NextcloudLoginResponse,
) -> NextcloudAuthRequest {
    NextcloudAuthRequest {
        user_id: context.user_id,
        token: session.poll.token,
        poll_endpoint: session.poll.endpoint,
        nextcloud_url: server_url,
    }
}

/// The flow after `e`, and the operation to perform next.
pub open spec fn next(f: LinkFlow, e: FlowEvent) -> (LinkFlow, FlowAction) {
    let ctx = f.context;
    let stay = (f, FlowAction::Nothing);
    match f.state {
        FlowState::Idle => match e {
            FlowEvent::Triggered { server_url } => if server_url@.len() == 0 {
                (f, FlowAction::ShowStatus { message: StatusMessage::EnterServerUrl })
            } else {
                (
                    LinkFlow { context: ctx, state: FlowState::Negotiating { server_url } },
                    FlowAction::PostLogin,
                )
            },
            _ => stay,
        },
        FlowState::Negotiating { server_url } => match e {
            FlowEvent::LoginAnswered { status } => if status == 200 {
                (
                    LinkFlow { context: ctx, state: FlowState::ReadingLogin { server_url } },
                    FlowAction::ReadLoginBody,
                )
            } else {
                stopped_on(ctx, NegotiationError::Status(status))
            },
            FlowEvent::LoginUnreachable => stopped_on(ctx, NegotiationError::Transport),
            _ => stay,
        },
        FlowState::ReadingLogin { server_url } => match e {
            FlowEvent::LoginRead { session } => (
                LinkFlow { context: ctx, state: FlowState::Opening { server_url, session } },
                FlowAction::OpenLogin,
            ),
            FlowEvent::LoginUnreadable { error } => match error {
                BodyError::InvalidJson => stopped_on(ctx, NegotiationError::InvalidJson),
                BodyError::Schema => stopped_on(ctx, NegotiationError::Schema),
            },
            _ => stay,
        },
        FlowState::Opening { server_url, session } => match e {
            FlowEvent::LoginOpened { opened } => if opened {
                (
                    LinkFlow {
                        context: ctx,
                        state: FlowState::Registering {
                            registration: registration_of(ctx, server_url, session),
                        },
                    },
                    FlowAction::Register,
                )
            } else {
                stopped_on(ctx, NegotiationError::OpenFailed)
            },
            _ => stay,
        },
        FlowState::Registering { registration } => match e {
            FlowEvent::Registered { accepted } => if accepted {
                (
                    LinkFlow { context: ctx, state: FlowState::Checking { registration } },
                    FlowAction::Check,
                )
            } else {
                (
                    LinkFlow {
                        context: ctx,
                        state: FlowState::Stopped { error: FlowError::Registration },
                    },
                    FlowAction::Stop,
                )
            },
            _ => stay,
        },
        FlowState::Checking { registration } => match e {
            FlowEvent::Checked { response } => if response.data {
                (LinkFlow { context: ctx, state: FlowState::Linked }, FlowAction::Done)
            } else {
                waiting_on(ctx, registration)
            },
            FlowEvent::CheckFailed => waiting_on(ctx, registration),
            _ => stay,
        },
        FlowState::Waiting { registration } => match e {
            FlowEvent::Slept => (
                LinkFlow { context: ctx, state: FlowState::Checking { registration } },
                FlowAction::Check,
            ),
            _ => stay,
        },
        FlowState::Linked => stay,
        FlowState::Stopped { .. } => stay,
    }
}

/// The flow stopped on a negotiation error, with the message shown for it.
pub open spec fn stopped_on(ctx: BackendContext, err: NegotiationError) -> (LinkFlow, FlowAction) {
    (
        LinkFlow { context: ctx, state: FlowState::Stopped { error: FlowError::Negotiation(err) } },
        FlowAction::ShowStatus { message: StatusMessage::LoginFailed },
    )
}

/// The flow waiting out the interval before the next check.
pub open spec fn waiting_on(ctx: BackendContext, registration: NextcloudAuthRequest) -> (
    LinkFlow,
    FlowAction,
) {
    (
        LinkFlow { context: ctx, state: FlowState::Waiting { registration } },
        FlowAction::Sleep { seconds: POLL_INTERVAL_SECS },
    )
}

/// The operations that a run of the flow asks for, one per event.
pub open spec fn run(f: LinkFlow, events: Seq<FlowEvent>) -> Seq<FlowAction>
    decreases events.len(),
{
    if events.len() == 0 {
        Seq::empty()
    } else {
        let (g, a) = next(f, events[0]);
        seq![a] + run(g, events.drop_first())
    }
}

impl LinkFlow {
    /// A flow that has not started, for the user of `context`.
    pub fn new(context: BackendContext) -> (r: LinkFlow)
        ensures
            r.context == context,
            r.state == FlowState::Idle,
    {
        LinkFlow { context, state: FlowState::Idle }
    }

    /// Takes the flow past `event`: the next flow, and the operation to
    /// perform next.
    pub fn step(self, event: FlowEvent) -> (r: (LinkFlow, FlowAction))
        ensures
            r == next(self, event),
    {
        let ctx = self.context;
        match self.state {
            FlowState::Idle => match event {
                FlowEvent::Triggered { server_url } => if server_url.as_str().is_empty() {
                    (
                        LinkFlow { context: ctx, state: FlowState::Idle },
                        FlowAction::ShowStatus { message: StatusMessage::EnterServerUrl },
                    )
                } else {
                    (
                        LinkFlow { context: ctx, state: FlowState::Negotiating { server_url } },
                        FlowAction::PostLogin,
                    )
                },
                _ => (LinkFlow { context: ctx, state: FlowState::Idle }, FlowAction::Nothing),
            },
            FlowState::Negotiating { server_url } => match event {
                FlowEvent::LoginAnswered { status } => if status == 200 {
                    (
                        LinkFlow { context: ctx, state: FlowState::ReadingLogin { server_url } },
                        FlowAction::ReadLoginBody,
                    )
                } else {
                    stop_on(ctx, NegotiationError::Status(status))
                },
                FlowEvent::LoginUnreachable => stop_on(ctx, NegotiationError::Transport),
                _ => (
                    LinkFlow { context: ctx, state: FlowState::Negotiating { server_url } },
                    FlowAction::Nothing,
                ),
            },
            FlowState::ReadingLogin { server_url } => match event {
                FlowEvent::LoginRead { session } => (
                    LinkFlow { context: ctx, state: FlowState::Opening { server_url, session } },
                    FlowAction::OpenLogin,
                ),
                FlowEvent::LoginUnreadable { error } => match error {
                    BodyError::InvalidJson => stop_on(ctx, NegotiationError::InvalidJson),
                    BodyError::Schema => stop_on(ctx, NegotiationError::Schema),
                },
                _ => (
                    LinkFlow { context: ctx, state: FlowState::ReadingLogin { server_url } },
                    FlowAction::Nothing,
                ),
            },
            FlowState::Opening { server_url, session } => match event {
                FlowEvent::LoginOpened { opened } => if opened {
                    let registration = NextcloudAuthRequest {
                        user_id: ctx.user_id,
                        token: session.poll.token,
                        poll_endpoint: session.poll.endpoint,
                        nextcloud_url: server_url,
                    };
                    (
                        LinkFlow { context: ctx, state: FlowState::Registering { registration } },
                        FlowAction::Register,
                    )
                } else {
                    stop_on(ctx, NegotiationError::OpenFailed)
                },
                _ => (
                    LinkFlow { context: ctx, state: FlowState::Opening { server_url, session } },
                    FlowAction::Nothing,
                ),
            },
            FlowState::Registering { registration } => match event {
                FlowEvent::Registered { accepted } => if accepted {
                    (
                        LinkFlow { context: ctx, state: FlowState::Checking { registration } },
                        FlowAction::Check,
                    )
                } else {
                    (
                        LinkFlow {
                            context: ctx,
                            state: FlowState::Stopped { error: FlowError::Registration },
                        },
                        FlowAction::Stop,
                    )
                },
                _ => (
                    LinkFlow { context: ctx, state: FlowState::Registering { registration } },
                    FlowAction::Nothing,
                ),
            },
            FlowState::Checking { registration } => match event {
                FlowEvent::Checked { response } => if response.data {
                    (LinkFlow { context: ctx, state: FlowState::Linked }, FlowAction::Done)
                } else {
                    (
                        LinkFlow { context: ctx, state: FlowState::Waiting { registration } },
                        FlowAction::Sleep { seconds: POLL_INTERVAL_SECS },
                    )
                },
                FlowEvent::CheckFailed => (
                    LinkFlow { context: ctx, state: FlowState::Waiting { registration } },
                    FlowAction::Sleep { seconds: POLL_INTERVAL_SECS },
                ),
                _ => (
                    LinkFlow { context: ctx, state: FlowState::Checking { registration } },
                    FlowAction::Nothing,
                ),
            },
            FlowState::Waiting { registration } => match event {
                FlowEvent::Slept => (
                    LinkFlow { context: ctx, state: FlowState::Checking { registration } },
                    FlowAction::Check,
                ),
                _ => (
                    LinkFlow { context: ctx, state: FlowState::Waiting { registration } },
                    FlowAction::Nothing,
                ),
            },
            FlowState::Linked => (LinkFlow { context: ctx, state: FlowState::Linked }, FlowAction::Nothing),
            FlowState::Stopped { error } => (
                LinkFlow { context: ctx, state: FlowState::Stopped { error } },
                FlowAction::Nothing,
            ),
        }
    }

    /// The address of the login request, while that request is at hand.
    pub fn login_url(&self) -> (r: Option<String>)
        ensures
            match self.state {
                FlowState::Negotiating { server_url } => r is Some && r->Some_0@
                    == nextcloud_login_url_of(server_url@),
                _ => r is None,
            },
    {
        match &self.state {
            FlowState::Negotiating { server_url } => Some(nextcloud_login_url(server_url.as_str())),
            _ => None,
        }
    }

    /// The page where the user grants access, while it is to be opened.
    pub fn login_page(&self) -> (r: Option<&str>)
        ensures
            match self.state {
                FlowState::Opening { session, .. } => r is Some && r->Some_0@ == session.login@,
                _ => r is None,
            },
    {
        match &self.state {
            FlowState::Opening { session, .. } => Some(session.login.as_str()),
            _ => None,
        }
    }

    /// The registration, from the moment it is built until the flow ends.
    pub fn registration(&self) -> (r: Option<&NextcloudAuthRequest>)
        ensures
            match self.state {
                FlowState::Registering { registration } => r == Some(&registration),
                FlowState::Checking { registration } => r == Some(&registration),
                FlowState::Waiting { registration } => r == Some(&registration),
                _ => r is None,
            },
    {
        match &self.state {
            FlowState::Registering { registration } => Some(registration),
            FlowState::Checking { registration } => Some(registration),
            FlowState::Waiting { registration } => Some(registration),
            _ => None,
        }
    }

    /// The address of the backend call that registers the login session.
    pub fn register_url(&self) -> (r: String)
        ensures
            r@ == api_url_of(self.context.server_name@, ApiCall::AddNextcloudServer),
    {
        api_url(self.context.server_name.as_str(), &ApiCall::AddNextcloudServer)
    }

    /// The address of the backend call that checks the link.
    pub fn check_url(&self) -> (r: String)
        ensures
            r@ == api_url_of(
                self.context.server_name@,
                ApiCall::CheckGpodderSettings { user_id: self.context.user_id },
            ),
    {
        let call = ApiCall::CheckGpodderSettings { user_id: self.context.user_id };
        api_url(self.context.server_name.as_str(), &call)
    }
}

fn stop_on(ctx: BackendContext, err: NegotiationError) -> (r: (LinkFlow, FlowAction))
    ensures
        r == stopped_on(ctx, err),
{
    (
        LinkFlow { context: ctx, state: FlowState::Stopped { error: FlowError::Negotiation(err) } },
        FlowAction::ShowStatus { message: StatusMessage::LoginFailed },
    )
}

} // verus!
