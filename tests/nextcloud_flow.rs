use pinepods_web::nextcloud::{
    BackendContext, BodyError, FlowAction, FlowError, FlowEvent, FlowState, LinkFlow,
    NegotiationError, NextcloudLoginResponse, Poll, StatusMessage, POLL_INTERVAL_SECS,
};
use pinepods_web::settings::{NextcloudAuthRequest, NextcloudCheckResponse};

fn context() -> BackendContext {
    BackendContext {
        user_id: 42,
        server_name: "https://pods.example.org".to_string(),
        api_key: "SECRET-REDACTED".to_string(),
    }
}

fn session() -> NextcloudLoginResponse {
    NextcloudLoginResponse {
        poll: Poll {
            token: "T1".to_string(),
            endpoint: "https://cloud.example.com/poll".to_string(),
        },
        login: "https://cloud.example.com/authorize?x=1".to_string(),
    }
}

fn triggered(url: &str) -> FlowEvent {
    FlowEvent::Triggered { server_url: url.to_string() }
}

/// Drives a flow through `events`, returning the flow and the actions.
fn drive(mut flow: LinkFlow, events: Vec<FlowEvent>) -> (LinkFlow, Vec<FlowAction>) {
    let mut actions = Vec::new();
    for e in events {
        let (f, a) = flow.step(e);
        flow = f;
        actions.push(a);
    }
    (flow, actions)
}

fn checking_flow() -> LinkFlow {
    let (flow, _) = drive(
        LinkFlow::new(context()),
        vec![
            triggered("https://cloud.example.com"),
            FlowEvent::LoginAnswered { status: 200 },
            FlowEvent::LoginRead { session: session() },
            FlowEvent::LoginOpened { opened: true },
            FlowEvent::Registered { accepted: true },
        ],
    );
    assert!(matches!(flow.state, FlowState::Checking { .. }));
    flow
}

#[test]
fn end_to_end_link_after_three_checks() {
    let flow = LinkFlow::new(context());
    let (flow, a) = flow.step(triggered("https://cloud.example.com"));
    assert_eq!(a, FlowAction::PostLogin);
    assert_eq!(
        flow.login_url(),
        Some("https://cloud.example.com/index.php/login/v2".to_string())
    );
    let (flow, a) = flow.step(FlowEvent::LoginAnswered { status: 200 });
    assert_eq!(a, FlowAction::ReadLoginBody);
    let (flow, a) = flow.step(FlowEvent::LoginRead { session: session() });
    assert_eq!(a, FlowAction::OpenLogin);
    assert_eq!(flow.login_page(), Some("https://cloud.example.com/authorize?x=1"));
    let (flow, a) = flow.step(FlowEvent::LoginOpened { opened: true });
    assert_eq!(a, FlowAction::Register);
    assert_eq!(
        flow.registration(),
        Some(&NextcloudAuthRequest {
            user_id: 42,
            token: "T1".to_string(),
            poll_endpoint: "https://cloud.example.com/poll".to_string(),
            nextcloud_url: "https://cloud.example.com".to_string(),
        })
    );
    assert_eq!(flow.register_url(), "https://pods.example.org/api/data/add_nextcloud_server");
    let (flow, actions) = drive(
        flow,
        vec![
            FlowEvent::Registered { accepted: true },
            FlowEvent::Checked { response: NextcloudCheckResponse { data: false } },
            FlowEvent::Slept,
            FlowEvent::Checked { response: NextcloudCheckResponse { data: false } },
            FlowEvent::Slept,
            FlowEvent::Checked { response: NextcloudCheckResponse { data: true } },
            FlowEvent::Slept,
            FlowEvent::Checked { response: NextcloudCheckResponse { data: false } },
        ],
    );
    let checks = actions.iter().filter(|a| **a == FlowAction::Check).count();
    assert_eq!(checks, 3);
    assert_eq!(actions[5], FlowAction::Done);
    assert_eq!(actions[6], FlowAction::Nothing);
    assert_eq!(actions[7], FlowAction::Nothing);
    assert_eq!(flow.state, FlowState::Linked);
}

#[test]
fn check_url_names_the_user() {
    let flow = checking_flow();
    assert_eq!(
        flow.check_url(),
        "https://pods.example.org/api/data/check_gpodder_settings/42"
    );
}

#[test]
fn empty_server_url_asks_for_one_without_network() {
    let flow = LinkFlow::new(context());
    let (flow, a) = flow.step(triggered(""));
    assert_eq!(a, FlowAction::ShowStatus { message: StatusMessage::EnterServerUrl });
    assert_eq!(flow.state, FlowState::Idle);
    assert_eq!(flow.login_url(), None);
}

#[test]
fn status_message_texts() {
    assert_eq!(StatusMessage::EnterServerUrl.text(), "Please enter a Nextcloud server URL.");
    assert_eq!(
        StatusMessage::LoginFailed.text(),
        "Failed to initiate Nextcloud login. Please check the server URL."
    );
}

fn negotiation_failure(events: Vec<FlowEvent>, expected: NegotiationError) {
    let mut all = vec![triggered("https://cloud.example.com")];
    all.extend(events);
    let n = all.len();
    all.push(FlowEvent::LoginOpened { opened: true });
    all.push(FlowEvent::Registered { accepted: true });
    let (flow, actions) = drive(LinkFlow::new(context()), all);
    assert_eq!(
        actions[n - 1],
        FlowAction::ShowStatus { message: StatusMessage::LoginFailed }
    );
    assert!(!actions.contains(&FlowAction::Register));
    assert!(!actions.contains(&FlowAction::Check));
    assert_eq!(flow.state, FlowState::Stopped { error: FlowError::Negotiation(expected) });
}

#[test]
fn non_200_answer_stops_with_status() {
    negotiation_failure(vec![FlowEvent::LoginAnswered { status: 404 }], NegotiationError::Status(404));
}

#[test]
fn unreachable_server_stops() {
    negotiation_failure(vec![FlowEvent::LoginUnreachable], NegotiationError::Transport);
}

#[test]
fn body_not_json_stops() {
    negotiation_failure(
        vec![
            FlowEvent::LoginAnswered { status: 200 },
            FlowEvent::LoginUnreadable { error: BodyError::InvalidJson },
        ],
        NegotiationError::InvalidJson,
    );
}

#[test]
fn body_without_session_fields_stops() {
    negotiation_failure(
        vec![
            FlowEvent::LoginAnswered { status: 200 },
            FlowEvent::LoginUnreadable { error: BodyError::Schema },
        ],
        NegotiationError::Schema,
    );
}

#[test]
fn login_page_not_opened_stops() {
    negotiation_failure(
        vec![
            FlowEvent::LoginAnswered { status: 200 },
            FlowEvent::LoginRead { session: session() },
            FlowEvent::LoginOpened { opened: false },
        ],
        NegotiationError::OpenFailed,
    );
}

#[test]
fn refused_registration_stops_silently() {
    let (flow, actions) = drive(
        LinkFlow::new(context()),
        vec![
            triggered("https://cloud.example.com"),
            FlowEvent::LoginAnswered { status: 200 },
            FlowEvent::LoginRead { session: session() },
            FlowEvent::LoginOpened { opened: true },
            FlowEvent::Registered { accepted: false },
            FlowEvent::Slept,
        ],
    );
    assert_eq!(actions[4], FlowAction::Stop);
    assert_eq!(actions[5], FlowAction::Nothing);
    assert_eq!(flow.state, FlowState::Stopped { error: FlowError::Registration });
}

#[test]
fn only_one_registration_is_sent() {
    let (_, actions) = drive(
        LinkFlow::new(context()),
        vec![
            triggered("https://cloud.example.com"),
            FlowEvent::LoginAnswered { status: 200 },
            FlowEvent::LoginRead { session: session() },
            FlowEvent::LoginOpened { opened: true },
            FlowEvent::LoginOpened { opened: true },
            FlowEvent::Registered { accepted: true },
            FlowEvent::Registered { accepted: true },
            FlowEvent::LoginOpened { opened: true },
        ],
    );
    assert_eq!(actions.iter().filter(|a| **a == FlowAction::Register).count(), 1);
}

#[test]
fn checks_are_separated_by_the_interval() {
    assert!(POLL_INTERVAL_SECS >= 5);
    let (_, actions) = drive(
        checking_flow(),
        vec![
            FlowEvent::Slept,
            FlowEvent::Checked { response: NextcloudCheckResponse { data: false } },
            FlowEvent::Checked { response: NextcloudCheckResponse { data: false } },
            FlowEvent::Slept,
            FlowEvent::Slept,
        ],
    );
    assert_eq!(
        actions,
        vec![
            FlowAction::Nothing,
            FlowAction::Sleep { seconds: 5 },
            FlowAction::Nothing,
            FlowAction::Check,
            FlowAction::Nothing,
        ]
    );
}

#[test]
fn failed_check_waits_then_checks_again() {
    let (flow, actions) = drive(checking_flow(), vec![FlowEvent::CheckFailed, FlowEvent::Slept]);
    assert_eq!(actions, vec![FlowAction::Sleep { seconds: 5 }, FlowAction::Check]);
    assert!(matches!(flow.state, FlowState::Checking { .. }));
}

#[test]
fn linked_flow_sends_no_more_checks() {
    let (flow, actions) = drive(
        checking_flow(),
        vec![
            FlowEvent::Checked { response: NextcloudCheckResponse { data: true } },
            FlowEvent::Slept,
            FlowEvent::CheckFailed,
            triggered("https://cloud.example.com"),
        ],
    );
    assert_eq!(
        actions,
        vec![FlowAction::Done, FlowAction::Nothing, FlowAction::Nothing, FlowAction::Nothing]
    );
    assert_eq!(flow.registration(), None);
}

#[test]
fn context_needs_every_value() {
    let ok = BackendContext::new(Some(7), Some("https://s".to_string()), Some("k".to_string()));
    assert_eq!(
        ok,
        Some(BackendContext {
            user_id: 7,
            server_name: "https://s".to_string(),
            api_key: "k".to_string()
        })
    );
    assert_eq!(BackendContext::new(None, Some("https://s".to_string()), Some("k".to_string())), None);
    assert_eq!(BackendContext::new(Some(7), None, Some("k".to_string())), None);
    assert_eq!(BackendContext::new(Some(7), Some("https://s".to_string()), None), None);
    assert_eq!(BackendContext::new(Some(7), Some(String::new()), Some("k".to_string())), None);
    assert_eq!(BackendContext::new(Some(7), Some("https://s".to_string()), Some(String::new())), None);
}
