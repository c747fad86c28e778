//! What holds of every run of the Nextcloud linking flow.

use vstd::prelude::*;
use crate::nextcloud::{
    is_network_call, next, registration_of, run, FlowAction, FlowEvent, FlowState, LinkFlow,
    NextcloudLoginResponse, StatusMessage, POLL_INTERVAL_SECS,
};
use crate::settings::{NextcloudAuthRequest, NextcloudCheckResponse};

verus! {

/// A flow that has ended, with or without a link.
pub open spec fn is_over(s: FlowState) -> bool {
    s is Linked || s is Stopped
}

/// A flow whose registration has been sent.
pub open spec fn is_registered(s: FlowState) -> bool {
    s is Registering || s is Checking || s is Waiting || is_over(s)
}

/// The events on which getting a login session fails.
pub open spec fn negotiation_fails(s: FlowState, e: FlowEvent) -> bool {
    match s {
        FlowState::Negotiating { .. } => match e {
            FlowEvent::LoginAnswered { status } => status != 200,
            FlowEvent::LoginUnreachable => true,
            _ => false,
        },
        FlowState::ReadingLogin { .. } => e is LoginUnreadable,
        FlowState::Opening { .. } => e == FlowEvent::LoginOpened { opened: false },
        _ => false,
    }
}

proof fn lemma_run_first(f: LinkFlow, e: FlowEvent, events: Seq<FlowEvent>)
    ensures
        run(f, seq![e] + events) == seq![next(f, e).1] + run(next(f, e).0, events),
{
    let all = seq![e] + events;
    assert(all[0] == e);
    assert(all.drop_first() =~= events);
}

proof fn lemma_run_len(f: LinkFlow, events: Seq<FlowEvent>)
    ensures
        run(f, events).len() == events.len(),
    decreases events.len(),
{
    if events.len() > 0 {
        lemma_run_len(next(f, events[0]).0, events.drop_first());
    }
}

/// Once the flow is over, no event makes it do anything.
pub proof fn law_over_is_quiet(f: LinkFlow, events: Seq<FlowEvent>)
    requires
        is_over(f.state),
    ensures
        run(f, events).len() == events.len(),
        forall|i: int| 0 <= i < events.len() ==> run(f, events)[i] == FlowAction::Nothing,
    decreases events.len(),
{
    lemma_run_len(f, events);
    if events.len() > 0 {
        let g = next(f, events[0]).0;
        assert(g == f);
        law_over_is_quiet(g, events.drop_first());
        assert forall|i: int| 0 <= i < events.len() implies run(f, events)[i]
            == FlowAction::Nothing by {
            if i > 0 {
                assert(run(f, events)[i] == run(g, events.drop_first())[i - 1]);
            }
        }
    }
}

/// An empty server address is answered with the message that asks for one,
/// and no network call is made.
pub proof fn law_empty_server_url_asks_for_one(f: LinkFlow, server_url: String)
    requires
        f.state is Idle,
        server_url@.len() == 0,
    ensures
        next(f, FlowEvent::Triggered { server_url }) == (
            f,
            FlowAction::ShowStatus { message: StatusMessage::EnterServerUrl },
        ),
        !is_network_call(next(f, FlowEvent::Triggered { server_url }).1),
{
}

/// When getting a login session fails, the failure is shown to the user,
/// the flow is over, and no registration is ever sent.
pub proof fn law_failed_negotiation_never_registers(
    f: LinkFlow,
    e: FlowEvent,
    events: Seq<FlowEvent>,
)
    requires
        negotiation_fails(f.state, e),
    ensures
        next(f, e).0.state is Stopped,
        run(f, seq![e] + events)[0] == (FlowAction::ShowStatus {
            message: StatusMessage::LoginFailed,
        }),
        forall|i: int|
            0 <= i < events.len() + 1 ==> run(f, seq![e] + events)[i] != FlowAction::Register,
{
    lemma_run_first(f, e, events);
    let g = next(f, e).0;
    law_over_is_quiet(g, events);
    assert forall|i: int| 0 <= i < events.len() + 1 implies run(f, seq![e] + events)[i]
        != FlowAction::Register by {
        if i > 0 {
            assert(run(f, seq![e] + events)[i] == run(g, events)[i - 1]);
        }
    }
}

proof fn lemma_registered_stays(f: LinkFlow, events: Seq<FlowEvent>)
    requires
        is_registered(f.state),
    ensures
        run(f, events).len() == events.len(),
        forall|i: int| 0 <= i < events.len() ==> run(f, events)[i] != FlowAction::Register,
    decreases events.len(),
{
    lemma_run_len(f, events);
    if events.len() > 0 {
        let g = next(f, events[0]).0;
        lemma_registered_stays(g, events.drop_first());
        assert forall|i: int| 0 <= i < events.len() implies run(f, events)[i]
            != FlowAction::Register by {
            if i > 0 {
                assert(run(f, events)[i] == run(g, events.drop_first())[i - 1]);
            }
        }
    }
}

/// Once a login session is had and its page opened, exactly one
/// registration is sent, and it carries the session's token and poll
/// endpoint and the server address as the user gave it.
pub proof fn law_one_registration(
    f: LinkFlow,
    server_url: String,
    session: NextcloudLoginResponse,
    events: Seq<FlowEvent>,
)
    requires
        f.state == (FlowState::Opening { server_url, session }),
    ensures
        next(f, FlowEvent::LoginOpened { opened: true }).0.state == (FlowState::Registering {
            registration: NextcloudAuthRequest {
                user_id: f.context.user_id,
                token: session.poll.token,
                poll_endpoint: session.poll.endpoint,
                nextcloud_url: server_url,
            },
        }),
        run(f, seq![FlowEvent::LoginOpened { opened: true }] + events)[0] == FlowAction::Register,
        forall|i: int|
            1 <= i < events.len() + 1 ==> run(
                f,
                seq![FlowEvent::LoginOpened { opened: true }] + events,
            )[i] != FlowAction::Register,
{
    let e = FlowEvent::LoginOpened { opened: true };
    lemma_run_first(f, e, events);
    let g = next(f, e).0;
    assert(g.state == (FlowState::Registering {
        registration: registration_of(f.context, server_url, session),
    }));
    lemma_registered_stays(g, events);
    assert forall|i: int| 1 <= i < events.len() + 1 implies run(f, seq![e] + events)[i]
        != FlowAction::Register by {
        assert(run(f, seq![e] + events)[i] == run(g, events)[i - 1]);
    }
}

proof fn lemma_check_follows_sleep(f: LinkFlow, events: Seq<FlowEvent>)
    requires
        f.state is Checking,
    ensures
        run(f, events).len() == events.len(),
        forall|j: int|
            0 <= j < events.len() && run(f, events)[j] == FlowAction::Check ==> exists|k: int|
                0 <= k < j && run(f, events)[k] == (FlowAction::Sleep {
                    seconds: POLL_INTERVAL_SECS,
                }),
    decreases events.len(),
{
    lemma_run_len(f, events);
    if events.len() > 0 {
        let (g, a) = next(f, events[0]);
        let r = run(f, events);
        let rest = run(g, events.drop_first());
        assert(r == seq![a] + rest);
        if g.state is Linked {
            law_over_is_quiet(g, events.drop_first());
            assert forall|j: int| 0 <= j < events.len() implies r[j] != FlowAction::Check by {
                if j > 0 {
                    assert(r[j] == rest[j - 1]);
                }
            }
        } else if g.state is Waiting {
            assert(a == FlowAction::Sleep { seconds: POLL_INTERVAL_SECS });
            assert forall|j: int|
                0 <= j < events.len() && r[j] == FlowAction::Check implies exists|k: int|
                    0 <= k < j && r[k] == (FlowAction::Sleep { seconds: POLL_INTERVAL_SECS }) by {
                assert(r[0] == a);
            }
        } else {
            assert(g.state is Checking);
            assert(a == FlowAction::Nothing);
            lemma_check_follows_sleep(g, events.drop_first());
            assert forall|j: int|
                0 <= j < events.len() && r[j] == FlowAction::Check implies exists|k: int|
                    0 <= k < j && r[k] == (FlowAction::Sleep { seconds: POLL_INTERVAL_SECS }) by {
                assert(r[j] == rest[j - 1]);
                let k0 = choose|k: int|
                    0 <= k < j - 1 && rest[k] == (FlowAction::Sleep {
                        seconds: POLL_INTERVAL_SECS,
                    });
                assert(r[k0 + 1] == rest[k0]);
            }
        }
    }
}

/// Between any two link checks of a run lies a wait of the poll interval,
/// which is at least five seconds; a check is sent only after the answer to
/// the one before it.
pub proof fn law_checks_are_spaced(f: LinkFlow, events: Seq<FlowEvent>)
    ensures
        POLL_INTERVAL_SECS >= 5,
        run(f, events).len() == events.len(),
        forall|i: int, j: int|
            0 <= i < j < events.len() && run(f, events)[i] == FlowAction::Check && run(
                f,
                events,
            )[j] == FlowAction::Check ==> exists|k: int|
                i < k < j && run(f, events)[k] == (FlowAction::Sleep {
                    seconds: POLL_INTERVAL_SECS,
                }),
    decreases events.len(),
{
    lemma_run_len(f, events);
    if events.len() > 0 {
        let (g, a) = next(f, events[0]);
        let r = run(f, events);
        let rest = run(g, events.drop_first());
        assert(r == seq![a] + rest);
        law_checks_are_spaced(g, events.drop_first());
        if a == FlowAction::Check {
            lemma_check_follows_sleep(g, events.drop_first());
        }
        assert forall|i: int, j: int|
            0 <= i < j < events.len() && r[i] == FlowAction::Check && r[j]
                == FlowAction::Check implies exists|k: int|
                i < k < j && r[k] == (FlowAction::Sleep { seconds: POLL_INTERVAL_SECS }) by {
            assert(r[j] == rest[j - 1]);
            if i == 0 {
                let k0 = choose|k: int|
                    0 <= k < j - 1 && rest[k] == (FlowAction::Sleep {
                        seconds: POLL_INTERVAL_SECS,
                    });
                assert(r[k0 + 1] == rest[k0]);
            } else {
                assert(r[i] == rest[i - 1]);
                let k0 = choose|k: int|
                    i - 1 < k < j - 1 && rest[k] == (FlowAction::Sleep {
                        seconds: POLL_INTERVAL_SECS,
                    });
                assert(r[k0 + 1] == rest[k0]);
            }
        }
    }
}

/// A failed link check does not end the flow: it waits the poll interval,
/// then checks again.
pub proof fn law_failed_check_retries(f: LinkFlow)
    requires
        f.state is Checking,
    ensures
        run(f, seq![FlowEvent::CheckFailed, FlowEvent::Slept]) == seq![
            FlowAction::Sleep { seconds: POLL_INTERVAL_SECS },
            FlowAction::Check,
        ],
        next(next(f, FlowEvent::CheckFailed).0, FlowEvent::Slept).0 == f,
{
    let events = seq![FlowEvent::CheckFailed, FlowEvent::Slept];
    assert(events.drop_first() =~= seq![FlowEvent::Slept]);
    assert(events.drop_first().drop_first() =~= Seq::<FlowEvent>::empty());
    let g = next(f, FlowEvent::CheckFailed).0;
    let h = next(g, FlowEvent::Slept).0;
    assert(seq![FlowEvent::Slept].drop_first() =~= Seq::<FlowEvent>::empty());
    assert(run(h, Seq::<FlowEvent>::empty()) =~= Seq::<FlowAction>::empty());
    assert(run(g, seq![FlowEvent::Slept]) =~= seq![FlowAction::Check]);
    assert(run(f, events) =~= seq![
        FlowAction::Sleep { seconds: POLL_INTERVAL_SECS },
        FlowAction::Check,
    ]);
}

/// Once a check reports the link, the flow is done and sends no further
/// check, whatever comes after.
pub proof fn law_linked_stops_checks(
    f: LinkFlow,
    response: NextcloudCheckResponse,
    events: Seq<FlowEvent>,
)
    requires
        f.state is Checking,
        response.data,
    ensures
        next(f, FlowEvent::Checked { response }).0.state is Linked,
        run(f, seq![FlowEvent::Checked { response }] + events)[0] == FlowAction::Done,
        forall|i: int|
            1 <= i < events.len() + 1 ==> run(f, seq![FlowEvent::Checked { response }] + events)[i]
                == FlowAction::Nothing,
{
    let e = FlowEvent::Checked { response };
    lemma_run_first(f, e, events);
    let g = next(f, e).0;
    law_over_is_quiet(g, events);
    assert forall|i: int| 1 <= i < events.len() + 1 implies run(f, seq![e] + events)[i]
        == FlowAction::Nothing by {
        assert(run(f, seq![e] + events)[i] == run(g, events)[i - 1]);
    }
}

/// A flow that has not sent its registration and has not ended.
pub open spec fn is_before_registration(s: FlowState) -> bool {
    s is Idle || s is Negotiating || s is ReadingLogin || s is Opening
}

/// Polling never starts before the registration is sent: in a run from a
/// flow that has not registered yet, every link check comes after a
/// registration.
pub proof fn law_checks_follow_registration(f: LinkFlow, events: Seq<FlowEvent>)
    requires
        is_before_registration(f.state),
    ensures
        run(f, events).len() == events.len(),
        forall|j: int|
            0 <= j < events.len() && run(f, events)[j] == FlowAction::Check ==> exists|k: int|
                0 <= k < j && run(f, events)[k] == FlowAction::Register,
    decreases events.len(),
{
    lemma_run_len(f, events);
    if events.len() > 0 {
        let (g, a) = next(f, events[0]);
        let r = run(f, events);
        let rest = run(g, events.drop_first());
        assert(r == seq![a] + rest);
        if is_before_registration(g.state) {
            law_checks_follow_registration(g, events.drop_first());
            assert forall|j: int|
                0 <= j < events.len() && r[j] == FlowAction::Check implies exists|k: int|
                    0 <= k < j && r[k] == FlowAction::Register by {
                assert(r[j] == rest[j - 1]);
                let k0 = choose|k: int| 0 <= k < j - 1 && rest[k] == FlowAction::Register;
                assert(r[k0 + 1] == rest[k0]);
            }
        } else if g.state is Registering {
            assert(a == FlowAction::Register);
            assert forall|j: int|
                0 <= j < events.len() && r[j] == FlowAction::Check implies exists|k: int|
                    0 <= k < j && r[k] == FlowAction::Register by {
                assert(r[0] == a);
            }
        } else {
            assert(g.state is Stopped);
            law_over_is_quiet(g, events.drop_first());
            assert forall|j: int| 0 <= j < events.len() implies r[j] != FlowAction::Check by {
                if j > 0 {
                    assert(r[j] == rest[j - 1]);
                }
            }
        }
    }
}

} // verus!
