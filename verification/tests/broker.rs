use rbx_studio_server::channels::Reply;
use rbx_studio_server::dud_proxy::{
    conclude_relay, dud_proxy_loop, proxy_url, relay, DudAction, DudEvent, DudFailure,
};
use rbx_studio_server::handlers::{
    accept_report, conclude_delivery, expire_poll, proxy_handler, request_handler, response_handler,
    HandlerError, PollAction, PollEvent, ProxyAction, ProxyEvent, LONG_POLL_SECONDS,
};
use rbx_studio_server::mcp::{ErrorKind, ToolError, ToolReply};
use rbx_studio_server::state::AppState;
use rbx_studio_server::tool_run::{
    announce_tool_run, conclude_announcement, finish_tool_run, submit_tool_run,
};
use rbx_studio_server::tools::{
    GetConsoleOutput, GetStudioMode, InsertModel, RunCode, RunCommandResponse,
    RunScriptInPlayMode, StartStopPlay, ToolArgumentValues, ToolArguments,
};
use rbx_studio_server::STUDIO_PLUGIN_PORT;

fn code(text: &str) -> ToolArgumentValues {
    ToolArgumentValues::RunCode(RunCode { command: text.to_string() })
}

fn command(text: &str, id: u128) -> ToolArguments {
    ToolArguments { args: code(text), id: Some(id) }
}

fn report(success: bool, text: &str, id: u128) -> RunCommandResponse {
    RunCommandResponse { success, response: text.to_string(), id }
}

fn fetched(state: &mut AppState) -> Option<ToolArguments> {
    match request_handler(state, PollEvent::Started) {
        PollAction::Send(command) => Some(command),
        PollAction::AwaitChange => None,
        other => panic!("unexpected {:?}", other),
    }
}

fn text(text: &str, is_error: bool) -> ToolReply {
    ToolReply::Text { text: text.to_string(), is_error }
}

#[test]
fn new_state_is_empty() {
    let mut state = AppState::new();
    assert_eq!(request_handler(&mut state, PollEvent::Started), PollAction::AwaitChange);
    assert!(state.take_pending(0).is_none());
}

#[test]
fn constants_are_those_of_the_plugin() {
    assert_eq!(STUDIO_PLUGIN_PORT, 44755);
    assert_eq!(LONG_POLL_SECONDS, 15);
}

#[test]
fn fresh_ids_are_random_uuids() {
    let (first, a) = ToolArguments::new(code("print(1)"));
    assert_eq!(first, command("print(1)", a));
    let (second, b) = first.with_id();
    assert_eq!(second, command("print(1)", b));
    assert_ne!(a, b);
    for id in [a, b] {
        let id = uuid::Uuid::from_u128(id);
        assert_eq!(id.get_version(), Some(uuid::Version::Random));
        assert_eq!(id.get_variant(), uuid::Variant::RFC4122);
    }
    assert_eq!(second.identified(7), command("print(1)", 7));
}

#[test]
fn every_tool_keeps_its_arguments() {
    let values = vec![
        code("print(1)"),
        ToolArgumentValues::InsertModel(InsertModel { query: "tree".to_string() }),
        ToolArgumentValues::GetConsoleOutput(GetConsoleOutput {}),
        ToolArgumentValues::StartStopPlay(StartStopPlay { mode: "stop".to_string() }),
        ToolArgumentValues::RunScriptInPlayMode(RunScriptInPlayMode {
            code: "return 1".to_string(),
            timeout: Some(100),
            mode: "run_server".to_string(),
        }),
        ToolArgumentValues::GetStudioMode(GetStudioMode {}),
    ];
    let mut state = AppState::new();
    for value in values {
        let submission = submit_tool_run(&mut state, value.clone());
        let sent = fetched(&mut state).unwrap();
        assert_eq!(sent, ToolArguments { args: value, id: Some(submission.id) });
    }
}

#[test]
fn commands_are_fetched_in_the_order_of_submission() {
    let mut state = AppState::new();
    let a = submit_tool_run(&mut state, code("a")).id;
    let b = submit_tool_run(&mut state, code("b")).id;
    assert_eq!(fetched(&mut state), Some(command("a", a)));
    let c = submit_tool_run(&mut state, code("c")).id;
    assert_eq!(fetched(&mut state), Some(command("b", b)));
    assert_eq!(fetched(&mut state), Some(command("c", c)));
    assert_eq!(fetched(&mut state), None);
}

#[test]
fn poll_that_times_out_takes_nothing() {
    let mut state = AppState::new();
    let id = submit_tool_run(&mut state, code("a")).id;
    assert_eq!(request_handler(&mut state, PollEvent::TimedOut), PollAction::Locked);
    assert_eq!(expire_poll(), PollAction::Locked);
    assert_eq!(
        request_handler(&mut state, PollEvent::Changed(Ok(()))),
        PollAction::Send(command("a", id))
    );
}

#[test]
fn poll_fails_when_no_change_can_come() {
    let mut state = AppState::new();
    submit_tool_run(&mut state, code("a"));
    let action = request_handler(&mut state, PollEvent::Changed(Err("channel closed".to_string())));
    let PollAction::Fail(error) = action else { panic!("no failure") };
    assert_eq!(error.message(), "channel closed");
    assert!(fetched(&mut state).is_some());
}

#[test]
fn submission_is_announced_to_subscribers() {
    let mut state = AppState::new();
    let waiter = state.subscribe();
    assert!(!waiter.has_changed().unwrap());
    let submission = submit_tool_run(&mut state, code("a"));
    assert!(!waiter.has_changed().unwrap());
    assert_eq!(announce_tool_run(submission.trigger), Ok(()));
    assert!(waiter.has_changed().unwrap());
}

#[test]
fn subscriber_has_not_seen_earlier_changes() {
    let mut state = AppState::new();
    let submission = submit_tool_run(&mut state, code("a"));
    assert_eq!(announce_tool_run(submission.trigger), Ok(()));
    let mut waiter = state.subscribe();
    assert!(waiter.has_changed().unwrap());
    waiter.mark_unchanged();
    assert!(!waiter.has_changed().unwrap());
    assert!(state.subscribe().has_changed().unwrap());
}

#[test]
fn answer_that_cannot_be_read_is_relayed_once() {
    let mut state = AppState::new();
    let mut run = submit_tool_run(&mut state, code("a"));
    let mut other = submit_tool_run(&mut state, code("b"));
    let posted = DudEvent::Posted { id: Some(run.id), answered: true };
    let DudAction::ReadReply(tx) = dud_proxy_loop(&mut state, posted) else { panic!("not read") };
    let read = Err("bad body".to_string());
    let done = dud_proxy_loop(&mut state, DudEvent::ReplyRead { tx, read });
    assert!(matches!(done, DudAction::CheckExit));
    assert_eq!(run.replies.try_recv(), Ok(Err("bad body".to_string())));
    assert!(run.replies.try_recv().is_err());
    assert!(other.replies.try_recv().is_err());
    assert!(state.take_pending(other.id).is_some());
}

#[test]
fn finished_call_leaves_the_one_passed_on_awaited() {
    let mut state = AppState::new();
    let run = submit_tool_run(&mut state, code("a"));
    let other = submit_tool_run(&mut state, code("b"));
    assert_eq!(fetched(&mut state), Some(command("a", run.id)));
    assert!(state.take_pending(run.id).is_some());
    let DudAction::Forward(sent) = dud_proxy_loop(&mut state, DudEvent::ExitChecked { running: true })
    else {
        panic!("not passed on")
    };
    finish_tool_run(&mut state, run.id, Some(Ok("done".to_string()))).unwrap();
    assert_eq!(sent.id, Some(other.id));
    let posted = DudEvent::Posted { id: sent.id, answered: true };
    assert!(matches!(dud_proxy_loop(&mut state, posted), DudAction::ReadReply(_)));
}

#[test]
fn proxied_command_is_not_announced() {
    let mut state = AppState::new();
    let waiter = state.subscribe();
    let _action = proxy_handler(&mut state, ProxyEvent::Requested(command("a", 1)));
    assert!(!waiter.has_changed().unwrap());
}

#[test]
fn announcement_without_subscribers_fails() {
    let mut state = AppState::new();
    let trigger = submit_tool_run(&mut state, code("a")).trigger;
    drop(state);
    let error = announce_tool_run(trigger).unwrap_err();
    assert_eq!(error.kind, ErrorKind::Internal);
    assert_eq!(error.message, "Unable to trigger send channel closed");
    assert_eq!(conclude_announcement(Ok(())), Ok(()));
    assert_eq!(
        conclude_announcement(Err("x".to_string())),
        Err(ToolError {
            kind: ErrorKind::Internal,
            message: "Unable to trigger send x".to_string()
        })
    );
}

#[test]
fn reply_reaches_the_caller_of_its_command() {
    let mut state = AppState::new();
    let mut a = submit_tool_run(&mut state, code("a"));
    let mut b = submit_tool_run(&mut state, code("b"));
    assert_eq!(response_handler(&mut state, report(false, "no", b.id)), Ok(()));
    assert_eq!(response_handler(&mut state, report(true, "yes", a.id)), Ok(()));
    assert_eq!(a.replies.try_recv(), Ok(Ok("yes".to_string())));
    assert_eq!(b.replies.try_recv(), Ok(Err("no".to_string())));
    assert!(a.replies.try_recv().is_err());
    assert!(b.replies.try_recv().is_err());
}

#[test]
fn second_report_is_refused() {
    let mut state = AppState::new();
    let mut run = submit_tool_run(&mut state, code("a"));
    assert_eq!(response_handler(&mut state, report(true, "1", run.id)), Ok(()));
    let error = response_handler(&mut state, report(true, "2", run.id)).unwrap_err();
    assert_eq!(error, HandlerError::UnknownId);
    assert_eq!(error.message(), "Unknown ID");
    assert_eq!(run.replies.try_recv(), Ok(Ok("1".to_string())));
    assert!(run.replies.try_recv().is_err());
}

#[test]
fn report_on_an_unknown_command_changes_nothing() {
    let mut state = AppState::new();
    let mut run = submit_tool_run(&mut state, code("a"));
    let other = run.id ^ 1;
    assert_eq!(
        response_handler(&mut state, report(true, "x", other)),
        Err(HandlerError::UnknownId)
    );
    assert!(run.replies.try_recv().is_err());
    assert_eq!(response_handler(&mut state, report(true, "y", run.id)), Ok(()));
    assert_eq!(run.replies.try_recv(), Ok(Ok("y".to_string())));
}

#[test]
fn report_for_a_caller_that_is_gone_fails() {
    let mut state = AppState::new();
    let run = submit_tool_run(&mut state, code("a"));
    let id = run.id;
    drop(run);
    let error = response_handler(&mut state, report(false, "late", id)).unwrap_err();
    assert_eq!(
        error,
        HandlerError::Undelivered {
            text: "channel closed".to_string(),
            reply: Err("late".to_string())
        }
    );
    assert_eq!(error.message(), "channel closed");
    assert_eq!(
        response_handler(&mut state, report(false, "late", id)),
        Err(HandlerError::UnknownId)
    );
}

#[test]
fn delivery_is_concluded_from_its_outcome() {
    assert_eq!(conclude_delivery(Ok(())), Ok(()));
    assert_eq!(
        conclude_delivery(Err(("t".to_string(), Ok("r".to_string())))),
        Err(HandlerError::Undelivered { text: "t".to_string(), reply: Ok("r".to_string()) })
    );
}

#[test]
fn report_is_accepted_with_its_reply() {
    let mut state = AppState::new();
    let mut run = submit_tool_run(&mut state, code("a"));
    let (tx, reply) = accept_report(&mut state, report(false, "bad", run.id)).unwrap();
    assert_eq!(reply, Err("bad".to_string()));
    tx.send(reply).unwrap();
    assert_eq!(run.replies.try_recv(), Ok(Err("bad".to_string())));
}

#[test]
fn run_ends_in_the_text_of_the_reply() {
    let mut state = AppState::new();
    let id = submit_tool_run(&mut state, code("a")).id;
    assert_eq!(finish_tool_run(&mut state, id, Some(Ok("out".to_string()))), Ok(text("out", false)));
    assert!(state.take_pending(id).is_none());
    assert_eq!(finish_tool_run(&mut state, id, Some(Err("bad".to_string()))), Ok(text("bad", true)));
}

#[test]
fn run_without_a_reply_fails_and_stays_registered() {
    let mut state = AppState::new();
    let id = submit_tool_run(&mut state, code("a")).id;
    assert_eq!(
        finish_tool_run(&mut state, id, None),
        Err(ToolError {
            kind: ErrorKind::Internal,
            message: "Couldn't receive response".to_string()
        })
    );
    assert!(state.take_pending(id).is_some());
}

#[test]
fn end_of_a_run_leaves_others_waiting() {
    let mut state = AppState::new();
    let a = submit_tool_run(&mut state, code("a")).id;
    let b = submit_tool_run(&mut state, code("b")).id;
    finish_tool_run(&mut state, a, Some(Ok(String::new()))).unwrap();
    assert!(state.take_pending(b).is_some());
}

#[test]
fn proxied_command_needs_an_id() {
    let mut state = AppState::new();
    let bare = ToolArguments { args: code("a"), id: None };
    let ProxyAction::Fail(error) = proxy_handler(&mut state, ProxyEvent::Requested(bare)) else {
        panic!("no failure")
    };
    assert_eq!(error, HandlerError::MissingId);
    assert_eq!(error.message(), "Got proxy command with no id");
    assert_eq!(fetched(&mut state), None);
}

#[test]
fn proxied_command_is_reported_back() {
    for success in [true, false] {
        let mut state = AppState::new();
        let action = proxy_handler(&mut state, ProxyEvent::Requested(command("a", 9)));
        let ProxyAction::AwaitReply { id, mut replies } = action else { panic!("not queued") };
        assert_eq!(id, 9);
        assert_eq!(fetched(&mut state), Some(command("a", 9)));
        assert_eq!(response_handler(&mut state, report(success, "out", 9)), Ok(()));
        let received = replies.try_recv().ok();
        let action = proxy_handler(&mut state, ProxyEvent::Received { id, received });
        let ProxyAction::Respond(answer) = action else { panic!("no answer") };
        assert_eq!(answer, report(success, "out", 9));
    }
}

#[test]
fn proxied_command_without_a_reply_fails() {
    let mut state = AppState::new();
    let first = proxy_handler(&mut state, ProxyEvent::Requested(command("a", 9)));
    let ProxyAction::AwaitReply { mut replies, .. } = first else { panic!("not queued") };
    // A second command under the same id takes the place of the first.
    let _second = proxy_handler(&mut state, ProxyEvent::Requested(command("b", 9)));
    assert!(replies.try_recv().is_err());
    let action = proxy_handler(&mut state, ProxyEvent::Received { id: 9, received: None });
    let ProxyAction::Fail(error) = action else { panic!("no failure") };
    assert_eq!(error, HandlerError::NoResponse);
    assert_eq!(error.message(), "Couldn't receive response");
    assert!(state.take_pending(9).is_some());
}

#[test]
fn loop_passes_a_command_on_and_relays_the_answer() {
    let mut state = AppState::new();
    let mut run = submit_tool_run(&mut state, code("a"));
    let DudAction::Forward(sent) = dud_proxy_loop(&mut state, DudEvent::ExitChecked { running: true })
    else {
        panic!("not passed on")
    };
    assert_eq!(sent, command("a", run.id));
    let posted = DudEvent::Posted { id: sent.id, answered: true };
    let DudAction::ReadReply(tx) = dud_proxy_loop(&mut state, posted) else { panic!("not read") };
    assert!(state.take_pending(run.id).is_none());
    let read = Ok(report(false, "failed", run.id));
    let done = dud_proxy_loop(&mut state, DudEvent::ReplyRead { tx, read });
    assert!(matches!(done, DudAction::CheckExit));
    assert_eq!(run.replies.try_recv(), Ok(Ok("failed".to_string())));
    assert!(run.replies.try_recv().is_err());
    let idle = dud_proxy_loop(&mut state, DudEvent::ExitChecked { running: true });
    assert!(matches!(idle, DudAction::AwaitChange));
    assert!(matches!(
        dud_proxy_loop(&mut state, DudEvent::Changed { open: true }),
        DudAction::CheckExit
    ));
    assert!(matches!(
        dud_proxy_loop(&mut state, DudEvent::ExitChecked { running: false }),
        DudAction::Stop
    ));
}

#[test]
fn loop_that_ends_takes_no_command() {
    let mut state = AppState::new();
    let id = submit_tool_run(&mut state, code("a")).id;
    let _stop = dud_proxy_loop(&mut state, DudEvent::ExitChecked { running: false });
    assert_eq!(fetched(&mut state), Some(command("a", id)));
}

#[test]
fn failed_post_leaves_the_caller_waiting() {
    let mut state = AppState::new();
    let id = submit_tool_run(&mut state, code("a")).id;
    let _forward = dud_proxy_loop(&mut state, DudEvent::ExitChecked { running: true });
    let action = dud_proxy_loop(&mut state, DudEvent::Posted { id: Some(id), answered: false });
    assert!(matches!(action, DudAction::CheckExit));
    assert!(state.take_pending(id).is_some());
    assert_eq!(fetched(&mut state), None);
}

#[test]
fn loop_aborts_where_it_cannot_go_on() {
    let mut state = AppState::new();
    assert!(matches!(
        dud_proxy_loop(&mut state, DudEvent::Posted { id: None, answered: true }),
        DudAction::Abort(DudFailure::MissingId)
    ));
    assert!(matches!(
        dud_proxy_loop(&mut state, DudEvent::Posted { id: Some(3), answered: true }),
        DudAction::Abort(DudFailure::NotPending)
    ));
    assert!(matches!(
        dud_proxy_loop(&mut state, DudEvent::Changed { open: false }),
        DudAction::Abort(DudFailure::ChangeLost)
    ));
    let id = submit_tool_run(&mut state, code("a")).id;
    let tx = state.take_pending(id).unwrap();
    let read = Err("unreadable".to_string());
    let action = dud_proxy_loop(&mut state, DudEvent::ReplyRead { tx, read });
    let DudAction::Abort(DudFailure::Undelivered(reply)) = action else { panic!("delivered") };
    assert_eq!(reply, Err("unreadable".to_string()));
}

#[test]
fn relay_drops_the_success_flag() {
    let expected: Reply = Ok("x".to_string());
    assert_eq!(relay(Ok(report(true, "x", 1))), expected);
    assert_eq!(relay(Ok(report(false, "x", 1))), expected);
    assert_eq!(relay(Err("e".to_string())), Err("e".to_string()));
    assert!(matches!(conclude_relay(Ok(())), DudAction::CheckExit));
    assert!(matches!(
        conclude_relay(Err((String::new(), Ok("x".to_string())))),
        DudAction::Abort(DudFailure::Undelivered(Ok(_)))
    ));
}

#[test]
fn proxy_address_holds_the_port() {
    assert_eq!(proxy_url(), "http://127.0.0.1:44755/proxy");
    assert_eq!(proxy_url(), format!("http://127.0.0.1:{STUDIO_PLUGIN_PORT}/proxy"));
}

#[test]
fn reports_and_replies_convert_back_and_forth() {
    for success in [true, false] {
        let original = report(success, "text", 5);
        let reply = original.clone().into_reply();
        assert_eq!(RunCommandResponse::from_reply(5, reply), original);
    }
}
