use lua_tungstenite::message::{LuaChannel, RustMessageType};
use lua_tungstenite::registry::Registry;
use lua_tungstenite::socket::{
    callback_key, close, close_now, connect, describe, name, open, run_callbacks, send, Callback,
    CallbackKind, EventPoll, SocketError,
};
use lua_tungstenite::worker::{
    CommandPoll, ReadOutcome, Worker, WorkerAction, WorkerInput,
};

fn callback_of(c: Option<Callback>) -> Option<(CallbackKind, Option<String>)> {
    c.map(|c| (c.kind, c.data))
}

#[test]
fn connect_registers_a_fresh_handle() {
    let mut reg = Registry::new();
    let (a, spawn_a) = connect(&mut reg, "ws://a.test".to_string());
    let (b, spawn_b) = connect(&mut reg, "ws://b.test".to_string());
    assert_ne!(a.key, b.key);
    assert_eq!(a.url, "ws://a.test");
    assert!(!a.closed && a.linked);
    assert_eq!(a.generation, 0);
    assert_eq!(spawn_a.url, "ws://a.test");
    assert_eq!(spawn_a.generation, 0);
    assert!(spawn_a.schedule_dispatch);
    assert!(!spawn_b.schedule_dispatch);
    assert_eq!(reg.len(), 2);
    assert!(reg.contains(a.key) && reg.contains(b.key));
    assert_eq!(reg.keys(), vec![a.key, b.key]);
}

#[test]
fn send_and_close_give_commands_while_attached() {
    let mut reg = Registry::new();
    let (mut s, _) = connect(&mut reg, "ws://a.test".to_string());
    let c = send(&s, "hi".to_string()).unwrap();
    assert_eq!(c.message_type, RustMessageType::Message);
    assert_eq!(c.data, Some("hi".to_string()));
    let c = close(&mut s).unwrap();
    assert_eq!(c.message_type, RustMessageType::Close);
    assert_eq!(c.data, None);
    assert!(s.closed);
    assert!(reg.contains(s.key));
}

#[test]
fn send_after_close_now_fails() {
    let mut reg = Registry::new();
    let (mut s, _) = connect(&mut reg, "ws://a.test".to_string());
    let cb = callback_of(close_now(&mut reg, &mut s));
    assert_eq!(cb, Some((CallbackKind::OnDisconnect, Some("closed by user".to_string()))));
    assert!(s.closed && !s.linked);
    assert!(!reg.contains(s.key));
    assert_eq!(send(&s, "hi".to_string()).unwrap_err(), SocketError::ChannelClosed);
    assert_eq!(close(&mut s).unwrap_err(), SocketError::ChannelClosed);
}

#[test]
fn open_while_open_starts_no_worker() {
    let mut reg = Registry::new();
    let (mut s, _) = connect(&mut reg, "ws://a.test".to_string());
    assert!(open(&mut reg, &mut s).is_none());
    assert_eq!(s.generation, 0);
    assert_eq!(reg.len(), 1);
}

#[test]
fn reopen_starts_a_new_generation_and_drops_old_events() {
    let mut reg = Registry::new();
    let (mut s, _) = connect(&mut reg, "ws://a.test".to_string());
    close_now(&mut reg, &mut s);
    let spawn = open(&mut reg, &mut s).expect("a new worker");
    assert_eq!(spawn.generation, 1);
    assert_eq!(spawn.url, "ws://a.test");
    assert!(!spawn.schedule_dispatch);
    assert!(!s.closed && s.linked);
    assert!(reg.contains(s.key));
    let stale = run_callbacks(&mut reg, &mut s, 0, EventPoll::Received(LuaChannel::message("old".to_string())));
    assert!(stale.is_none());
    let stale = run_callbacks(&mut reg, &mut s, 0, EventPoll::Gone);
    assert!(stale.is_none());
    assert!(reg.contains(s.key));
    let cb = run_callbacks(&mut reg, &mut s, 1, EventPoll::Received(LuaChannel::connected()));
    assert_eq!(callback_of(cb), Some((CallbackKind::OnConnect, None)));
    assert!(send(&s, "again".to_string()).is_ok());
}

#[test]
fn retiring_twice_reports_disconnect_once() {
    let mut reg = Registry::new();
    let (mut s, _) = connect(&mut reg, "ws://a.test".to_string());
    let cb = run_callbacks(&mut reg, &mut s, 0, EventPoll::Received(LuaChannel::disconnected("normal".to_string())));
    assert_eq!(callback_of(cb), Some((CallbackKind::OnDisconnect, Some("normal".to_string()))));
    assert!(s.closed && !s.linked);
    assert!(!reg.contains(s.key));
    assert!(!reg.remove(s.key));
    assert!(close_now(&mut reg, &mut s).is_none());
    assert!(close_now(&mut reg, &mut s).is_none());
    assert_eq!(reg.len(), 0);
}

#[test]
fn gone_worker_is_retired_silently() {
    let mut reg = Registry::new();
    let (mut s, _) = connect(&mut reg, "ws://a.test".to_string());
    assert!(run_callbacks(&mut reg, &mut s, 0, EventPoll::Gone).is_none());
    assert!(!s.closed && !s.linked);
    assert!(!reg.contains(s.key));
    assert_eq!(send(&s, "x".to_string()).unwrap_err(), SocketError::ChannelClosed);
    let cb = callback_of(close_now(&mut reg, &mut s));
    assert_eq!(cb, Some((CallbackKind::OnDisconnect, Some("closed by user".to_string()))));
    assert!(close_now(&mut reg, &mut s).is_none());
}

#[test]
fn events_map_to_callbacks() {
    let mut reg = Registry::new();
    let (mut s, _) = connect(&mut reg, "ws://a.test".to_string());
    assert!(run_callbacks(&mut reg, &mut s, 0, EventPoll::Empty).is_none());
    let cb = run_callbacks(&mut reg, &mut s, 0, EventPoll::Received(LuaChannel::message("m".to_string())));
    assert_eq!(callback_of(cb), Some((CallbackKind::OnMessage, Some("m".to_string()))));
    let cb = run_callbacks(&mut reg, &mut s, 0, EventPoll::Received(LuaChannel::error("e".to_string())));
    assert_eq!(callback_of(cb), Some((CallbackKind::OnError, Some("e".to_string()))));
    assert!(reg.contains(s.key) && !s.closed);
}

#[test]
fn callback_keys_and_names() {
    assert_eq!(callback_key(CallbackKind::OnConnect), "on_connect");
    assert_eq!(callback_key(CallbackKind::OnMessage), "on_message");
    assert_eq!(callback_key(CallbackKind::OnError), "on_error");
    assert_eq!(callback_key(CallbackKind::OnDisconnect), "on_disconnect");
    assert_eq!(name(), "tungstenite");
}

#[test]
fn description_shows_a_v4_uuid() {
    let mut reg = Registry::new();
    let (s, _) = connect(&mut reg, "ws://a.test".to_string());
    let d = describe(&s);
    assert!(d.starts_with("tungstenite ("));
    assert!(d.ends_with(')'));
    assert_eq!(d.len(), 50);
    let id: Vec<char> = d["tungstenite (".len()..d.len() - 1].chars().collect();
    assert_eq!(id[8], '-');
    assert_eq!(id[13], '-');
    assert_eq!(id[14], '4');
    assert_eq!(format!("{:032x}", s.id), id.iter().filter(|c| **c != '-').collect::<String>());
}

#[test]
fn timer_is_claimed_once() {
    let mut reg = Registry::new();
    assert!(reg.has_room());
    assert!(reg.claim_timer());
    assert!(!reg.claim_timer());
}

#[test]
fn echo_session() {
    let mut reg = Registry::new();
    let (mut s, spawn) = connect(&mut reg, "ws://echo.test".to_string());
    let mut w = Worker::new();
    let r = w.step(WorkerInput::Connect(Ok(())));
    let cb = run_callbacks(&mut reg, &mut s, spawn.generation, EventPoll::Received(r.event.unwrap()));
    assert_eq!(callback_of(cb), Some((CallbackKind::OnConnect, None)));

    let cmd = send(&s, "hi".to_string()).unwrap();
    let r = w.step(WorkerInput::Command(CommandPoll::Received(cmd)));
    assert!(matches!(r.action, WorkerAction::Write(ref t) if t == "hi"));
    let r = w.step(WorkerInput::Read(ReadOutcome::Text(b"hi".to_vec())));
    let mut got = Vec::new();
    got.push(callback_of(run_callbacks(&mut reg, &mut s, 0, EventPoll::Received(r.event.unwrap()))));
    got.push(callback_of(run_callbacks(&mut reg, &mut s, 0, EventPoll::Empty)));
    assert_eq!(got, vec![Some((CallbackKind::OnMessage, Some("hi".to_string()))), None]);

    let cmd = close(&mut s).unwrap();
    let r = w.step(WorkerInput::Command(CommandPoll::Received(cmd)));
    assert!(matches!(r.action, WorkerAction::CloseHandshake(_)));
    let r = w.step(WorkerInput::Read(ReadOutcome::Close(Some("normal".to_string()))));
    assert!(r.stop);
    let cb = run_callbacks(&mut reg, &mut s, 0, EventPoll::Received(r.event.unwrap()));
    assert_eq!(callback_of(cb), Some((CallbackKind::OnDisconnect, Some("normal".to_string()))));
    assert!(!reg.contains(s.key));
    assert_eq!(reg.len(), 0);
}

#[test]
fn unreachable_session() {
    let mut reg = Registry::new();
    let (mut s, spawn) = connect(&mut reg, "ws://unreachable:1".to_string());
    let mut w = Worker::new();
    let r = w.step(WorkerInput::Connect(Err("connection refused".to_string())));
    assert!(r.stop);
    let cb = run_callbacks(&mut reg, &mut s, spawn.generation, EventPoll::Received(r.event.unwrap()));
    assert_eq!(callback_of(cb), Some((CallbackKind::OnError, Some("connection refused".to_string()))));
    assert!(reg.contains(s.key));
    let cb = run_callbacks(&mut reg, &mut s, 0, EventPoll::Gone);
    assert!(cb.is_none());
    assert!(!reg.contains(s.key));
    assert!(!s.closed);
}

#[test]
fn close_now_reports_a_disconnect_that_was_never_reported() {
    let mut reg = Registry::new();
    let (mut s, _) = connect(&mut reg, "ws://a.test".to_string());
    close(&mut s).unwrap();
    assert!(run_callbacks(&mut reg, &mut s, 0, EventPoll::Gone).is_none());
    let cb = callback_of(close_now(&mut reg, &mut s));
    assert_eq!(cb, Some((CallbackKind::OnDisconnect, Some("closed by user".to_string()))));
}

#[test]
fn detached_handle_dispatches_nothing() {
    let mut reg = Registry::new();
    let (mut s, _) = connect(&mut reg, "ws://a.test".to_string());
    close_now(&mut reg, &mut s);
    let cb = run_callbacks(&mut reg, &mut s, 0, EventPoll::Received(LuaChannel::disconnected("late".to_string())));
    assert!(cb.is_none());
    let cb = run_callbacks(&mut reg, &mut s, 0, EventPoll::Received(LuaChannel::message("old".to_string())));
    assert!(cb.is_none());
    assert!(!reg.contains(s.key));
}

#[test]
fn registry_keeps_dispatch_order() {
    let mut reg = Registry::new();
    let (mut a, _) = connect(&mut reg, "ws://a.test".to_string());
    let (b, _) = connect(&mut reg, "ws://b.test".to_string());
    let (c, _) = connect(&mut reg, "ws://c.test".to_string());
    close_now(&mut reg, &mut a);
    assert_eq!(reg.keys(), vec![b.key, c.key]);
    open(&mut reg, &mut a).unwrap();
    assert_eq!(reg.keys(), vec![b.key, c.key, a.key]);
    assert!(!reg.insert(b.key));
    assert_eq!(reg.keys(), vec![b.key, c.key, a.key]);
}
