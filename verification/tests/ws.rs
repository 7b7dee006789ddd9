use chatapp::reply::Status;
use chatapp::ws::ws_handler::{
    handle_client_command, ws_handler, ClientCommand, Frame, WsAction, WsEvent, WsOp, WsOpen,
    WsSession,
};

fn s(x: &str) -> String {
    x.to_string()
}

#[test]
fn join_and_leave_name_the_user() {
    let ops = handle_client_command("u1", ClientCommand::Join { room: s("r") });
    assert_eq!(ops.len(), 1);
    assert!(matches!(&ops[0], WsOp::JoinRoom { user, room } if user == "u1" && room == "r"));
    let ops = handle_client_command("u1", ClientCommand::Leave { room: s("r") });
    assert_eq!(ops.len(), 1);
    assert!(matches!(&ops[0], WsOp::LeaveRoom { user, room } if user == "u1" && room == "r"));
}

#[test]
fn drop_room_shows_history_first() {
    let ops = handle_client_command("u1", ClientCommand::DropRoom { room: s("r") });
    assert_eq!(ops.len(), 2);
    assert!(matches!(&ops[0], WsOp::ShowRoomHistory { room } if room == "r"));
    assert!(matches!(&ops[1], WsOp::DropRoom { room } if room == "r"));
}

#[test]
fn messages() {
    let ops = handle_client_command("u1", ClientCommand::MsgUser { target_id: s("u2"), msg: s("hi") });
    assert!(matches!(&ops[0], WsOp::MsgUser { target, msg } if target == "u2" && msg == "hi"));
    let ops = handle_client_command("u1", ClientCommand::MsgRoom { room: s("r"), msg: s("yo") });
    assert_eq!(ops.len(), 1);
    match &ops[0] {
        WsOp::MsgRoom { room, msg } => {
            assert_eq!(room, "r");
            assert_eq!(msg.from, "u1");
            assert_eq!(msg.to, "r");
            assert_eq!(msg.msg, "yo");
        }
        other => panic!("{:?}", other),
    }
    let ops = handle_client_command("u1", ClientCommand::Broadcast { msg: s("all") });
    assert!(matches!(&ops[0], WsOp::Broadcast { msg } if msg == "all"));
}

#[test]
fn handshake() {
    match ws_handler(s("u1"), false) {
        WsOpen::Refused(reply) => {
            assert_eq!(reply.status, Status::BadRequest);
            assert_eq!(reply.body, "Internal Server Error!");
        }
        other => panic!("{:?}", other),
    }
    match ws_handler(s("u1"), true) {
        WsOpen::Upgrade { register, session } => {
            assert_eq!(register, "u1");
            assert_eq!(session.user_id, "u1");
            assert!(session.open);
        }
        other => panic!("{:?}", other),
    }
}

fn open() -> WsSession {
    WsSession { user_id: s("u1"), open: true }
}

#[test]
fn events_that_keep_the_connection() {
    let mut ws = open();
    assert!(matches!(ws.on_event(WsEvent::Outbound(s("m"))), WsAction::SendText(t) if t == "m"));
    assert!(ws.open);
    assert!(matches!(ws.on_event(WsEvent::Inbound(Frame::Text(s("{}")))), WsAction::HandleText(t) if t == "{}"));
    assert!(matches!(ws.on_event(WsEvent::Inbound(Frame::Ping(vec![1, 2]))), WsAction::Pong(b) if b == vec![1, 2]));
    assert!(matches!(ws.on_event(WsEvent::Inbound(Frame::Other)), WsAction::Nothing));
    assert!(ws.open);
}

#[test]
fn events_that_end_the_connection_clean_up_once() {
    for ev in [WsEvent::SendFailed, WsEvent::Inbound(Frame::Close), WsEvent::StreamEnded] {
        let mut ws = open();
        let a = ws.on_event(ev);
        assert!(matches!(a, WsAction::Cleanup(u) if u == "u1"));
        assert!(!ws.open);
    }
}

#[test]
fn outbound_messages_are_sent_in_order_once() {
    let mut ws = open();
    let mut sent = Vec::new();
    let events = vec![
        WsEvent::Outbound(s("m1")),
        WsEvent::Inbound(Frame::Other),
        WsEvent::Outbound(s("m2")),
        WsEvent::Inbound(Frame::Ping(vec![9])),
        WsEvent::Outbound(s("m3")),
    ];
    for ev in events {
        if let WsAction::SendText(t) = ws.on_event(ev) {
            sent.push(t);
        }
    }
    assert_eq!(sent, vec![s("m1"), s("m2"), s("m3")]);
    assert!(ws.open);
}
