use vstd::prelude::*;

use crate::reply::{http_bad, reply_is, Reply, Status};

verus! {

/// A command sent by a client over its WebSocket, as JSON tagged by
/// `"action"` (`join`, `leave`, `drop_room`, `msg_user`, `msg_room`,
/// `broadcast`).
#[derive(Debug)]
pub enum ClientCommand {
    Join { room: String },
    Leave { room: String },
    DropRoom { room: String },
    MsgUser { target_id: String, msg: String },
    MsgRoom { room: String, msg: String },
    Broadcast { msg: String },
}

/// A chat message addressed to a room, before it is time-stamped.
#[derive(Debug)]
pub struct RoomMsg {
    /// Sending user.
    pub from: String,
    /// Room name.
    pub to: String,
    pub msg: String,
}

/// One operation on the connection manager.
#[allow(inconsistent_fields)]
#[derive(Debug)]
pub enum WsOp {
    JoinRoom { user: String, room: String },
    LeaveRoom { user: String, room: String },
    /// Print the stored history of the room.
    ShowRoomHistory { room: String },
    /// Remove the room and its history.
    DropRoom { room: String },
    MsgUser { target: String, msg: String },
    MsgRoom { room: String, msg: RoomMsg },
    Broadcast { msg: String },
}

/// The operations that `command`, sent by `user`, asks for, in order.
pub open spec fn command_ops(user: Seq<char>, command: ClientCommand, ops: Seq<WsOp>) -> bool {
    match command {
        ClientCommand::Join { room } => {
            &&& ops.len() == 1
            &&& ops[0] matches WsOp::JoinRoom { user: u, room: r } && u@ == user && r == room
        },
        ClientCommand::Leave { room } => {
            &&& ops.len() == 1
            &&& ops[0] matches WsOp::LeaveRoom { user: u, room: r } && u@ == user && r == room
        },
        ClientCommand::DropRoom { room } => {
            &&& ops.len() == 2
            &&& ops[0] matches WsOp::ShowRoomHistory { room: r } && r == room
            &&& ops[1] matches WsOp::DropRoom { room: r } && r == room
        },
        ClientCommand::MsgUser { target_id, msg } => {
            &&& ops.len() == 1
            &&& ops[0] matches WsOp::MsgUser { target, msg: m } && target == target_id && m == msg
        },
        ClientCommand::MsgRoom { room, msg } => {
            &&& ops.len() == 1
            &&& ops[0] matches WsOp::MsgRoom { room: r, msg: m }
                && r == room && m.from@ == user && m.to == room && m.msg == msg
        },
        ClientCommand::Broadcast { msg } => {
            &&& ops.len() == 1
            &&& ops[0] matches WsOp::Broadcast { msg: m } && m == msg
        },
    }
}

/// Turns a client command into the operations on the connection manager:
/// dropping a room first shows its history; a room message is sent in the
/// name of the user who sent the command.
pub fn handle_client_command(user_id: &str, command: ClientCommand) -> (ops: Vec<WsOp>)
    ensures
        command_ops(user_id@, command, ops@),
{
    let mut ops: Vec<WsOp> = Vec::new();
    match command {
        ClientCommand::Join { room } => {
            ops.push(WsOp::JoinRoom { user: String::from_str(user_id), room });
        },
        ClientCommand::Leave { room } => {
            ops.push(WsOp::LeaveRoom { user: String::from_str(user_id), room });
        },
        ClientCommand::DropRoom { room } => {
            let shown = room.clone();
            ops.push(WsOp::ShowRoomHistory { room: shown });
            ops.push(WsOp::DropRoom { room });
        },
        ClientCommand::MsgUser { target_id, msg } => {
            ops.push(WsOp::MsgUser { target: target_id, msg });
        },
        ClientCommand::MsgRoom { room, msg } => {
            let to = room.clone();
            ops.push(WsOp::MsgRoom { room, msg: RoomMsg { from: String::from_str(user_id), to, msg } });
        },
        ClientCommand::Broadcast { msg } => {
            ops.push(WsOp::Broadcast { msg });
        },
    }
    ops
}

/// A frame received from the client.
#[derive(Debug)]
pub enum Frame {
    Text(String),
    Ping(Vec<u8>),
    Close,
    /// Any other frame (binary, pong, continuation).
    Other,
}

/// What happened on a live connection.
#[derive(Debug)]
pub enum WsEvent {
    /// A message for this user arrived from the connection manager.
    Outbound(String),
    /// Pushing an outbound message to the client failed.
    SendFailed,
    /// The client sent a frame.
    Inbound(Frame),
    /// The client stream broke or ended.
    StreamEnded,
}

/// What to do about an event on a live connection.
#[derive(Debug)]
pub enum WsAction {
    /// Push this text to the client.
    SendText(String),
    /// Read this text as a client command (and tell the client if it is not one).
    HandleText(String),
    /// Answer a ping with these bytes.
    Pong(Vec<u8>),
    /// Nothing to do.
    Nothing,
    /// The connection is over: remove this user from the connection manager.
    Cleanup(String),
}

/// A live WebSocket connection of one user.
#[derive(Debug)]
pub struct WsSession {
    pub user_id: String,
    /// False once the connection is over.
    pub open: bool,
}

/// One event on a connection of `user`: whether the connection stays open,
/// and what to do.
pub open spec fn ws_step(user: String, ev: WsEvent) -> (bool, WsAction) {
    match ev {
        WsEvent::Outbound(m) => (true, WsAction::SendText(m)),
        WsEvent::SendFailed => (false, WsAction::Cleanup(user)),
        WsEvent::Inbound(Frame::Text(t)) => (true, WsAction::HandleText(t)),
        WsEvent::Inbound(Frame::Ping(b)) => (true, WsAction::Pong(b)),
        WsEvent::Inbound(Frame::Close) => (false, WsAction::Cleanup(user)),
        WsEvent::Inbound(Frame::Other) => (true, WsAction::Nothing),
        WsEvent::StreamEnded => (false, WsAction::Cleanup(user)),
    }
}

/// The actions taken for a sequence of events on a connection of `user`
/// that starts open; events after the connection is over are never read.
pub open spec fn ws_run(user: String, evs: Seq<WsEvent>) -> Seq<WsAction>
    decreases evs.len(),
{
    if evs.len() == 0 {
        seq![]
    } else {
        let (stays_open, a) = ws_step(user, evs[0]);
        if stays_open {
            seq![a] + ws_run(user, evs.drop_first())
        } else {
            seq![a]
        }
    }
}

/// How an upgrade request is answered.
#[derive(Debug)]
pub enum WsOpen {
    /// The handshake failed: answer with this reply.
    Refused(Reply),
    /// The handshake succeeded: register `register` with the connection
    /// manager, run `session`, and answer with the handshake's own upgrade
    /// response (101 Switching Protocols).
    Upgrade { register: String, session: WsSession },
}

/// How the upgrade request of `user_id` is answered, given whether the
/// handshake succeeded.
pub open spec fn ws_opens(user_id: String, handshake_ok: bool, r: WsOpen) -> bool {
    &&& !handshake_ok ==> (r matches WsOpen::Refused(reply)
        && reply_is(reply, Status::BadRequest, "Internal Server Error!"@))
    &&& handshake_ok ==> (r matches WsOpen::Upgrade { register, session }
        && register == user_id && session == (WsSession { user_id, open: true }))
}

/// Answers the upgrade request of `user_id`: a failed handshake is refused
/// with "Internal Server Error!"; otherwise the user is registered, gets a
/// live connection, and the client is answered with the upgrade response.
pub fn ws_handler(user_id: String, handshake_ok: bool) -> (r: WsOpen)
    ensures
        ws_opens(user_id, handshake_ok, r),
{
    if !handshake_ok {
        WsOpen::Refused(http_bad("Internal Server Error!"))
    } else {
        let register = user_id.clone();
        WsOpen::Upgrade { register, session: WsSession { user_id, open: true } }
    }
}

impl WsSession {
    /// Handles one event on the live connection. A failed push, a close
    /// frame or the end of the client stream ends the connection, and only
    /// then is the user cleaned up.
    pub fn on_event(&mut self, ev: WsEvent) -> (a: WsAction)
        requires
            old(self).open,
        ensures
            final(self).user_id == old(self).user_id,
            (final(self).open, a) == ws_step(old(self).user_id, ev),
    {
        match ev {
            WsEvent::Outbound(m) => WsAction::SendText(m),
            WsEvent::Inbound(Frame::Text(t)) => WsAction::HandleText(t),
            WsEvent::Inbound(Frame::Ping(b)) => WsAction::Pong(b),
            WsEvent::Inbound(Frame::Other) => WsAction::Nothing,
            _ => {
                self.open = false;
                cleanup_user(&self.user_id)
            },
        }
    }
}

/// The cleanup for a user whose connection is over.
fn cleanup_user(user_id: &String) -> (a: WsAction)
    ensures
        a == WsAction::Cleanup(*user_id),
{
    WsAction::Cleanup(user_id.clone())
}

} // verus!
