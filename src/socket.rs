use vstd::prelude::*;

use twitch_api::eventsub::Event::{ChannelChatMessageV1, StreamOfflineV1, StreamOnlineV1};
use twitch_api::eventsub::EventsubWebsocketData::{Notification, Reconnect, Welcome};
use twitch_api::eventsub::Message::Notification as Delivered;
use twitch_api::eventsub::{Event, Payload};

use crate::data::{Error, InternalMessage, MessageView};

verus! {

use crate::socket::Frame::{
    ChatMessage,
    Malformed,
    Other,
    SessionReconnect,
    SessionWelcome,
    StreamOffline,
    StreamOnline,
};

/// One inbound frame of the push-notification connection, reduced to what
/// the session logic reads.
#[derive(Debug, Clone)]
pub enum Frame {
    /// First message of a connection, with the session id to subscribe on.
    SessionWelcome { session: String },
    /// The provider asks for a new connection to `url`.
    SessionReconnect { session: String, url: Option<String> },
    /// A broadcaster went live.
    StreamOnline { login: String },
    /// A broadcaster went offline.
    StreamOffline { login: String },
    /// A chat message, with the chatter's display name.
    ChatMessage { chatter: String, text: String },
    /// Any other well-formed frame: keepalives, revocations, notifications
    /// of other types.
    Other,
    /// Text that is not a frame of the protocol.
    Malformed,
}

pub ghost enum FrameView {
    SessionWelcome { session: Seq<char> },
    SessionReconnect { session: Seq<char>, url: Option<Seq<char>> },
    StreamOnline { login: Seq<char> },
    StreamOffline { login: Seq<char> },
    ChatMessage { chatter: Seq<char>, text: Seq<char> },
    Other,
    Malformed,
}

impl View for Frame {
    type V = FrameView;

    open spec fn view(&self) -> FrameView {
        match self {
            Frame::SessionWelcome { session } => FrameView::SessionWelcome { session: session@ },
            Frame::SessionReconnect { session, url } => FrameView::SessionReconnect {
                session: session@,
                url: match url {
                    Some(u) => Some(u@),
                    None => None,
                },
            },
            Frame::StreamOnline { login } => FrameView::StreamOnline { login: login@ },
            Frame::StreamOffline { login } => FrameView::StreamOffline { login: login@ },
            Frame::ChatMessage { chatter, text } => FrameView::ChatMessage {
                chatter: chatter@,
                text: text@,
            },
            Frame::Other => FrameView::Other,
            Frame::Malformed => FrameView::Malformed,
        }
    }
}

/// The frame that twitch_api's websocket parser reads from a text message.
pub uninterp spec fn websocket_frame_of(text: Seq<char>) -> FrameView;

/// Relies on twitch_api's `Event::parse_websocket`, which reads the envelope
/// of an EventSub websocket message and its payload; the result depends on the
/// text alone.
#[verifier::external_body]
fn parse_websocket(text: &str) -> (r: Frame)
    ensures
        r@ == websocket_frame_of(text@),
{
    let Ok(data) = Event::parse_websocket(text) else { return Malformed };
    match data {
        Welcome { payload, .. } => SessionWelcome { session: payload.session.id.to_string() },
        Reconnect { payload, .. } => SessionReconnect { session: payload.session.id.to_string(), url: payload.session.reconnect_url.map(String::from) },
        Notification { payload: StreamOnlineV1(Payload { message: Delivered(d), .. }), .. } => StreamOnline { login: d.broadcaster_user_login.to_string() },
        Notification { payload: StreamOfflineV1(Payload { message: Delivered(d), .. }), .. } => StreamOffline { login: d.broadcaster_user_login.to_string() },
        Notification { payload: ChannelChatMessageV1(Payload { message: Delivered(d), .. }), .. } => ChatMessage { chatter: d.chatter_user_name.to_string(), text: d.message.text },
        _ => Other,
    }
}

/// The internal event for a frame: a welcome starts a session, a reconnect
/// request asks for a replacement, online and offline notifications name the
/// channel, a chat message becomes the debug line `chatter: text`, and every
/// other well-formed frame is explicitly ignored. Text that is not a frame,
/// and a reconnect request without a url, break the protocol: `None`.
pub open spec fn message_of_frame(f: FrameView) -> Option<MessageView> {
    match f {
        FrameView::SessionWelcome { session } => Some(MessageView::Init { session }),
        FrameView::SessionReconnect { session, url } => match url {
            Some(u) => Some(MessageView::Reconnect { session, url: u }),
            None => None,
        },
        FrameView::StreamOnline { login } => Some(MessageView::StreamLive { channel: login }),
        FrameView::StreamOffline { login } => Some(MessageView::StreamStop { channel: login }),
        FrameView::ChatMessage { chatter, text } => Some(
            MessageView::Debug { info: chatter + ": "@ + text },
        ),
        FrameView::Other => Some(MessageView::DontHandle),
        FrameView::Malformed => None,
    }
}

/// The outcome of translating a frame: its event, or `MalformedFrame`
/// exactly where the frame breaks the protocol.
pub open spec fn translated(f: FrameView, r: Result<InternalMessage, Error>) -> bool {
    match message_of_frame(f) {
        Some(m) => r matches Ok(x) && x@ == m,
        None => r == Err::<InternalMessage, Error>(Error::MalformedFrame),
    }
}

/// Translates one parsed frame into the internal event it stands for.
pub fn message_from_frame(frame: Frame) -> (r: Result<InternalMessage, Error>)
    ensures
        translated(frame@, r),
{
    match frame {
        Frame::SessionWelcome { session } => Ok(InternalMessage::Init { session }),
        Frame::SessionReconnect { session, url } => match url {
            Some(u) => Ok(InternalMessage::Reconnect { session, url: u }),
            None => Err(Error::MalformedFrame),
        },
        Frame::StreamOnline { login } => Ok(InternalMessage::StreamLive { channel: login }),
        Frame::StreamOffline { login } => Ok(InternalMessage::StreamStop { channel: login }),
        Frame::ChatMessage { chatter, text } => Ok(
            InternalMessage::Debug { info: chatter.concat(": ").concat(text.as_str()) },
        ),
        Frame::Other => Ok(InternalMessage::DontHandle),
        Frame::Malformed => Err(Error::MalformedFrame),
    }
}

/// The internal event for one text message of the connection.
pub fn message_from_text(text: &str) -> (r: Result<InternalMessage, Error>)
    ensures
        translated(websocket_frame_of(text@), r),
{
    message_from_frame(parse_websocket(text))
}

} // verus!
