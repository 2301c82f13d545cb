use vstd::prelude::*;

verus! {

/// The platform credential: persisted wholesale on every change.
#[derive(Debug, Clone)]
pub struct Token {
    pub access_token: String,
    pub refresh_token: String,
    pub expires_in: u32,
}

/// Settings loaded once at startup.
#[derive(Debug, Clone)]
pub struct Config {
    pub clientId: String,
    pub clientSecret: String,
    pub broadcasters: Vec<String>,
    pub streamlinkToken: String,
    pub root: String,
    pub socketUrl: Option<String>,
    pub baseUrl: Option<String>,
}

/// Answer of the device-authorization endpoint.
#[derive(Debug, Clone)]
pub struct DeviceCodeResponse {
    pub device_code: String,
    pub verification_uri: String,
}

/// One user of a user lookup.
#[derive(Debug, Clone)]
pub struct UserData {
    pub id: String,
    pub login: String,
}

/// Answer of a user lookup.
#[derive(Debug, Clone)]
pub struct UserResponse {
    pub data: Vec<UserData>,
}

/// One stream of a stream-status lookup; `started_at` is in seconds since
/// the Unix epoch.
#[derive(Debug, Clone)]
pub struct StreamData {
    pub id: String,
    pub user_id: String,
    pub user_login: String,
    pub game_name: String,
    pub stream_type: String,
    pub title: String,
    pub started_at: i64,
}

/// Answer of a stream-status lookup.
#[derive(Debug, Clone)]
pub struct StreamResponse {
    pub data: Vec<StreamData>,
}

/// Answer of the credential validation endpoint; `expires_in` is the
/// remaining lifetime of the access token in seconds.
#[derive(Debug, Clone)]
pub struct ValidationResponse {
    pub client_id: String,
    pub login: String,
    pub user_id: String,
    pub scopes: Vec<String>,
    pub expires_in: u64,
}

/// Failures of calls to the platform.
#[derive(Debug, Clone, Copy, PartialEq, Eq, Structural)]
pub enum Error {
    /// The access token was rejected; a refresh may recover.
    UnAuthorised,
    /// The refresh token was rejected; only a new authorization recovers.
    ExpiredAuth,
    /// A user lookup found no match.
    MissingUser,
    /// The platform did not accept a subscription.
    SubscriptionRejected,
    /// A frame of the push-notification connection broke the protocol.
    MalformedFrame,
}

/// The events that the dispatch loop consumes, in arrival order.
#[derive(Debug, Clone)]
pub enum InternalMessage {
    Init { session: String },
    StreamLive { channel: String },
    StreamStop { channel: String },
    Debug { info: String },
    Reconnect { session: String, url: String },
    DontHandle,
}

/// What an `InternalMessage` holds, as sequences of characters.
pub ghost enum MessageView {
    Init { session: Seq<char> },
    StreamLive { channel: Seq<char> },
    StreamStop { channel: Seq<char> },
    Debug { info: Seq<char> },
    Reconnect { session: Seq<char>, url: Seq<char> },
    DontHandle,
}

impl View for InternalMessage {
    type V = MessageView;

    open spec fn view(&self) -> MessageView {
        match self {
            InternalMessage::Init { session } => MessageView::Init { session: session@ },
            InternalMessage::StreamLive { channel } => MessageView::StreamLive { channel: channel@ },
            InternalMessage::StreamStop { channel } => MessageView::StreamStop { channel: channel@ },
            InternalMessage::Debug { info } => MessageView::Debug { info: info@ },
            InternalMessage::Reconnect { session, url } => MessageView::Reconnect {
                session: session@,
                url: url@,
            },
            InternalMessage::DontHandle => MessageView::DontHandle,
        }
    }
}

} // verus!
