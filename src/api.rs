use vstd::prelude::*;

use crate::data::{Config, Error, Token, UserData, UserResponse};
use crate::dispatch::SubscriptionKind;

verus! {

/// HTTP status of a rejected credential.
pub const STATUS_UNAUTHORIZED: u16 = 401;

/// HTTP status of a created subscription.
pub const STATUS_ACCEPTED: u16 = 202;

/// HTTP status with which the token endpoint says a device code is not
/// confirmed yet.
pub const STATUS_BAD_REQUEST: u16 = 400;

/// Base of the query API where the configuration names none.
pub open spec fn default_api_base() -> Seq<char> {
    "https://api.twitch.tv/helix"@
}

/// Push-notification endpoint where the configuration names none.
pub open spec fn default_socket_url() -> Seq<char> {
    "wss://eventsub.wss.twitch.tv/ws"@
}

/// The base of the query API: the configured one, else the platform's.
pub fn api_base(config: &Config) -> (r: String)
    ensures
        r@ == match config.baseUrl {
            Some(b) => b@,
            None => default_api_base(),
        },
{
    match &config.baseUrl {
        Some(b) => b.clone(),
        None => String::from_str("https://api.twitch.tv/helix"),
    }
}

/// The push-notification endpoint: the configured one, else the platform's.
pub fn socket_url(config: &Config) -> (r: String)
    ensures
        r@ == match config.socketUrl {
            Some(u) => u@,
            None => default_socket_url(),
        },
{
    match &config.socketUrl {
        Some(u) => u.clone(),
        None => String::from_str("wss://eventsub.wss.twitch.tv/ws"),
    }
}

/// Where subscriptions are created, below the API base.
pub fn subscriptions_url(base: &str) -> (r: String)
    ensures
        r@ == base@ + "/eventsub/subscriptions"@,
{
    String::from_str(base).concat("/eventsub/subscriptions")
}

/// The value of the authorization header for requests signed with `token`;
/// a request without an access token fails as unauthorised.
pub fn authorization_header(token: &Token) -> (r: Result<String, Error>)
    ensures
        token.access_token@.len() == 0 ==> r == Err::<String, Error>(Error::UnAuthorised),
        token.access_token@.len() > 0 ==> (r matches Ok(h) && h@ == "Bearer "@
            + token.access_token@),
{
    if token.access_token.as_str().unicode_len() == 0 {
        Err(Error::UnAuthorised)
    } else {
        Ok(String::from_str("Bearer ").concat(token.access_token.as_str()))
    }
}

/// The outcome of a query or validation request from its HTTP status.
pub fn request_status(status: u16) -> (r: Result<(), Error>)
    ensures
        r == if status == STATUS_UNAUTHORIZED {
            Err::<(), Error>(Error::UnAuthorised)
        } else {
            Ok(())
        },
{
    if status == STATUS_UNAUTHORIZED {
        Err(Error::UnAuthorised)
    } else {
        Ok(())
    }
}

/// The outcome of a refresh request from its HTTP status: a rejected refresh
/// token cannot be recovered from.
pub fn refresh_status(status: u16) -> (r: Result<(), Error>)
    ensures
        r == if status == STATUS_UNAUTHORIZED {
            Err::<(), Error>(Error::ExpiredAuth)
        } else {
            Ok(())
        },
{
    if status == STATUS_UNAUTHORIZED {
        Err(Error::ExpiredAuth)
    } else {
        Ok(())
    }
}

/// The outcome of a subscription request from its HTTP status: only
/// "accepted" is a success.
pub fn subscription_status(status: u16) -> (r: Result<(), Error>)
    ensures
        r == if status == STATUS_ACCEPTED {
            Ok(())
        } else if status == STATUS_UNAUTHORIZED {
            Err::<(), Error>(Error::UnAuthorised)
        } else {
            Err::<(), Error>(Error::SubscriptionRejected)
        },
{
    if status == STATUS_ACCEPTED {
        Ok(())
    } else if status == STATUS_UNAUTHORIZED {
        Err(Error::UnAuthorised)
    } else {
        Err(Error::SubscriptionRejected)
    }
}

/// The query pairs as character sequences.
pub open spec fn pairs_view(q: Seq<(String, String)>) -> Seq<(Seq<char>, Seq<char>)> {
    q.map_values(|p: (String, String)| (p.0@, p.1@))
}

/// One `key=login` query pair per login, in the order given.
pub fn login_query(key: &str, logins: &Vec<String>) -> (r: Vec<(String, String)>)
    ensures
        pairs_view(r@) == logins@.map_values(|l: String| (key@, l@)),
{
    let mut r: Vec<(String, String)> = Vec::new();
    let mut i: usize = 0;
    while i < logins.len()
        invariant
            i <= logins.len(),
            pairs_view(r@) == logins@.take(i as int).map_values(|l: String| (key@, l@)),
        decreases logins.len() - i,
    {
        let ghost before = r@;
        r.push((String::from_str(key), logins[i].clone()));
        proof {
            assert(pairs_view(r@) =~= pairs_view(before).push((key@, logins@[i as int]@)));
            assert(logins@.take(i + 1) =~= logins@.take(i as int).push(logins@[i as int]));
            assert(pairs_view(r@) =~= logins@.take(i + 1).map_values(|l: String| (key@, l@)));
        }
        i = i + 1;
    }
    assert(logins@.take(i as int) =~= logins@);
    r
}

/// The query of a credential refresh.
pub open spec fn refresh_query_spec(config: Config, token: Token) -> Seq<(Seq<char>, Seq<char>)> {
    seq![
        ("client_id"@, config.clientId@),
        ("client_secret"@, config.clientSecret@),
        ("grant_type"@, "refresh_token"@),
        ("refresh_token"@, token.refresh_token@),
    ]
}

/// The query that exchanges the refresh token for a new credential.
pub fn refresh_query(config: &Config, token: &Token) -> (r: Vec<(String, String)>)
    ensures
        pairs_view(r@) == refresh_query_spec(*config, *token),
{
    let mut r: Vec<(String, String)> = Vec::new();
    r.push((String::from_str("client_id"), config.clientId.clone()));
    r.push((String::from_str("client_secret"), config.clientSecret.clone()));
    r.push((String::from_str("grant_type"), String::from_str("refresh_token")));
    r.push((String::from_str("refresh_token"), token.refresh_token.clone()));
    assert(pairs_view(r@) =~= refresh_query_spec(*config, *token));
    r
}

/// The scopes asked for by the device authorization.
pub open spec fn device_scopes() -> Seq<char> {
    "user:read:chat"@
}

/// The query that asks for a device code.
pub fn device_code_query(client_id: &str, client_secret: &str) -> (r: Vec<(String, String)>)
    ensures
        pairs_view(r@) == seq![
            ("client_id"@, client_id@),
            ("client_secret"@, client_secret@),
            ("scopes"@, device_scopes()),
        ],
{
    let mut r: Vec<(String, String)> = Vec::new();
    r.push((String::from_str("client_id"), String::from_str(client_id)));
    r.push((String::from_str("client_secret"), String::from_str(client_secret)));
    r.push((String::from_str("scopes"), String::from_str("user:read:chat")));
    assert(pairs_view(r@) =~= seq![
        ("client_id"@, client_id@),
        ("client_secret"@, client_secret@),
        ("scopes"@, device_scopes()),
    ]);
    r
}

/// The query that polls whether a device code was confirmed.
pub fn device_token_query(client_id: &str, client_secret: &str, device_code: &str) -> (r: Vec<
    (String, String),
>)
    ensures
        pairs_view(r@) == seq![
            ("client_id"@, client_id@),
            ("client_secret"@, client_secret@),
            ("scopes"@, device_scopes()),
            ("device_code"@, device_code@),
            ("grant_type"@, "urn:ietf:params:oauth:grant-type:device_code"@),
        ],
{
    let mut r = device_code_query(client_id, client_secret);
    let ghost first = r@;
    r.push((String::from_str("device_code"), String::from_str(device_code)));
    r.push(
        (
            String::from_str("grant_type"),
            String::from_str("urn:ietf:params:oauth:grant-type:device_code"),
        ),
    );
    assert(pairs_view(r@) =~= pairs_view(first).push(("device_code"@, device_code@)).push(
        ("grant_type"@, "urn:ietf:params:oauth:grant-type:device_code"@),
    ));
    assert(pairs_view(r@) =~= seq![
        ("client_id"@, client_id@),
        ("client_secret"@, client_secret@),
        ("scopes"@, device_scopes()),
        ("device_code"@, device_code@),
        ("grant_type"@, "urn:ietf:params:oauth:grant-type:device_code"@),
    ]);
    r
}

/// The name of a notification type in the platform's protocol.
pub open spec fn kind_name(kind: SubscriptionKind) -> Seq<char> {
    match kind {
        SubscriptionKind::StreamOnline => "stream.online"@,
        SubscriptionKind::StreamOffline => "stream.offline"@,
    }
}

/// A hexadecimal digit, lower case.
pub open spec fn hex_digit(n: int) -> char {
    seq!['0', '1', '2', '3', '4', '5', '6', '7', '8', '9', 'a', 'b', 'c', 'd', 'e', 'f'][n]
}

/// How one character stands inside a JSON string literal: a quote and a
/// backslash are escaped by a backslash, the control characters with a short
/// escape have it, the other control characters are written `\u00XX`, and
/// every other character stands as it is.
pub open spec fn json_escape_char(c: char) -> Seq<char> {
    if c == '"' {
        seq!['\\', '"']
    } else if c == '\\' {
        seq!['\\', '\\']
    } else if c == '\x08' {
        seq!['\\', 'b']
    } else if c == '\t' {
        seq!['\\', 't']
    } else if c == '\n' {
        seq!['\\', 'n']
    } else if c == '\x0c' {
        seq!['\\', 'f']
    } else if c == '\r' {
        seq!['\\', 'r']
    } else if (c as u32) < 0x20 {
        seq!['\\', 'u', '0', '0', hex_digit((c as u32) as int / 16), hex_digit((c as u32) as int % 16)]
    } else {
        seq![c]
    }
}

/// The characters of a text, each escaped for a JSON string literal.
pub open spec fn json_escaped(s: Seq<char>) -> Seq<char>
    decreases s.len(),
{
    if s.len() == 0 {
        seq![]
    } else {
        json_escaped(s.drop_last()) + json_escape_char(s.last())
    }
}

/// The JSON string literal for a text: the escaped text between quotes.
pub open spec fn json_string_of(s: Seq<char>) -> Seq<char> {
    seq!['"'] + json_escaped(s) + seq!['"']
}

/// Relies on serde_json's `Display` of `Value::String`, which writes the text
/// as one JSON string literal with the escapes of serde_json's `ESCAPE` table.
#[verifier::external_body]
fn json_string(s: &str) -> (r: String)
    ensures
        r@ == json_string_of(s@),
{
    serde_json::Value::String(s.to_string()).to_string()
}

/// The body of a subscription request: its condition names the broadcaster,
/// its transport the websocket session.
pub open spec fn subscription_body_spec(
    session: Seq<char>,
    broadcaster_id: Seq<char>,
    kind: SubscriptionKind,
) -> Seq<char> {
    "{\"condition\":{\"broadcaster_user_id\":"@ + json_string_of(broadcaster_id)
        + "},\"transport\":{\"method\":\"websocket\",\"session_id\":"@ + json_string_of(session)
        + "},\"type\":\""@ + kind_name(kind) + "\",\"version\":1}"@
}

/// The JSON body that creates a subscription of `kind` for `broadcaster_id`
/// on `session`.
pub fn subscription_body(session: &str, broadcaster_id: &str, kind: SubscriptionKind) -> (r:
    String)
    ensures
        r@ == subscription_body_spec(session@, broadcaster_id@, kind),
{
    let name = match kind {
        SubscriptionKind::StreamOnline => "stream.online",
        SubscriptionKind::StreamOffline => "stream.offline",
    };
    String::from_str("{\"condition\":{\"broadcaster_user_id\":").concat(
        json_string(broadcaster_id).as_str(),
    ).concat("},\"transport\":{\"method\":\"websocket\",\"session_id\":").concat(
        json_string(session).as_str(),
    ).concat("},\"type\":\"").concat(name).concat("\",\"version\":1}")
}

/// A user as (id, login).
pub open spec fn user_view(u: UserData) -> (Seq<char>, Seq<char>) {
    (u.id@, u.login@)
}

pub open spec fn users_view(users: Seq<UserData>) -> Seq<(Seq<char>, Seq<char>)> {
    users.map_values(|u: UserData| user_view(u))
}

/// The first user of a lookup answer, if any.
pub fn first_user(resp: UserResponse) -> (r: Result<UserData, Error>)
    ensures
        resp.data@.len() == 0 ==> r == Err::<UserData, Error>(Error::MissingUser),
        resp.data@.len() > 0 ==> (r matches Ok(u) && user_view(u) == user_view(resp.data@[0])),
{
    let mut data = resp.data;
    if data.len() == 0 {
        Err(Error::MissingUser)
    } else {
        Ok(data.remove(0))
    }
}

/// The first user of `users` whose login is `login`.
pub open spec fn lookup_login(users: Seq<(Seq<char>, Seq<char>)>, login: Seq<char>) -> Option<
    (Seq<char>, Seq<char>),
>
    decreases users.len(),
{
    if users.len() == 0 {
        None
    } else if users[0].1 == login {
        Some(users[0])
    } else {
        lookup_login(users.drop_first(), login)
    }
}

/// The users for the configured logins, in configured order; `None` where
/// some login has no user.
pub open spec fn resolve_spec(users: Seq<(Seq<char>, Seq<char>)>, logins: Seq<Seq<char>>) -> Option<
    Seq<(Seq<char>, Seq<char>)>,
>
    decreases logins.len(),
{
    if logins.len() == 0 {
        Some(seq![])
    } else {
        match (resolve_spec(users, logins.drop_last()), lookup_login(users, logins.last())) {
            (Some(found), Some(u)) => Some(found.push(u)),
            _ => None,
        }
    }
}

fn find_login(users: &Vec<UserData>, login: &String) -> (r: Option<UserData>)
    ensures
        match r {
            Some(u) => lookup_login(users_view(users@), login@) == Some(user_view(u)),
            None => lookup_login(users_view(users@), login@) == None::<(Seq<char>, Seq<char>)>,
        },
{
    let ghost all = users_view(users@);
    assert(all.subrange(0, all.len() as int) =~= all);
    let mut j: usize = 0;
    while j < users.len()
        invariant
            j <= users.len(),
            all == users_view(users@),
            lookup_login(all, login@) == lookup_login(all.subrange(j as int, all.len() as int), login@),
        decreases users.len() - j,
    {
        let ghost rest = all.subrange(j as int, all.len() as int);
        if users[j].login == *login {
            assert(rest[0] == user_view(users@[j as int]));
            let u = UserData { id: users[j].id.clone(), login: users[j].login.clone() };
            return Some(u);
        }
        assert(rest.drop_first() =~= all.subrange(j + 1, all.len() as int));
        j = j + 1;
    }
    assert(all.subrange(j as int, all.len() as int) =~= Seq::<(Seq<char>, Seq<char>)>::empty());
    None
}

proof fn lemma_resolve_none_extends(
    users: Seq<(Seq<char>, Seq<char>)>,
    names: Seq<Seq<char>>,
    k: int,
)
    requires
        0 <= k <= names.len(),
        resolve_spec(users, names.take(k)) == None::<Seq<(Seq<char>, Seq<char>)>>,
    ensures
        resolve_spec(users, names) == None::<Seq<(Seq<char>, Seq<char>)>>,
    decreases names.len() - k,
{
    if k == names.len() {
        assert(names.take(k) =~= names);
    } else {
        assert(names.take(k + 1).drop_last() =~= names.take(k));
        lemma_resolve_none_extends(users, names, k + 1);
    }
}

/// The users of a lookup answer for the configured logins, in configured
/// order, each the first with that login; `MissingUser` where a login has
/// none.
pub fn resolve_broadcasters(logins: &Vec<String>, users: &Vec<UserData>) -> (r: Result<
    Vec<UserData>,
    Error,
>)
    ensures
        match r {
            Ok(found) => resolve_spec(users_view(users@), logins@.map_values(|l: String| l@))
                == Some(users_view(found@)),
            Err(e) => e == Error::MissingUser && resolve_spec(
                users_view(users@),
                logins@.map_values(|l: String| l@),
            ) == None::<Seq<(Seq<char>, Seq<char>)>>,
        },
{
    let ghost all = users_view(users@);
    let ghost names = logins@.map_values(|l: String| l@);
    let mut found: Vec<UserData> = Vec::new();
    let mut i: usize = 0;
    while i < logins.len()
        invariant
            i <= logins.len(),
            all == users_view(users@),
            names == logins@.map_values(|l: String| l@),
            resolve_spec(all, names.take(i as int)) == Some(users_view(found@)),
        decreases logins.len() - i,
    {
        assert(names.take(i + 1).drop_last() =~= names.take(i as int));
        assert(names.take(i + 1).last() == logins@[i as int]@);
        match find_login(users, &logins[i]) {
            Some(u) => {
                let ghost before = found@;
                found.push(u);
                assert(users_view(found@) =~= users_view(before).push(user_view(u)));
            },
            None => {
                proof {
                    lemma_resolve_none_extends(all, names, i as int + 1);
                }
                return Err(Error::MissingUser);
            },
        }
        i = i + 1;
    }
    assert(names.take(i as int) =~= names);
    Ok(found)
}

} // verus!
