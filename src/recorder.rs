use vstd::prelude::*;

verus! {

/// 9999-12-31T23:59:59Z, in seconds since the Unix epoch.
pub const LAST_SECOND_OF_9999: i64 = 253_402_300_799;

/// The RFC 3339 text, in UTC with a `Z` suffix and whole seconds, that chrono
/// writes for an instant given in seconds since the Unix epoch.
pub uninterp spec fn rfc3339_seconds_of(secs: int) -> Seq<char>;

/// Relies on chrono's `DateTime::<Utc>::from_timestamp` (which returns `None`
/// outside the range chrono can represent) and on
/// `DateTime::to_rfc3339_opts(SecondsFormat::Secs, true)` for the text. Every
/// instant from the epoch to the end of the year 9999 lies in that range.
#[verifier::external_body]
fn format_utc_seconds(secs: i64) -> (r: Option<String>)
    ensures
        r matches Some(s) ==> s@ == rfc3339_seconds_of(secs as int),
        0 <= secs <= LAST_SECOND_OF_9999 ==> r is Some,
{
    chrono::DateTime::<chrono::Utc>::from_timestamp(secs, 0).map(
        |t| t.to_rfc3339_opts(chrono::SecondsFormat::Secs, true),
    )
}

/// The timestamp that names a recording started at `secs` seconds since the
/// Unix epoch; `None` only where the instant lies outside the calendar's
/// range, never from the epoch to the end of the year 9999.
pub fn recording_timestamp(secs: i64) -> (r: Option<String>)
    ensures
        r matches Some(s) ==> s@ == rfc3339_seconds_of(secs as int),
        0 <= secs <= LAST_SECOND_OF_9999 ==> r is Some,
{
    format_utc_seconds(secs)
}

/// `part` appended to the path `base` as one more component.
pub open spec fn join_path(base: Seq<char>, part: Seq<char>) -> Seq<char> {
    if base.len() == 0 || base.last() == '/' {
        base + part
    } else {
        base + "/"@ + part
    }
}

/// Where a recording of `channel` started at `stamp` is written:
/// `root/channel/stamp.mp4`.
pub open spec fn recording_path(root: Seq<char>, channel: Seq<char>, stamp: Seq<char>) -> Seq<
    char,
> {
    join_path(join_path(root, channel), stamp) + ".mp4"@
}

fn join_component(base: String, part: &str) -> (r: String)
    ensures
        r@ == join_path(base@, part@),
{
    let n = base.as_str().unicode_len();
    if n == 0 || base.as_str().get_char(n - 1) == '/' {
        base.concat(part)
    } else {
        base.concat("/").concat(part)
    }
}

/// The output path of a recording of `channel` whose start is written as
/// `stamp`, under the output directory `root`.
pub fn output_path(root: &str, channel: &str, stamp: &str) -> (r: String)
    ensures
        r@ == recording_path(root@, channel@, stamp@),
{
    let dir = join_component(String::from_str(root), channel);
    join_component(dir, stamp).concat(".mp4")
}

/// The program that records a stream.
pub open spec fn recorder_program_spec() -> Seq<char> {
    "streamlink"@
}

/// The recorder's arguments: an authorization header made from the recorder
/// credential, live restart on playlist gaps, a fixed playlist reload time, a
/// bounded codec list, a bounded number of stream retries, the channel, the
/// quality, and the output path.
pub open spec fn recorder_args_spec(credential: Seq<char>, channel: Seq<char>, path: Seq<char>) -> Seq<
    Seq<char>,
> {
    seq![
        "--http-header"@,
        "Authorization=OAuth "@ + credential,
        "--hls-live-restart"@,
        "--hls-playlist-reload-time"@,
        "3"@,
        "--twitch-supported-codecs"@,
        "h264,h265,av1"@,
        "--retry-streams"@,
        "5"@,
        "twitch.tv/"@ + channel,
        "best"@,
        "-o"@,
        path,
    ]
}

/// The program to launch for a recording.
pub fn recorder_program() -> (r: String)
    ensures
        r@ == recorder_program_spec(),
{
    String::from_str("streamlink")
}

/// The command line of the recorder for `channel`, written to `path`.
pub fn recorder_args(credential: &str, channel: &str, path: &str) -> (r: Vec<String>)
    ensures
        r@.map_values(|s: String| s@) == recorder_args_spec(credential@, channel@, path@),
{
    let mut r: Vec<String> = Vec::new();
    r.push(String::from_str("--http-header"));
    r.push(String::from_str("Authorization=OAuth ").concat(credential));
    r.push(String::from_str("--hls-live-restart"));
    r.push(String::from_str("--hls-playlist-reload-time"));
    r.push(String::from_str("3"));
    r.push(String::from_str("--twitch-supported-codecs"));
    r.push(String::from_str("h264,h265,av1"));
    r.push(String::from_str("--retry-streams"));
    r.push(String::from_str("5"));
    r.push(String::from_str("twitch.tv/").concat(channel));
    r.push(String::from_str("best"));
    r.push(String::from_str("-o"));
    r.push(String::from_str(path));
    assert(r@.map_values(|s: String| s@) =~= recorder_args_spec(credential@, channel@, path@));
    r
}

} // verus!
