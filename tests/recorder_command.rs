use stream_watcher::recorder::{recorder_args, recorder_program, recording_timestamp};

#[test]
fn recorder_command_line() {
    assert_eq!(recorder_program(), "streamlink");
    let args = recorder_args("tok", "foo", "/rec/foo/x.mp4");
    assert_eq!(args.len(), 13);
    assert_eq!(args[1], "Authorization=OAuth tok");
    assert_eq!(args[9], "twitch.tv/foo");
    assert_eq!(args[12], "/rec/foo/x.mp4");
}

#[test]
fn timestamps_are_utc_seconds() {
    assert_eq!(recording_timestamp(0).unwrap(), "1970-01-01T00:00:00Z");
    assert_eq!(recording_timestamp(1704067261).unwrap(), "2024-01-01T00:01:01Z");
    assert_eq!(recording_timestamp(253_402_300_799).unwrap(), "9999-12-31T23:59:59Z");
    assert!(recording_timestamp(i64::MAX).is_none());
}
