use stream_watcher::data::{Error, ValidationResponse};
use stream_watcher::token::{
    device_poll_step, next_check_delay, retry_again, validation_followup, DevicePoll,
    ValidatorAction,
};

fn valid(expires_in: u64) -> ValidationResponse {
    ValidationResponse {
        client_id: "c".to_string(),
        login: "l".to_string(),
        user_id: "u".to_string(),
        scopes: Vec::new(),
        expires_in,
    }
}

#[test]
fn check_delay_follows_expiry_with_ceiling() {
    assert_eq!(next_check_delay(&None), 3600);
    assert_eq!(next_check_delay(&Some(valid(0))), 1);
    assert_eq!(next_check_delay(&Some(valid(100))), 101);
    assert_eq!(next_check_delay(&Some(valid(3599))), 3600);
    assert_eq!(next_check_delay(&Some(valid(3600))), 3600);
    assert_eq!(next_check_delay(&Some(valid(u64::MAX))), 3600);
}

#[test]
fn unauthorized_validation_refreshes_once() {
    let steps = validation_followup(&Err(Error::UnAuthorised));
    assert_eq!(
        steps,
        vec![ValidatorAction::Refresh, ValidatorAction::Sleep { secs: 3600 }, ValidatorAction::Validate]
    );
}

#[test]
fn successful_validation_sleeps_past_expiry() {
    let steps = validation_followup(&Ok(valid(41)));
    assert_eq!(steps, vec![ValidatorAction::Sleep { secs: 42 }, ValidatorAction::Validate]);
    let steps = validation_followup(&Err(Error::MissingUser));
    assert_eq!(steps, vec![ValidatorAction::Sleep { secs: 3600 }, ValidatorAction::Validate]);
}

#[test]
fn device_poll_waits_until_confirmed() {
    assert_eq!(device_poll_step(None), DevicePoll::Wait { secs: 5 });
    assert_eq!(device_poll_step(Some(400)), DevicePoll::Wait { secs: 5 });
    assert_eq!(device_poll_step(Some(200)), DevicePoll::Confirmed);
}

#[test]
fn retries_are_bounded() {
    assert!(retry_again(1, 2));
    assert!(retry_again(2, 2));
    assert!(!retry_again(3, 2));
    assert!(!retry_again(1, 0));
}
