use vstd::prelude::*;

use crate::data::{Error, ValidationResponse};

verus! {

/// The longest wait between two validations, in seconds; also the wait when
/// no expiry is known.
pub const MAX_CHECK_INTERVAL_SECS: u64 = 3600;

/// Wait between two polls of the device authorization, in seconds.
pub const DEVICE_POLL_INTERVAL_SECS: u64 = 5;

/// Seconds to wait before the next validation, given the expiry that the last
/// one reported, if any: one second past the expiry, at most an hour.
pub open spec fn check_delay(expiry: Option<u64>) -> int {
    match expiry {
        Some(e) => if e + 1 < MAX_CHECK_INTERVAL_SECS {
            e + 1
        } else {
            MAX_CHECK_INTERVAL_SECS as int
        },
        None => MAX_CHECK_INTERVAL_SECS as int,
    }
}

/// The expiry reported by a validation result, if it succeeded.
pub open spec fn reported_expiry(prev: Option<ValidationResponse>) -> Option<u64> {
    match prev {
        Some(v) => Some(v.expires_in),
        None => None,
    }
}

/// Seconds to sleep before the next validation.
pub fn next_check_delay(prev: &Option<ValidationResponse>) -> (r: u64)
    ensures
        r == check_delay(reported_expiry(*prev)),
        r > 0,
{
    match prev {
        Some(v) => if v.expires_in < MAX_CHECK_INTERVAL_SECS - 1 {
            v.expires_in + 1
        } else {
            MAX_CHECK_INTERVAL_SECS
        },
        None => MAX_CHECK_INTERVAL_SECS,
    }
}

/// One step of the background credential validator.
#[derive(Debug, Clone, Copy, PartialEq, Eq, Structural)]
pub enum ValidatorAction {
    /// Exchange the refresh token for a new credential and persist it.
    Refresh,
    /// Sleep this many seconds.
    Sleep { secs: u64 },
    /// Validate the current credential.
    Validate,
}

/// What the validator does after a validation: a rejected access token is
/// refreshed once, then the validator sleeps and validates again; the wait
/// follows the reported expiry, or is the longest one when none was reported.
pub open spec fn validation_followup_spec(outcome: Result<ValidationResponse, Error>) -> Seq<
    ValidatorAction,
> {
    match outcome {
        Ok(v) => seq![
            ValidatorAction::Sleep { secs: check_delay(Some(v.expires_in)) as u64 },
            ValidatorAction::Validate,
        ],
        Err(Error::UnAuthorised) => seq![
            ValidatorAction::Refresh,
            ValidatorAction::Sleep { secs: MAX_CHECK_INTERVAL_SECS },
            ValidatorAction::Validate,
        ],
        Err(_) => seq![
            ValidatorAction::Sleep { secs: MAX_CHECK_INTERVAL_SECS },
            ValidatorAction::Validate,
        ],
    }
}

/// The validation result that schedules the next wait.
pub open spec fn remembered(outcome: Result<ValidationResponse, Error>) -> Option<
    ValidationResponse,
> {
    match outcome {
        Ok(v) => Some(v),
        Err(_) => None,
    }
}

/// The steps that follow a validation, up to and including the next one.
pub fn validation_followup(outcome: &Result<ValidationResponse, Error>) -> (r: Vec<
    ValidatorAction,
>)
    ensures
        r@ == validation_followup_spec(*outcome),
{
    let mut r: Vec<ValidatorAction> = Vec::new();
    if let Err(Error::UnAuthorised) = outcome {
        r.push(ValidatorAction::Refresh);
    }
    let secs = match outcome {
        Ok(v) => if v.expires_in < MAX_CHECK_INTERVAL_SECS - 1 {
            v.expires_in + 1
        } else {
            MAX_CHECK_INTERVAL_SECS
        },
        Err(_) => MAX_CHECK_INTERVAL_SECS,
    };
    r.push(ValidatorAction::Sleep { secs });
    r.push(ValidatorAction::Validate);
    assert(r@ =~= validation_followup_spec(*outcome));
    r
}

/// How many refreshes a sequence of validator steps holds.
pub open spec fn refresh_count(steps: Seq<ValidatorAction>) -> nat
    decreases steps.len(),
{
    if steps.len() == 0 {
        0
    } else {
        refresh_count(steps.drop_last()) + if steps.last() == ValidatorAction::Refresh {
            1nat
        } else {
            0nat
        }
    }
}

/// After any validation the validator sleeps a strictly positive time, which
/// is `min(expiry + 1, 3600)` seconds after a success and 3600 otherwise,
/// and then validates again; before that next validation it refreshes the
/// credential exactly once if the access token was rejected, and never
/// otherwise.
pub proof fn lemma_validator_schedule(outcome: Result<ValidationResponse, Error>)
    ensures
        validation_followup_spec(outcome).last() == ValidatorAction::Validate,
        validation_followup_spec(outcome)[validation_followup_spec(outcome).len() - 2]
            == (ValidatorAction::Sleep {
            secs: check_delay(reported_expiry(remembered(outcome))) as u64,
        }),
        check_delay(reported_expiry(remembered(outcome))) > 0,
        refresh_count(validation_followup_spec(outcome)) == if outcome == Err::<
            ValidationResponse,
            Error,
        >(Error::UnAuthorised) {
            1nat
        } else {
            0nat
        },
{
    let steps = validation_followup_spec(outcome);
    reveal_with_fuel(refresh_count, 4);
    if steps.len() == 3 {
        assert(steps.drop_last().drop_last().drop_last() =~= Seq::<ValidatorAction>::empty());
    } else {
        assert(steps.drop_last().drop_last() =~= Seq::<ValidatorAction>::empty());
    }
}

/// What to do after one poll of the device authorization.
#[derive(Debug, Clone, Copy, PartialEq, Eq, Structural)]
pub enum DevicePoll {
    /// The code is not confirmed yet: poll again after the given seconds.
    Wait { secs: u64 },
    /// The answer holds the new credential.
    Confirmed,
}

/// The decision after a poll, from the HTTP status of the answer, or `None`
/// where the request itself failed: a failed request and a "bad request"
/// answer mean that the code is not confirmed yet.
pub fn device_poll_step(status: Option<u16>) -> (r: DevicePoll)
    ensures
        r == match status {
            Some(s) => if s == crate::api::STATUS_BAD_REQUEST {
                DevicePoll::Wait { secs: DEVICE_POLL_INTERVAL_SECS }
            } else {
                DevicePoll::Confirmed
            },
            None => DevicePoll::Wait { secs: DEVICE_POLL_INTERVAL_SECS },
        },
{
    match status {
        Some(s) => if s == crate::api::STATUS_BAD_REQUEST {
            DevicePoll::Wait { secs: DEVICE_POLL_INTERVAL_SECS }
        } else {
            DevicePoll::Confirmed
        },
        None => DevicePoll::Wait { secs: DEVICE_POLL_INTERVAL_SECS },
    }
}

/// Whether a failed remote call is tried again, after `failures` failed
/// attempts, when up to `retries` retries are allowed: at most `retries + 1`
/// attempts are made in all.
pub fn retry_again(failures: u32, retries: u32) -> (r: bool)
    ensures
        r == (failures <= retries),
{
    failures <= retries
}

} // verus!
