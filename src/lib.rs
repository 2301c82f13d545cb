//! Watches a fixed set of broadcasters over a push-notification session and
//! decides, one event at a time, which subscriptions to issue, which recorder
//! processes to launch and when to retire a replaced connection.
#![allow(non_snake_case)]

pub mod api;
pub mod data;
pub mod dispatch;
pub mod recorder;
pub mod socket;
pub mod token;
