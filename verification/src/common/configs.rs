//! Settings shared by the services.
use vstd::prelude::*;

verus! {

/// Where the backend reads its logging configuration.
pub const BACKEND_LOG_CONFIG: &'static str = "backend/configs/log4rs.yaml";

/// How long a login token stays valid, in seconds (thirty days).
pub const EXPIRE_TIME: i64 = 60 * 60 * 24 * 30;

/// How long an account activation token stays valid, in seconds (one day).
pub const ACTIVATED_EMAIL_EXPIRE_TIME: i64 = 60 * 60 * 24 * 1;

/// The prefix of the cache keys that hold a user's information.
pub const USER_PREFIX_KEY: &'static str = "immortal:user";

/// How often heartbeat pings are sent, in seconds.
pub const HEARTBEAT_INTERVAL_SECS: u64 = 5;

/// How long a client may stay silent before it times out, in seconds.
pub const CLIENT_TIMEOUT_SECS: u64 = 10;

/// The channel on which users are told to fetch their messages.
pub const EVENTSOURCE: &'static str = "immortal:user:eventsource";

/// The queue that holds the messages waiting for users.
pub const EVENT_QUEUE: &'static str = "immortal:user:queue";

} // verus!
