//! Client-side delivery logic for a notification service: payloads, a
//! bounded offline backlog, and the rules that decide what happens after
//! each delivery attempt.
//!
//! The library makes no request and touches no file. Whoever uses it makes
//! the requests, reads and writes the stored backlog, and hands the library
//! what came of it.

pub mod builder;
pub mod client;
pub mod clock;
pub mod config;
pub mod metadata;
pub mod queue;
pub mod recovery;
pub mod transport;
pub mod types;

pub use builder::{Dispatch, EventBuilder};
pub use client::{Flush, FlushStage, NotifyClient};
pub use clock::Timestamp;
pub use config::{NotifyOptions, NotifyOptionsBuilder};
pub use metadata::Metadata;
pub use queue::OfflineQueue;
pub use transport::{CountResponse, ErrorResponse, Reply, SendResponse, Transport};
pub use types::{
    ConnectionState, Notification, NotificationAction, NotificationPayload, SendResult,
    SeverityLevel,
};

use crate::builder::fresh_builder;
use crate::client::started;
use crate::config::api_key_required;
use vstd::prelude::*;

verus! {

/// The message of the error for a second initialization.
pub const ALREADY_INITIALIZED: &'static str = "Already initialized";

/// The message of the error for using a place that holds no client.
pub const NOT_INITIALIZED: &'static str = "Not initialized. Call init() first.";

/// The message of the error for a second initialization.
pub open spec fn already_initialized() -> Seq<char> {
    ALREADY_INITIALIZED@
}

/// The message of the error for using a place that holds no client.
pub open spec fn not_initialized() -> Seq<char> {
    NOT_INITIALIZED@
}

/// Puts a client with the default options and the key `api_key` into
/// `slot`, as `init_with_options` does.
pub fn init(
    slot: &mut Option<NotifyClient>,
    api_key: &str,
    stored: Option<Vec<NotificationPayload>>,
) -> (r: Result<(), &'static str>)
    ensures
        r is Ok <==> api_key@.len() > 0 && *old(slot) is None,
        r matches Err(message) ==> *final(slot) == *old(slot) && message@ == (if api_key@.len()
            == 0 {
            api_key_required()
        } else {
            already_initialized()
        }),
        r is Ok ==> (*final(slot) matches Some(client) && client.spec_options() == (
        crate::config::OptionsView { api_key: api_key@, ..crate::config::default_options() })
            && client@ == started(client.spec_options(), stored.deep_view())),
{
    init_with_options(slot, NotifyOptions::new(api_key), stored)
}

/// Puts a client with the given options into `slot`, once. An empty API
/// key is an error, and so is a `slot` that holds a client already; either
/// way `slot` is left as it was.
pub fn init_with_options(
    slot: &mut Option<NotifyClient>,
    options: NotifyOptions,
    stored: Option<Vec<NotificationPayload>>,
) -> (r: Result<(), &'static str>)
    ensures
        r is Ok <==> options@.api_key.len() > 0 && *old(slot) is None,
        r matches Err(message) ==> *final(slot) == *old(slot) && message@ == (
        if options@.api_key.len() == 0 {
            api_key_required()
        } else {
            already_initialized()
        }),
        r is Ok ==> (*final(slot) matches Some(client) && client.spec_options() == options@
            && client@ == started(options@, stored.deep_view())),
{
    let client = match NotifyClient::new(options, stored) {
        Ok(client) => client,
        Err(message) => {
            return Err(message);
        },
    };
    if slot.is_some() {
        return Err(ALREADY_INITIALIZED);
    }
    *slot = Some(client);
    Ok(())
}

/// The client in `slot`, or an error where there is none.
pub fn get_client(slot: &Option<NotifyClient>) -> (r: Result<&NotifyClient, &'static str>)
    ensures
        match *slot {
            Some(client) => r matches Ok(found) && *found == client,
            None => r matches Err(message) && message@ == not_initialized(),
        },
{
    match slot {
        Some(client) => Ok(client),
        None => Err(NOT_INITIALIZED),
    }
}

/// A builder for a notification of the event `event_type`, or an error
/// where `slot` holds no client.
pub fn event(slot: &Option<NotifyClient>, event_type: &str) -> (r: Result<
    EventBuilder,
    &'static str,
>)
    ensures
        match *slot {
            Some(_) => r matches Ok(builder) && builder@ == fresh_builder(event_type@),
            None => r matches Err(message) && message@ == not_initialized(),
        },
{
    match get_client(slot) {
        Ok(client) => Ok(client.event(event_type)),
        Err(message) => Err(message),
    }
}

} // verus!
