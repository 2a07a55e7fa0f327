//! The requests that the client makes of the service and what its replies
//! mean.
//!
//! Nothing here touches the network. A request is described by its address
//! and its authorization; a reply is handed in as plain values by whoever
//! made the request.

use crate::types::{failure_result, success_result, Notification, SendResult};
use vstd::prelude::*;
use vstd::string::StringExecFns;

verus! {

/// The text of one decimal digit.
pub open spec fn digit_text(digit: nat) -> Seq<char> {
    if digit == 0 {
        "0"@
    } else if digit == 1 {
        "1"@
    } else if digit == 2 {
        "2"@
    } else if digit == 3 {
        "3"@
    } else if digit == 4 {
        "4"@
    } else if digit == 5 {
        "5"@
    } else if digit == 6 {
        "6"@
    } else if digit == 7 {
        "7"@
    } else if digit == 8 {
        "8"@
    } else {
        "9"@
    }
}

/// The decimal digits of a natural number, without leading zeros.
pub open spec fn digits(n: nat) -> Seq<char>
    decreases n,
{
    if n < 10 {
        digit_text(n)
    } else {
        digits(n / 10) + digit_text(n % 10)
    }
}

/// An integer in decimal, with a minus sign where it is negative.
pub open spec fn decimal(n: int) -> Seq<char> {
    if n < 0 {
        "-"@ + digits((-n) as nat)
    } else {
        digits(n as nat)
    }
}

/// The reason given for a reply with a status other than success.
pub open spec fn status_reason(status: Seq<char>) -> Seq<char> {
    "HTTP "@ + status
}

/// `parts` in a row, with `separator` between each two of them.
pub open spec fn joined(parts: Seq<Seq<char>>, separator: Seq<char>) -> Seq<char>
    decreases parts.len(),
{
    if parts.len() == 0 {
        Seq::empty()
    } else if parts.len() == 1 {
        parts[0]
    } else {
        joined(parts.drop_last(), separator) + separator + parts.last()
    }
}

/// The parameters of a request for notifications, in the order in which
/// they are written: the limit, the offset, and the mark for unread ones.
pub open spec fn listing_parameters(
    limit: Option<i32>,
    offset: Option<i32>,
    unread_only: bool,
) -> Seq<Seq<char>> {
    let first: Seq<Seq<char>> = match limit {
        Some(l) => seq!["limit="@ + decimal(l as int)],
        None => Seq::empty(),
    };
    let second: Seq<Seq<char>> = match offset {
        Some(o) => first.push("offset="@ + decimal(o as int)),
        None => first,
    };
    if unread_only {
        second.push("unread_only=true"@)
    } else {
        second
    }
}

/// The address of a request for notifications under the service at `base`.
pub open spec fn listing_address(
    base: Seq<char>,
    limit: Option<i32>,
    offset: Option<i32>,
    unread_only: bool,
) -> Seq<char> {
    let parameters = listing_parameters(limit, offset, unread_only);
    if parameters.len() == 0 {
        base + "/api/v1/notifications"@
    } else {
        base + "/api/v1/notifications"@ + "?"@ + joined(parameters, "&"@)
    }
}

/// The text of the digit `digit`.
fn digit_str(digit: u32) -> (r: &'static str)
    requires
        digit < 10,
    ensures
        r@ == digit_text(digit as nat),
{
    if digit == 0 {
        "0"
    } else if digit == 1 {
        "1"
    } else if digit == 2 {
        "2"
    } else if digit == 3 {
        "3"
    } else if digit == 4 {
        "4"
    } else if digit == 5 {
        "5"
    } else if digit == 6 {
        "6"
    } else if digit == 7 {
        "7"
    } else if digit == 8 {
        "8"
    } else {
        "9"
    }
}

/// The decimal digits of `n`.
fn digits_of(n: u32) -> (r: String)
    ensures
        r@ == digits(n as nat),
    decreases n,
{
    if n < 10 {
        digit_str(n).to_owned()
    } else {
        digits_of(n / 10).concat(digit_str(n % 10))
    }
}

/// `n` in decimal, as it is written into an address.
pub fn format_decimal(n: i32) -> (r: String)
    ensures
        r@ == decimal(n as int),
{
    if n < 0 {
        let magnitude: u32 = (-(n as i64)) as u32;
        "-".to_owned().concat(digits_of(magnitude).as_str())
    } else {
        digits_of(n as u32)
    }
}

/// `parts` in a row, with `separator` between each two of them.
pub fn join(parts: &Vec<String>, separator: &str) -> (r: String)
    ensures
        r@ == joined(parts.deep_view(), separator@),
{
    let mut text = String::new();
    let mut i: usize = 0;
    while i < parts.len()
        invariant
            i <= parts@.len(),
            text@ == joined(parts.deep_view().take(i as int), separator@),
        decreases parts@.len() - i,
    {
        let ghost done = parts.deep_view().take(i as int);
        let ghost more = parts.deep_view().take(i + 1);
        assert(more.drop_last() =~= done);
        assert(more.last() == parts@[i as int]@);
        if i > 0 {
            text.append(separator);
        }
        text.append(parts[i].as_str());
        proof {
            if i == 0 {
                assert(text@ =~= parts@[0]@);
            }
        }
        i += 1;
    }
    assert(parts.deep_view().take(parts@.len() as int) =~= parts.deep_view());
    text
}

/// The body of a reply that accepts a payload.
#[derive(Debug)]
pub struct SendResponse {
    /// The identifier that the service gave the notification.
    pub notification_id: Option<String>,
}

/// The body of a reply that refuses a request.
#[derive(Debug)]
pub struct ErrorResponse {
    /// The reason that the service gives.
    pub error: Option<String>,
}

/// The body of a reply that counts notifications.
#[derive(Debug)]
pub struct CountResponse {
    pub count: i32,
}

/// What came back for a request.
#[derive(Debug)]
pub enum Reply<T> {
    /// The service answered with a status of success. The body is given as
    /// it was read, or the reason why it could not be read.
    Accepted(Result<T, String>),
    /// The service answered with another status. `status` is the status as
    /// text; `body` is the body where it could be read as a refusal.
    Refused { status: String, body: Option<ErrorResponse> },
    /// No answer came. The text is the reason.
    Failed(String),
}

/// The reason for which a request was refused: the one that the service
/// gives in the body, and else the status.
pub open spec fn refusal_reason(status: Seq<char>, body: Option<ErrorResponse>) -> Seq<char> {
    match body {
        Some(ErrorResponse { error: Some(reason) }) => reason@,
        _ => status_reason(status),
    }
}

/// What the reply to the delivery of a payload means. An accepting reply is
/// a success, under the identifier in its body if it has one. A refusing
/// reply is a failure for the reason that it gives, and no reply is a
/// failure for the reason that came instead.
pub open spec fn delivery_of(reply: Reply<SendResponse>) -> crate::types::SendResultView {
    match reply {
        Reply::Accepted(Ok(body)) => success_result(body.notification_id.deep_view()),
        Reply::Accepted(Err(_)) => success_result(None),
        Reply::Refused { status, body } => failure_result(refusal_reason(status@, body)),
        Reply::Failed(reason) => failure_result(reason@),
    }
}

/// The text of the error that a reply without a usable body stands for, if
/// it stands for one.
pub open spec fn reply_error<T>(reply: Reply<T>) -> Option<Seq<char>> {
    match reply {
        Reply::Accepted(Ok(_)) => None,
        Reply::Accepted(Err(reason)) => Some(reason@),
        Reply::Refused { status, body } => Some(status_reason(status@)),
        Reply::Failed(reason) => Some(reason@),
    }
}

/// The reason given for a status other than success.
fn status_error(status: &String) -> (r: String)
    ensures
        r@ == status_reason(status@),
{
    "HTTP ".to_owned().concat(status.as_str())
}

/// The body of a reply, or the error that the reply stands for.
fn body_of<T>(reply: Reply<T>) -> (r: Result<T, String>)
    ensures
        match reply_error(reply) {
            Some(reason) => r matches Err(text) && text@ == reason,
            None => r matches Ok(body) && reply == Reply::Accepted(Ok::<T, String>(body)),
        },
{
    match reply {
        Reply::Accepted(body) => body,
        Reply::Refused { status, body } => Err(status_error(&status)),
        Reply::Failed(reason) => Err(reason),
    }
}

/// The part of the client that knows the service's addresses and replies.
#[derive(Debug)]
pub struct Transport {
    base_url: String,
    api_key: String,
    debug: bool,
}

impl Transport {
    /// The address of the service.
    pub closed spec fn base_url(&self) -> Seq<char> {
        self.base_url@
    }

    /// The key that authenticates the client.
    pub closed spec fn api_key(&self) -> Seq<char> {
        self.api_key@
    }

    /// Whether the transport was asked to report what it does.
    pub closed spec fn debug(&self) -> bool {
        self.debug
    }

    /// A transport for the service at `base_url` under the key `api_key`.
    pub fn new(base_url: String, api_key: String, debug: bool) -> (r: Transport)
        ensures
            r.base_url() == base_url@,
            r.api_key() == api_key@,
            r.debug() == debug,
    {
        Transport { base_url, api_key, debug }
    }

    /// Whether the transport was asked to report what it does.
    pub fn is_debug(&self) -> (r: bool)
        ensures
            r == self.debug(),
    {
        self.debug
    }

    /// The address of the service followed by `path`.
    fn address(&self, path: &str) -> (r: String)
        ensures
            r@ == self.base_url() + path@,
    {
        self.base_url.clone().concat(path)
    }

    /// The value of the authorization header of every request.
    pub fn authorization(&self) -> (r: String)
        ensures
            r@ == "Bearer "@ + self.api_key(),
    {
        "Bearer ".to_owned().concat(self.api_key.as_str())
    }

    /// The address to which payloads are posted.
    pub fn send_url(&self) -> (r: String)
        ensures
            r@ == self.base_url() + "/api/v1/notify"@,
    {
        self.address("/api/v1/notify")
    }

    /// The address from which notifications are read: at most `limit` of
    /// them, after the first `offset`, the unread ones only if asked.
    pub fn notifications_url(
        &self,
        limit: Option<i32>,
        offset: Option<i32>,
        unread_only: bool,
    ) -> (r: String)
        ensures
            r@ == listing_address(self.base_url(), limit, offset, unread_only),
    {
        let url = self.address("/api/v1/notifications");
        let mut parameters: Vec<String> = Vec::new();
        assert(parameters.deep_view() =~= Seq::<Seq<char>>::empty());
        if let Some(l) = limit {
            parameters.push("limit=".to_owned().concat(format_decimal(l).as_str()));
            assert(parameters.deep_view() =~= seq!["limit="@ + decimal(l as int)]);
        }
        let ghost first = parameters.deep_view();
        if let Some(o) = offset {
            parameters.push("offset=".to_owned().concat(format_decimal(o).as_str()));
            assert(parameters.deep_view() =~= first.push("offset="@ + decimal(o as int)));
        }
        let ghost second = parameters.deep_view();
        if unread_only {
            parameters.push("unread_only=true".to_owned());
            assert(parameters.deep_view() =~= second.push("unread_only=true"@));
        }
        assert(parameters.deep_view() == listing_parameters(limit, offset, unread_only));
        if parameters.len() == 0 {
            url
        } else {
            url.concat("?").concat(join(&parameters, "&").as_str())
        }
    }

    /// The address from which the number of unread notifications is read.
    pub fn unread_count_url(&self) -> (r: String)
        ensures
            r@ == self.base_url() + "/api/v1/notifications/unread-count"@,
    {
        self.address("/api/v1/notifications/unread-count")
    }

    /// The address at which the notification `notification_id` is marked as
    /// read.
    pub fn mark_as_read_url(&self, notification_id: &str) -> (r: String)
        ensures
            r@ == self.base_url() + "/api/v1/notifications/"@ + notification_id@ + "/read"@,
    {
        self.address("/api/v1/notifications/").concat(notification_id).concat("/read")
    }

    /// The address at which all notifications are marked as read.
    pub fn mark_all_as_read_url(&self) -> (r: String)
        ensures
            r@ == self.base_url() + "/api/v1/notifications/read-all"@,
    {
        self.address("/api/v1/notifications/read-all")
    }

    /// The address at which the service says whether it is up.
    pub fn health_url(&self) -> (r: String)
        ensures
            r@ == self.base_url() + "/health"@,
    {
        self.address("/health")
    }

    /// What the reply to the delivery of a payload means.
    pub fn send(&self, reply: Reply<SendResponse>) -> (r: SendResult)
        ensures
            r@ == delivery_of(reply),
    {
        match reply {
            Reply::Accepted(Ok(body)) => SendResult::success(body.notification_id),
            Reply::Accepted(Err(_)) => SendResult::success(None),
            Reply::Refused { status, body } => match body {
                Some(ErrorResponse { error: Some(reason) }) => SendResult::failure(reason.as_str()),
                _ => SendResult::failure(status_error(&status).as_str()),
            },
            Reply::Failed(reason) => SendResult::failure(reason.as_str()),
        }
    }

    /// The notifications in the reply to a request for them, or the error
    /// that the reply stands for.
    pub fn get_notifications(&self, reply: Reply<Vec<Notification>>) -> (r: Result<
        Vec<Notification>,
        String,
    >)
        ensures
            match reply_error(reply) {
                Some(reason) => r matches Err(text) && text@ == reason,
                None => r matches Ok(list) && reply == Reply::Accepted(
                    Ok::<Vec<Notification>, String>(list),
                ),
            },
    {
        body_of(reply)
    }

    /// The number of unread notifications in the reply to a request for
    /// it, or the error that the reply stands for.
    pub fn get_unread_count(&self, reply: Reply<CountResponse>) -> (r: Result<i32, String>)
        ensures
            match reply_error(reply) {
                Some(reason) => r matches Err(text) && text@ == reason,
                None => r matches Ok(count) && reply matches Reply::Accepted(Ok(body))
                    && body.count == count,
            },
    {
        match body_of(reply) {
            Ok(body) => Ok(body.count),
            Err(reason) => Err(reason),
        }
    }

    /// Whether the service did what a request to mark notifications as read
    /// asked for: it did where it answered with a status of success. No
    /// answer is an error.
    pub fn mark_as_read(&self, reply: Reply<()>) -> (r: Result<bool, String>)
        ensures
            match reply {
                Reply::Accepted(_) => r == Ok::<bool, String>(true),
                Reply::Refused { status, body } => r == Ok::<bool, String>(false),
                Reply::Failed(reason) => r matches Err(text) && text@ == reason@,
            },
    {
        match reply {
            Reply::Accepted(_) => Ok(true),
            Reply::Refused { status, body } => Ok(false),
            Reply::Failed(reason) => Err(reason),
        }
    }

    /// As `mark_as_read`, for the request that marks all notifications.
    pub fn mark_all_as_read(&self, reply: Reply<()>) -> (r: Result<bool, String>)
        ensures
            match reply {
                Reply::Accepted(_) => r == Ok::<bool, String>(true),
                Reply::Refused { status, body } => r == Ok::<bool, String>(false),
                Reply::Failed(reason) => r matches Err(text) && text@ == reason@,
            },
    {
        self.mark_as_read(reply)
    }

    /// Whether the service can be reached: it can where the probe was
    /// answered with a status of success.
    pub fn is_online(&self, reply: Reply<()>) -> (r: bool)
        ensures
            r == (reply is Accepted),
    {
        match reply {
            Reply::Accepted(_) => true,
            _ => false,
        }
    }
}

} // verus!
