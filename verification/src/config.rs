//! The options that a client is made with.

use std::time::Duration;
use vstd::prelude::*;

verus! {

/// The span of `secs` whole seconds.
pub uninterp spec fn whole_seconds(secs: u64) -> Duration;

/// `Duration::from_secs` makes the span of that many whole seconds.
pub assume_specification[ Duration::from_secs ](secs: u64) -> (r: Duration)
    ensures
        r == whole_seconds(secs),
;

/// The message of the error for a missing API key.
pub const API_KEY_REQUIRED: &'static str = "API key is required";

/// The message of the error for a missing API key.
pub open spec fn api_key_required() -> Seq<char> {
    API_KEY_REQUIRED@
}

/// What a set of options is, with every text as a sequence of characters.
pub struct OptionsView {
    pub api_key: Seq<char>,
    pub api_base_url: Seq<char>,
    pub ws_url: Seq<char>,
    pub debug: bool,
    pub enable_offline_queue: bool,
    pub max_offline_queue_size: usize,
    pub auto_reconnect: bool,
    pub max_reconnect_attempts: u32,
    pub reconnect_delay: Duration,
    pub http_timeout: Duration,
}

/// The options of a client for which nothing was chosen: no API key, the
/// public endpoints, a backlog of up to 100 payloads, up to 5 reconnection
/// attempts one second apart, and 30 seconds for each request.
pub open spec fn default_options() -> OptionsView {
    OptionsView {
        api_key: Seq::empty(),
        api_base_url: "https://api.ironnotify.com"@,
        ws_url: "wss://ws.ironnotify.com"@,
        debug: false,
        enable_offline_queue: true,
        max_offline_queue_size: 100,
        auto_reconnect: true,
        max_reconnect_attempts: 5,
        reconnect_delay: whole_seconds(1),
        http_timeout: whole_seconds(30),
    }
}

/// The options of a client.
#[derive(Debug)]
pub struct NotifyOptions {
    /// The key that authenticates the client. It must not be empty.
    pub api_key: String,
    /// The address under which the service takes requests.
    pub api_base_url: String,
    /// The address under which the service offers real-time notifications.
    pub ws_url: String,
    /// Whether the client reports what it does.
    pub debug: bool,
    /// Whether payloads that could not be delivered are kept for later.
    pub enable_offline_queue: bool,
    /// The number of payloads that are kept at most.
    pub max_offline_queue_size: usize,
    /// Whether a lost real-time connection is opened again.
    pub auto_reconnect: bool,
    /// How often a lost connection is tried again.
    pub max_reconnect_attempts: u32,
    /// The time between two such attempts.
    pub reconnect_delay: Duration,
    /// The time that a request may take.
    pub http_timeout: Duration,
}

impl View for NotifyOptions {
    type V = OptionsView;

    open spec fn view(&self) -> OptionsView {
        OptionsView {
            api_key: self.api_key@,
            api_base_url: self.api_base_url@,
            ws_url: self.ws_url@,
            debug: self.debug,
            enable_offline_queue: self.enable_offline_queue,
            max_offline_queue_size: self.max_offline_queue_size,
            auto_reconnect: self.auto_reconnect,
            max_reconnect_attempts: self.max_reconnect_attempts,
            reconnect_delay: self.reconnect_delay,
            http_timeout: self.http_timeout,
        }
    }
}

impl Clone for NotifyOptions {
    fn clone(&self) -> (r: NotifyOptions)
        ensures
            r@ == self@,
    {
        NotifyOptions {
            api_key: self.api_key.clone(),
            api_base_url: self.api_base_url.clone(),
            ws_url: self.ws_url.clone(),
            debug: self.debug,
            enable_offline_queue: self.enable_offline_queue,
            max_offline_queue_size: self.max_offline_queue_size,
            auto_reconnect: self.auto_reconnect,
            max_reconnect_attempts: self.max_reconnect_attempts,
            reconnect_delay: self.reconnect_delay,
            http_timeout: self.http_timeout,
        }
    }
}

impl Default for NotifyOptions {
    fn default() -> (r: NotifyOptions)
        ensures
            r@ == default_options(),
    {
        NotifyOptions {
            api_key: String::new(),
            api_base_url: "https://api.ironnotify.com".to_owned(),
            ws_url: "wss://ws.ironnotify.com".to_owned(),
            debug: false,
            enable_offline_queue: true,
            max_offline_queue_size: 100,
            auto_reconnect: true,
            max_reconnect_attempts: 5,
            reconnect_delay: Duration::from_secs(1),
            http_timeout: Duration::from_secs(30),
        }
    }
}

impl NotifyOptions {
    /// The default options with `api_key` as the key.
    pub fn new(api_key: &str) -> (r: NotifyOptions)
        ensures
            r@ == (OptionsView { api_key: api_key@, ..default_options() }),
    {
        let mut options = NotifyOptions::default();
        options.api_key = api_key.to_owned();
        options
    }

    /// A builder that starts from the default options.
    pub fn builder() -> (r: NotifyOptionsBuilder)
        ensures
            r@ == default_options(),
    {
        NotifyOptionsBuilder::default()
    }
}

/// Options in the making. Each method sets one of them and leaves the rest.
#[derive(Debug)]
pub struct NotifyOptionsBuilder {
    options: NotifyOptions,
}

impl View for NotifyOptionsBuilder {
    type V = OptionsView;

    closed spec fn view(&self) -> OptionsView {
        self.options@
    }
}

impl Default for NotifyOptionsBuilder {
    fn default() -> (r: NotifyOptionsBuilder)
        ensures
            r@ == default_options(),
    {
        NotifyOptionsBuilder { options: NotifyOptions::default() }
    }
}

impl NotifyOptionsBuilder {
    /// Sets the API key.
    pub fn api_key(self, api_key: &str) -> (r: NotifyOptionsBuilder)
        ensures
            r@ == (OptionsView { api_key: api_key@, ..self@ }),
    {
        let mut builder = self;
        builder.options.api_key = api_key.to_owned();
        builder
    }

    /// Sets the address under which the service takes requests.
    pub fn api_base_url(self, url: &str) -> (r: NotifyOptionsBuilder)
        ensures
            r@ == (OptionsView { api_base_url: url@, ..self@ }),
    {
        let mut builder = self;
        builder.options.api_base_url = url.to_owned();
        builder
    }

    /// Sets the address under which the service offers real-time notifications.
    pub fn ws_url(self, url: &str) -> (r: NotifyOptionsBuilder)
        ensures
            r@ == (OptionsView { ws_url: url@, ..self@ }),
    {
        let mut builder = self;
        builder.options.ws_url = url.to_owned();
        builder
    }

    /// Sets whether the client reports what it does.
    pub fn debug(self, debug: bool) -> (r: NotifyOptionsBuilder)
        ensures
            r@ == (OptionsView { debug, ..self@ }),
    {
        let mut builder = self;
        builder.options.debug = debug;
        builder
    }

    /// Sets whether payloads that could not be delivered are kept.
    pub fn enable_offline_queue(self, enable: bool) -> (r: NotifyOptionsBuilder)
        ensures
            r@ == (OptionsView { enable_offline_queue: enable, ..self@ }),
    {
        let mut builder = self;
        builder.options.enable_offline_queue = enable;
        builder
    }

    /// Sets the number of payloads that are kept at most.
    pub fn max_offline_queue_size(self, size: usize) -> (r: NotifyOptionsBuilder)
        ensures
            r@ == (OptionsView { max_offline_queue_size: size, ..self@ }),
    {
        let mut builder = self;
        builder.options.max_offline_queue_size = size;
        builder
    }

    /// Sets whether a lost real-time connection is opened again.
    pub fn auto_reconnect(self, enable: bool) -> (r: NotifyOptionsBuilder)
        ensures
            r@ == (OptionsView { auto_reconnect: enable, ..self@ }),
    {
        let mut builder = self;
        builder.options.auto_reconnect = enable;
        builder
    }

    /// Sets how often a lost connection is tried again.
    pub fn max_reconnect_attempts(self, attempts: u32) -> (r: NotifyOptionsBuilder)
        ensures
            r@ == (OptionsView { max_reconnect_attempts: attempts, ..self@ }),
    {
        let mut builder = self;
        builder.options.max_reconnect_attempts = attempts;
        builder
    }

    /// Sets the time between two reconnection attempts.
    pub fn reconnect_delay(self, delay: Duration) -> (r: NotifyOptionsBuilder)
        ensures
            r@ == (OptionsView { reconnect_delay: delay, ..self@ }),
    {
        let mut builder = self;
        builder.options.reconnect_delay = delay;
        builder
    }

    /// Sets the time that a request may take.
    pub fn http_timeout(self, timeout: Duration) -> (r: NotifyOptionsBuilder)
        ensures
            r@ == (OptionsView { http_timeout: timeout, ..self@ }),
    {
        let mut builder = self;
        builder.options.http_timeout = timeout;
        builder
    }

    /// The options as chosen, or an error where the API key is empty.
    pub fn build(self) -> (r: Result<NotifyOptions, &'static str>)
        ensures
            r is Ok <==> self@.api_key.len() > 0,
            r matches Ok(options) ==> options@ == self@,
            r matches Err(message) ==> message@ == api_key_required(),
    {
        if self.options.api_key.as_str().is_empty() {
            return Err(API_KEY_REQUIRED);
        }
        Ok(self.options)
    }
}

} // verus!
