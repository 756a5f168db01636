use crate::config::{calculate_retry_delay, retry_delay, SseConfig};
use crate::error::Error;
use vstd::prelude::*;

verus! {

/// Where a transport stands in its lifecycle.
#[derive(Debug, Clone, Copy, PartialEq, Eq, Structural)]
pub enum ConnectionState {
    Disconnected,
    Connecting,
    Connected,
    Closing,
    Closed,
}

/// The kinds of transport a client may use.
#[derive(Debug, Clone, Copy, PartialEq, Eq, Structural)]
pub enum TransportType {
    Http,
    Sse,
    WebSocket,
    Stdio,
}

/// The absolute URL that `input` denotes relative to the absolute URL `base`,
/// in its serialized form; `None` where either does not parse.
pub uninterp spec fn url_join_of(base: Seq<char>, input: Seq<char>) -> Option<Seq<char>>;

/// Relies on url::Url::parse (the base must be an absolute URL) and
/// url::Url::join (resolves a path or URL against it), serialized by
/// url::Url's `to_string`.
#[verifier::external_body]
fn join_url(base: &str, input: &str) -> (r: Option<String>)
    ensures
        match r {
            Some(s) => url_join_of(base@, input@) == Some(s@),
            None => url_join_of(base@, input@) is None,
        },
{
    match url::Url::parse(base) {
        Ok(b) => b.join(input).ok().map(|u| u.to_string()),
        Err(_) => None,
    }
}

/// How one connection attempt of the reconnect driver ended.
#[derive(Debug, Clone, Copy, PartialEq, Eq, Structural)]
pub enum AttemptOutcome {
    /// The stream opened, the endpoint was discovered, and the stream later ended.
    Ended,
    /// The attempt failed before a session was established.
    Failed,
}

/// What the reconnect driver does next.
#[derive(Debug, Clone, Copy, PartialEq, Eq, Structural)]
pub enum DriverStep {
    /// Open the stream again at once.
    Attempt,
    /// Wait this many milliseconds, then attempt again.
    Sleep(u64),
    /// Stop for good; the transport is closed.
    Stop,
}

/// The state of an SSE transport that its operations and its background
/// reconnect driver read and change: the connection state, the discovered
/// POST endpoint, and the count of failed attempts since the last session.
pub struct SseTransport {
    url: String,
    config: SseConfig,
    state: ConnectionState,
    post_endpoint: Option<String>,
    retry_count: usize,
}

impl SseTransport {
    pub closed spec fn url_spec(&self) -> String {
        self.url
    }

    pub closed spec fn config_spec(&self) -> SseConfig {
        self.config
    }

    pub closed spec fn state_spec(&self) -> ConnectionState {
        self.state
    }

    pub closed spec fn endpoint_spec(&self) -> Option<Seq<char>> {
        match self.post_endpoint {
            Some(e) => Some(e@),
            None => None,
        }
    }

    pub closed spec fn retries_spec(&self) -> nat {
        self.retry_count as nat
    }

    pub fn new(url: String) -> (r: Self)
        ensures
            r.url_spec() == url,
            r.config_spec().initial_retry_interval == 1000,
            r.config_spec().max_retry_interval == 30000,
            r.config_spec().connection_timeout == 10000,
            r.config_spec().exponential_backoff,
            r.config_spec().max_retries is None,
            r.config_spec().shutdown_timeout == 5000,
            r.state_spec() == ConnectionState::Disconnected,
            r.endpoint_spec() is None,
            r.retries_spec() == 0,
    {
        Self::with_config(url, SseConfig::default())
    }

    pub fn with_config(url: String, config: SseConfig) -> (r: Self)
        ensures
            r.url_spec() == url,
            r.config_spec() == config,
            r.state_spec() == ConnectionState::Disconnected,
            r.endpoint_spec() is None,
            r.retries_spec() == 0,
    {
        SseTransport { url, config, state: ConnectionState::Disconnected, post_endpoint: None, retry_count: 0 }
    }

    pub fn url(&self) -> (r: &String)
        ensures
            *r == self.url_spec(),
    {
        &self.url
    }

    pub fn config(&self) -> (r: &SseConfig)
        ensures
            *r == self.config_spec(),
    {
        &self.config
    }

    pub fn get_state(&self) -> (r: ConnectionState)
        ensures
            r == self.state_spec(),
    {
        self.state
    }

    pub fn retry_count(&self) -> (r: usize)
        ensures
            r == self.retries_spec(),
    {
        self.retry_count
    }

    /// The discovered POST endpoint; an error while none is known.
    pub fn get_post_endpoint(&self) -> (r: Result<String, Error>)
        ensures
            match r {
                Ok(e) => self.endpoint_spec() == Some(e@),
                Err(e) => self.endpoint_spec() is None && e is System,
            },
    {
        match &self.post_endpoint {
            Some(e) => Ok(e.clone()),
            None => Err(Error::System("POST endpoint not discovered yet".to_owned())),
        }
    }

    /// Starts connecting: allowed only from `Disconnected` or `Closed`, and then
    /// the state becomes `Connecting` and the endpoint of any earlier
    /// connection is forgotten. Otherwise nothing changes.
    pub fn begin_connect(&mut self) -> (r: Result<(), Error>)
        ensures
            final(self).url_spec() == old(self).url_spec(),
            final(self).config_spec() == old(self).config_spec(),
            final(self).retries_spec() == old(self).retries_spec(),
            (old(self).state_spec() == ConnectionState::Disconnected || old(self).state_spec()
                == ConnectionState::Closed) ==> r is Ok && final(self).state_spec()
                == ConnectionState::Connecting && final(self).endpoint_spec() is None,
            !(old(self).state_spec() == ConnectionState::Disconnected || old(self).state_spec()
                == ConnectionState::Closed) ==> (r matches Err(e) && e is System)
                && final(self).state_spec() == old(self).state_spec() && final(self).endpoint_spec()
                == old(self).endpoint_spec(),
    {
        match self.state {
            ConnectionState::Disconnected | ConnectionState::Closed => {
                self.state = ConnectionState::Connecting;
                self.post_endpoint = None;
                Ok(())
            },
            _ => Err(Error::System("transport cannot start in its current state".to_owned())),
        }
    }

    /// Handles the `endpoint` event: its data, resolved against the stream's
    /// URL, becomes the POST endpoint.
    pub fn endpoint_event(&mut self, data: &str) -> (r: Result<String, Error>)
        ensures
            final(self).url_spec() == old(self).url_spec(),
            final(self).config_spec() == old(self).config_spec(),
            final(self).state_spec() == old(self).state_spec(),
            final(self).retries_spec() == old(self).retries_spec(),
            match url_join_of(old(self).url_spec()@, data@) {
                Some(u) => (r matches Ok(e) && e@ == u) && final(self).endpoint_spec() == Some(u),
                None => (r matches Err(e) && e is System) && final(self).endpoint_spec()
                    == old(self).endpoint_spec(),
            },
    {
        let joined = join_url(self.url.as_str(), data);
        self.record_endpoint(joined)
    }

    /// Takes the resolved endpoint URL, or `None` where it did not resolve:
    /// the URL becomes the POST endpoint and is returned; otherwise an error,
    /// and the endpoint stays as it was.
    pub fn record_endpoint(&mut self, joined: Option<String>) -> (r: Result<String, Error>)
        ensures
            final(self).url_spec() == old(self).url_spec(),
            final(self).config_spec() == old(self).config_spec(),
            final(self).state_spec() == old(self).state_spec(),
            final(self).retries_spec() == old(self).retries_spec(),
            match joined {
                Some(u) => r == Ok::<String, Error>(u) && final(self).endpoint_spec() == Some(u@),
                None => (r matches Err(e) && e is System) && final(self).endpoint_spec()
                    == old(self).endpoint_spec(),
            },
    {
        match joined {
            Some(u) => {
                self.post_endpoint = Some(u.clone());
                Ok(u)
            },
            None => Err(Error::System("cannot resolve the endpoint URL".to_owned())),
        }
    }

    /// Ends the wait of `connect`: with the endpoint discovered in time the
    /// transport is `Connected`; otherwise the attempt is rolled back to
    /// `Disconnected` and reported as a timeout.
    pub fn finish_connect(&mut self, endpoint_ready: bool) -> (r: Result<(), Error>)
        requires
            old(self).state_spec() == ConnectionState::Connecting,
        ensures
            final(self).url_spec() == old(self).url_spec(),
            final(self).config_spec() == old(self).config_spec(),
            final(self).endpoint_spec() == old(self).endpoint_spec(),
            final(self).retries_spec() == old(self).retries_spec(),
            endpoint_ready && old(self).endpoint_spec() is Some ==> r is Ok && final(self).state_spec()
                == ConnectionState::Connected,
            !(endpoint_ready && old(self).endpoint_spec() is Some) ==> (r matches Err(e) && e is Timeout)
                && final(self).state_spec() == ConnectionState::Disconnected,
    {
        if endpoint_ready && self.post_endpoint.is_some() {
            self.state = ConnectionState::Connected;
            Ok(())
        } else {
            self.state = ConnectionState::Disconnected;
            Err(Error::Timeout("timeout waiting for POST endpoint discovery".to_owned()))
        }
    }

    /// Starts a shutdown: `false`, and no change, when already `Closing` or
    /// `Closed`; otherwise the state becomes `Closing`.
    pub fn begin_disconnect(&mut self) -> (r: bool)
        ensures
            final(self).url_spec() == old(self).url_spec(),
            final(self).config_spec() == old(self).config_spec(),
            final(self).endpoint_spec() == old(self).endpoint_spec(),
            final(self).retries_spec() == old(self).retries_spec(),
            r == !(old(self).state_spec() == ConnectionState::Closing || old(self).state_spec()
                == ConnectionState::Closed),
            r ==> final(self).state_spec() == ConnectionState::Closing,
            !r ==> final(self).state_spec() == old(self).state_spec(),
    {
        match self.state {
            ConnectionState::Closing | ConnectionState::Closed => false,
            _ => {
                self.state = ConnectionState::Closing;
                true
            },
        }
    }

    /// Ends a shutdown, or the reconnect driver's run: the transport is `Closed`.
    pub fn mark_closed(&mut self)
        ensures
            final(self).url_spec() == old(self).url_spec(),
            final(self).config_spec() == old(self).config_spec(),
            final(self).endpoint_spec() == old(self).endpoint_spec(),
            final(self).retries_spec() == old(self).retries_spec(),
            final(self).state_spec() == ConnectionState::Closed,
    {
        self.state = ConnectionState::Closed;
    }

    /// Where a notification is posted: only a `Connected` transport with a
    /// discovered endpoint sends one.
    pub fn notification_target(&self) -> (r: Result<String, Error>)
        ensures
            self.state_spec() != ConnectionState::Connected ==> (r matches Err(e) && e is System),
            self.state_spec() == ConnectionState::Connected ==> match self.endpoint_spec() {
                Some(u) => (r matches Ok(e) && e@ == u),
                None => (r matches Err(e) && e is System),
            },
    {
        match self.state {
            ConnectionState::Connected => self.get_post_endpoint(),
            _ => Err(Error::System("cannot send a notification: transport is not connected".to_owned())),
        }
    }

    /// Where a request is posted: a transport that is disconnected, closing
    /// or closed fails fast with a state error; otherwise the discovered
    /// endpoint, which must be known.
    pub fn request_target(&self) -> (r: Result<String, Error>)
        ensures
            (self.state_spec() == ConnectionState::Disconnected || self.state_spec()
                == ConnectionState::Closing || self.state_spec() == ConnectionState::Closed) ==> (r matches Err(
                e,
            ) && e is System),
            (self.state_spec() == ConnectionState::Connecting || self.state_spec()
                == ConnectionState::Connected) ==> match self.endpoint_spec() {
                Some(u) => (r matches Ok(e) && e@ == u),
                None => (r matches Err(e) && e is System),
            },
    {
        match self.state {
            ConnectionState::Connecting | ConnectionState::Connected => self.get_post_endpoint(),
            _ => Err(Error::System("cannot send a request: transport is not connected".to_owned())),
        }
    }

    /// Whether the driver opens another attempt: not once cancelled, nor once
    /// the failed attempts have reached the configured ceiling.
    pub fn next_attempt(&self, cancelled: bool) -> (r: DriverStep)
        ensures
            r == (if cancelled || (self.config_spec().max_retries matches Some(m) && self.retries_spec() >= m) {
                DriverStep::Stop
            } else {
                DriverStep::Attempt
            }),
    {
        if cancelled {
            return DriverStep::Stop;
        }
        match self.config.max_retries {
            Some(m) => {
                if self.retry_count >= m {
                    DriverStep::Stop
                } else {
                    DriverStep::Attempt
                }
            },
            None => DriverStep::Attempt,
        }
    }

    /// A new attempt opens the stream: the endpoint of the previous
    /// connection no longer holds.
    pub fn attempt_started(&mut self)
        ensures
            final(self).url_spec() == old(self).url_spec(),
            final(self).config_spec() == old(self).config_spec(),
            final(self).state_spec() == old(self).state_spec(),
            final(self).retries_spec() == old(self).retries_spec(),
            final(self).endpoint_spec() is None,
    {
        self.post_endpoint = None;
    }

    /// Records how an attempt ended and says what follows. Once cancelled the
    /// driver stops. A session that ended after it was established resets the
    /// count and retries at once; a failed attempt adds one to the count, and
    /// then stops where the count has reached the configured ceiling, else
    /// waits the backoff delay for the new count.
    pub fn attempt_ended(&mut self, outcome: AttemptOutcome, cancelled: bool) -> (r: DriverStep)
        ensures
            final(self).url_spec() == old(self).url_spec(),
            final(self).config_spec() == old(self).config_spec(),
            final(self).state_spec() == old(self).state_spec(),
            final(self).endpoint_spec() == old(self).endpoint_spec(),
            cancelled ==> r == DriverStep::Stop && final(self).retries_spec() == old(self).retries_spec(),
            !cancelled && outcome == AttemptOutcome::Ended ==> r == DriverStep::Attempt
                && final(self).retries_spec() == 0,
            !cancelled && outcome == AttemptOutcome::Failed ==> {
                let n = if old(self).retries_spec() < usize::MAX {
                    old(self).retries_spec() + 1
                } else {
                    old(self).retries_spec()
                };
                &&& final(self).retries_spec() == n
                &&& (old(self).config_spec().max_retries matches Some(m) && n >= m) ==> r
                    == DriverStep::Stop
                &&& !(old(self).config_spec().max_retries matches Some(m) && n >= m) ==> (r matches DriverStep::Sleep(
                    d,
                ) && d == retry_delay(old(self).config_spec(), n))
            },
    {
        if cancelled {
            return DriverStep::Stop;
        }
        match outcome {
            AttemptOutcome::Ended => {
                self.retry_count = 0;
                DriverStep::Attempt
            },
            AttemptOutcome::Failed => {
                if self.retry_count < usize::MAX {
                    self.retry_count = self.retry_count + 1;
                }
                match self.config.max_retries {
                    Some(m) => {
                        if self.retry_count >= m {
                            return DriverStep::Stop;
                        }
                    },
                    None => {},
                }
                DriverStep::Sleep(calculate_retry_delay(&self.config, self.retry_count))
            },
        }
    }
}

} // verus!
