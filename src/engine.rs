use vstd::prelude::*;
use crate::config::AgentConfig;
use crate::cookie::{jar_header, CookieJar, CookieView};
use crate::header::{header_text_ok, header_value_accepts};
use crate::uri::RequestUri;

verus! {

/// How a message body is delimited.
#[derive(Debug, Clone, Copy, PartialEq, Eq, Structural)]
pub enum BodyMode {
    NoBody,
    LengthDelimited(u64),
    Chunked,
    CloseDelimited,
}

/// Why a call failed.
#[derive(Debug, Clone, Copy, PartialEq, Eq, Structural)]
pub enum AgentError {
    /// The URI scheme is not https while https-only is set.
    RequireHttpsOnly,
    /// The stored cookies do not make a valid header value.
    CookieValue,
    /// A header value taken from the configuration is malformed.
    ConfigHeaderValue,
    /// The URI lacks a scheme or an authority.
    NotFullUri,
    /// A connection was asked for before an address was resolved.
    NoAddress,
    /// Connection I/O was asked for before a connection was open.
    NoConnection,
    /// The exchange ended without a response head.
    NoResponse,
    /// A redirect beyond the configured number of hops.
    TooManyRedirects,
    /// The final response has a client or server error status.
    StatusCode(u16),
    /// A phase deadline passed.
    Timeout,
    /// The resolver produced no address.
    Resolution,
    /// Establishing or reusing a connection failed.
    Connection,
    /// The peer sent malformed bytes.
    Protocol,
}

/// What the protocol state machine asks the engine to do next.
#[derive(Debug, Clone)]
pub enum Event {
    Reset { must_close: bool },
    Prepare { uri: RequestUri },
    Resolve { uri: RequestUri, timeout_ms: u64 },
    OpenConnection { uri: RequestUri, timeout_ms: u64 },
    Await100 { timeout_ms: u64 },
    Transmit { amount: usize, timeout_ms: u64 },
    AwaitInput { timeout_ms: u64 },
    /// A parsed response head. `end` is false while a redirect is followed.
    Response { status: u16, end: bool, body_mode: Option<BodyMode> },
    ResponseBody,
}

/// What becomes of the connection held when a hop starts.
#[derive(Debug, Clone, Copy, PartialEq, Eq, Structural)]
pub enum Release {
    Nothing,
    Close,
    Reuse,
}

/// A header the engine adds to the outgoing request.
#[derive(Debug, Clone)]
pub enum HeaderSetting {
    Cookie(String),
    AcceptEncoding(String),
    ContentLength(u64),
    ChunkedTransfer,
    UserAgent(String),
}

/// The mathematical value of a [`HeaderSetting`].
pub enum HeaderSpec {
    Cookie(Seq<char>),
    AcceptEncoding(Seq<char>),
    ContentLength(u64),
    ChunkedTransfer,
    UserAgent(Seq<char>),
}

impl View for HeaderSetting {
    type V = HeaderSpec;

    open spec fn view(&self) -> HeaderSpec {
        match self {
            HeaderSetting::Cookie(v) => HeaderSpec::Cookie(v@),
            HeaderSetting::AcceptEncoding(v) => HeaderSpec::AcceptEncoding(v@),
            HeaderSetting::ContentLength(n) => HeaderSpec::ContentLength(*n),
            HeaderSetting::ChunkedTransfer => HeaderSpec::ChunkedTransfer,
            HeaderSetting::UserAgent(v) => HeaderSpec::UserAgent(v@),
        }
    }
}

/// The side effect the engine performs for one event.
#[derive(Debug)]
pub enum Action {
    /// Release the held connection as given, then start the hop.
    Begin { release: Release },
    /// Add these headers, then report the request prepared.
    Prepared { headers: Vec<HeaderSetting> },
    Resolve { uri: RequestUri, timeout_ms: u64 },
    /// Take a connection to the resolved address from the pool, or connect.
    Connect { uri: RequestUri, timeout_ms: u64 },
    Await100 { timeout_ms: u64 },
    Transmit { amount: usize, timeout_ms: u64 },
    AwaitInput { timeout_ms: u64 },
    /// A redirect head arrived: its body drains before the next hop.
    FollowRedirect,
    /// Redirect body bytes are being drained: nothing to do but poll again.
    DrainBody,
    /// The final response head is in: leave the loop.
    Finish,
}

/// The mathematical value of an [`Action`].
pub enum ActionSpec {
    Begin(Release),
    Prepared(Seq<HeaderSpec>),
    Resolve(RequestUri, u64),
    Connect(RequestUri, u64),
    Await100(u64),
    Transmit(usize, u64),
    AwaitInput(u64),
    FollowRedirect,
    DrainBody,
    Finish,
}

impl View for Action {
    type V = ActionSpec;

    open spec fn view(&self) -> ActionSpec {
        match self {
            Action::Begin { release } => ActionSpec::Begin(*release),
            Action::Prepared { headers } => ActionSpec::Prepared(
                headers@.map_values(|h: HeaderSetting| h@),
            ),
            Action::Resolve { uri, timeout_ms } => ActionSpec::Resolve(*uri, *timeout_ms),
            Action::Connect { uri, timeout_ms } => ActionSpec::Connect(*uri, *timeout_ms),
            Action::Await100 { timeout_ms } => ActionSpec::Await100(*timeout_ms),
            Action::Transmit { amount, timeout_ms } => ActionSpec::Transmit(*amount, *timeout_ms),
            Action::AwaitInput { timeout_ms } => ActionSpec::AwaitInput(*timeout_ms),
            Action::FollowRedirect => ActionSpec::FollowRedirect,
            Action::DrainBody => ActionSpec::DrainBody,
            Action::Finish => ActionSpec::Finish,
        }
    }
}

/// What the engine remembers across the events of one call.
#[derive(Debug, Clone, Copy)]
pub struct RunState {
    /// Framing of the outgoing body to announce; none when the request
    /// headers already announce one.
    pub send_body_mode: Option<BodyMode>,
    /// An address has been resolved in the current hop.
    pub has_addr: bool,
    /// A connection is held.
    pub has_connection: bool,
    /// Status of the latest response head.
    pub status: Option<u16>,
    /// Framing of the response body, once known.
    pub recv_body_mode: BodyMode,
    /// Redirect hops followed so far.
    pub redirects: u32,
    /// The final response head has arrived.
    pub finished: bool,
}

/// The state of a call before its first event.
pub open spec fn initial_state(headers_set_mode: bool, body_mode: BodyMode) -> RunState {
    RunState {
        send_body_mode: if headers_set_mode { None } else { Some(body_mode) },
        has_addr: false,
        has_connection: false,
        status: None,
        recv_body_mode: BodyMode::NoBody,
        redirects: 0,
        finished: false,
    }
}

pub open spec fn opt_header(b: bool, h: HeaderSpec) -> Seq<HeaderSpec> {
    if b {
        seq![h]
    } else {
        Seq::empty()
    }
}

pub open spec fn encoding_headers(ae: Option<String>) -> Seq<HeaderSpec> {
    match ae {
        Some(v) => seq![HeaderSpec::AcceptEncoding(v@)],
        None => Seq::empty(),
    }
}

pub open spec fn body_headers(mode: Option<BodyMode>) -> Seq<HeaderSpec> {
    match mode {
        Some(BodyMode::LengthDelimited(n)) => seq![HeaderSpec::ContentLength(n)],
        Some(BodyMode::Chunked) => seq![HeaderSpec::ChunkedTransfer],
        _ => Seq::empty(),
    }
}

/// The headers the engine adds before a request to `uri` goes out, in order:
/// cookie, accept-encoding, body framing, user-agent. Fails on the https-only
/// policy and on header values that cannot be sent.
pub open spec fn prepare_spec(
    cfg: AgentConfig,
    jar: Seq<CookieView>,
    uri: RequestUri,
    send_mode: Option<BodyMode>,
) -> Result<Seq<HeaderSpec>, AgentError> {
    let cookie = jar_header(jar, uri.origin_spec());
    let ua = cfg.user_agent@;
    if cfg.https_only && !uri.is_https_spec() {
        Err(AgentError::RequireHttpsOnly)
    } else if cookie.len() > 0 && !header_text_ok(cookie) {
        Err(AgentError::CookieValue)
    } else if cfg.accept_encoding matches Some(v) && !header_text_ok(v@) {
        Err(AgentError::ConfigHeaderValue)
    } else if ua.len() > 0 && !header_text_ok(ua) {
        Err(AgentError::ConfigHeaderValue)
    } else {
        Ok(opt_header(cookie.len() > 0, HeaderSpec::Cookie(cookie)) + encoding_headers(
            cfg.accept_encoding,
        ) + body_headers(send_mode) + opt_header(ua.len() > 0, HeaderSpec::UserAgent(ua)))
    }
}

/// One transition of the engine: the state after `e` and the side effect to
/// perform, or the error that ends the call.
pub open spec fn next(cfg: AgentConfig, jar: Seq<CookieView>, s: RunState, e: Event) -> Result<
    (RunState, ActionSpec),
    AgentError,
> {
    match e {
        Event::Reset { must_close } => Ok(
            (
                RunState { has_addr: false, has_connection: false, ..s },
                ActionSpec::Begin(
                    if !s.has_connection {
                        Release::Nothing
                    } else if must_close {
                        Release::Close
                    } else {
                        Release::Reuse
                    },
                ),
            ),
        ),
        Event::Prepare { uri } => match prepare_spec(cfg, jar, uri, s.send_body_mode) {
            Ok(h) => Ok((s, ActionSpec::Prepared(h))),
            Err(err) => Err(err),
        },
        Event::Resolve { uri, timeout_ms } => if uri.is_full_spec() {
            Ok((RunState { has_addr: true, ..s }, ActionSpec::Resolve(uri, timeout_ms)))
        } else {
            Err(AgentError::NotFullUri)
        },
        Event::OpenConnection { uri, timeout_ms } => if s.has_addr {
            Ok((RunState { has_connection: true, ..s }, ActionSpec::Connect(uri, timeout_ms)))
        } else {
            Err(AgentError::NoAddress)
        },
        Event::Await100 { timeout_ms } => if s.has_connection {
            Ok((s, ActionSpec::Await100(timeout_ms)))
        } else {
            Err(AgentError::NoConnection)
        },
        Event::Transmit { amount, timeout_ms } => if s.has_connection {
            Ok((s, ActionSpec::Transmit(amount, timeout_ms)))
        } else {
            Err(AgentError::NoConnection)
        },
        Event::AwaitInput { timeout_ms } => if s.has_connection {
            Ok((s, ActionSpec::AwaitInput(timeout_ms)))
        } else {
            Err(AgentError::NoConnection)
        },
        Event::Response { status, end, body_mode } => {
            let mode = match body_mode {
                Some(m) => m,
                None => s.recv_body_mode,
            };
            if end {
                Ok(
                    (
                        RunState { status: Some(status), recv_body_mode: mode, finished: true, ..s },
                        ActionSpec::Finish,
                    ),
                )
            } else if s.redirects < cfg.max_redirects {
                Ok(
                    (
                        RunState {
                            status: Some(status),
                            recv_body_mode: mode,
                            redirects: (s.redirects + 1) as u32,
                            ..s
                        },
                        ActionSpec::FollowRedirect,
                    ),
                )
            } else {
                Err(AgentError::TooManyRedirects)
            }
        },
        Event::ResponseBody => Ok((s, ActionSpec::DrainBody)),
    }
}

/// Builds the headers to add before a request to `uri` goes out.
pub fn prepare_headers(
    cfg: &AgentConfig,
    jar: &CookieJar,
    uri: &RequestUri,
    send_mode: Option<BodyMode>,
) -> (r: Result<Vec<HeaderSetting>, AgentError>)
    ensures
        match r {
            Ok(h) => prepare_spec(*cfg, jar@, *uri, send_mode) == Ok::<Seq<HeaderSpec>, AgentError>(
                h@.map_values(|x: HeaderSetting| x@),
            ),
            Err(err) => prepare_spec(*cfg, jar@, *uri, send_mode) == Err::<Seq<HeaderSpec>, AgentError>(err),
        },
{
    if cfg.https_only && !uri.is_https() {
        return Err(AgentError::RequireHttpsOnly);
    }
    let cookie = match &uri.authority {
        Some(a) => jar.get_request_cookies(a.as_str()),
        None => {
            proof {
                reveal_strlit("");
                assert(""@ =~= Seq::<char>::empty());
            }
            jar.get_request_cookies("")
        },
    };
    let has_cookie = !cookie.as_str().is_empty();
    if has_cookie && !header_value_accepts(cookie.as_str()) {
        return Err(AgentError::CookieValue);
    }
    if let Some(v) = &cfg.accept_encoding {
        if !header_value_accepts(v.as_str()) {
            return Err(AgentError::ConfigHeaderValue);
        }
    }
    let has_ua = !cfg.user_agent.as_str().is_empty();
    if has_ua && !header_value_accepts(cfg.user_agent.as_str()) {
        return Err(AgentError::ConfigHeaderValue);
    }
    let mut headers: Vec<HeaderSetting> = Vec::new();
    if has_cookie {
        headers.push(HeaderSetting::Cookie(cookie));
    }
    if let Some(v) = &cfg.accept_encoding {
        headers.push(HeaderSetting::AcceptEncoding(v.clone()));
    }
    match send_mode {
        Some(BodyMode::LengthDelimited(n)) => headers.push(HeaderSetting::ContentLength(n)),
        Some(BodyMode::Chunked) => headers.push(HeaderSetting::ChunkedTransfer),
        _ => {},
    }
    if has_ua {
        headers.push(HeaderSetting::UserAgent(cfg.user_agent.clone()));
    }
    proof {
        let cookie_v = jar_header(jar@, uri.origin_spec());
        let expect = opt_header(cookie_v.len() > 0, HeaderSpec::Cookie(cookie_v)) + encoding_headers(
            cfg.accept_encoding,
        ) + body_headers(send_mode) + opt_header(
            cfg.user_agent@.len() > 0,
            HeaderSpec::UserAgent(cfg.user_agent@),
        );
        assert(headers@.map_values(|x: HeaderSetting| x@) =~= expect);
    }
    Ok(headers)
}

impl RunState {
    /// The state at the start of a call. `headers_set_mode` tells whether the
    /// request headers already announce how the body is framed.
    pub fn new(headers_set_mode: bool, body_mode: BodyMode) -> (r: RunState)
        ensures
            r == initial_state(headers_set_mode, body_mode),
    {
        RunState {
            send_body_mode: if headers_set_mode {
                None
            } else {
                Some(body_mode)
            },
            has_addr: false,
            has_connection: false,
            status: None,
            recv_body_mode: BodyMode::NoBody,
            redirects: 0,
            finished: false,
        }
    }

    /// Handles one event: updates the state and says what to do.
    pub fn step(&mut self, cfg: &AgentConfig, jar: &CookieJar, event: Event) -> (r: Result<
        Action,
        AgentError,
    >)
        ensures
            match r {
                Ok(a) => next(*cfg, jar@, *old(self), event) == Ok::<(RunState, ActionSpec), AgentError>(
                    (*final(self), a@),
                ),
                Err(err) => next(*cfg, jar@, *old(self), event) == Err::<(RunState, ActionSpec), AgentError>(err),
            },
            r is Err ==> *final(self) == *old(self),
    {
        match event {
            Event::Reset { must_close } => {
                let release = if !self.has_connection {
                    Release::Nothing
                } else if must_close {
                    Release::Close
                } else {
                    Release::Reuse
                };
                self.has_addr = false;
                self.has_connection = false;
                Ok(Action::Begin { release })
            },
            Event::Prepare { uri } => {
                let headers = prepare_headers(cfg, jar, &uri, self.send_body_mode)?;
                Ok(Action::Prepared { headers })
            },
            Event::Resolve { uri, timeout_ms } => {
                if !uri.is_full() {
                    return Err(AgentError::NotFullUri);
                }
                self.has_addr = true;
                Ok(Action::Resolve { uri, timeout_ms })
            },
            Event::OpenConnection { uri, timeout_ms } => {
                if !self.has_addr {
                    return Err(AgentError::NoAddress);
                }
                self.has_connection = true;
                Ok(Action::Connect { uri, timeout_ms })
            },
            Event::Await100 { timeout_ms } => {
                if !self.has_connection {
                    return Err(AgentError::NoConnection);
                }
                Ok(Action::Await100 { timeout_ms })
            },
            Event::Transmit { amount, timeout_ms } => {
                if !self.has_connection {
                    return Err(AgentError::NoConnection);
                }
                Ok(Action::Transmit { amount, timeout_ms })
            },
            Event::AwaitInput { timeout_ms } => {
                if !self.has_connection {
                    return Err(AgentError::NoConnection);
                }
                Ok(Action::AwaitInput { timeout_ms })
            },
            Event::Response { status, end, body_mode } => {
                if !end && self.redirects >= cfg.max_redirects {
                    return Err(AgentError::TooManyRedirects);
                }
                if let Some(m) = body_mode {
                    self.recv_body_mode = m;
                }
                self.status = Some(status);
                if end {
                    self.finished = true;
                    Ok(Action::Finish)
                } else {
                    self.redirects = self.redirects + 1;
                    Ok(Action::FollowRedirect)
                }
            },
            Event::ResponseBody => Ok(Action::DrainBody),
        }
    }
}

/// A client (4xx) or server (5xx) error status.
pub open spec fn is_error_status(status: u16) -> bool {
    400 <= status <= 599
}

/// What a finished exchange hands to the caller: the final status and how
/// the response body is framed.
#[derive(Debug, Clone, Copy, PartialEq, Eq, Structural)]
pub struct Completed {
    pub status: u16,
    pub body_mode: BodyMode,
}

/// The outcome of a call once the loop has ended in state `s`.
pub open spec fn finish_spec(cfg: AgentConfig, s: RunState) -> Result<Completed, AgentError> {
    if !s.finished || s.status is None {
        Err(AgentError::NoResponse)
    } else if !s.has_connection {
        Err(AgentError::NoConnection)
    } else if cfg.http_status_as_error && is_error_status(s.status->0) {
        Err(AgentError::StatusCode(s.status->0))
    } else {
        Ok(Completed { status: s.status->0, body_mode: s.recv_body_mode })
    }
}

/// Applies the error-status policy to the final response.
pub fn finish(cfg: &AgentConfig, s: &RunState) -> (r: Result<Completed, AgentError>)
    ensures
        r == finish_spec(*cfg, *s),
{
    if !s.finished {
        return Err(AgentError::NoResponse);
    }
    let status = match s.status {
        Some(v) => v,
        None => {
            return Err(AgentError::NoResponse);
        },
    };
    if !s.has_connection {
        return Err(AgentError::NoConnection);
    }
    if cfg.http_status_as_error && 400 <= status && status <= 599 {
        return Err(AgentError::StatusCode(status));
    }
    Ok(Completed { status, body_mode: s.recv_body_mode })
}

/// How to go on after waiting for a 100-continue answer.
#[derive(Debug, Clone, Copy, PartialEq, Eq, Structural)]
pub enum AfterAwait100 {
    /// Bytes arrived: hand them to the state machine.
    FeedData,
    /// Nothing arrived in time: go on and send the body.
    EndAwait100,
}

/// Decides what the wait for a 100-continue answer led to. A timeout is no
/// failure: the body is sent anyway. Any other error ends the call.
pub fn after_await100(waited: Result<(), AgentError>) -> (r: Result<AfterAwait100, AgentError>)
    ensures
        waited is Ok ==> r == Ok::<AfterAwait100, AgentError>(AfterAwait100::FeedData),
        waited == Err::<(), AgentError>(AgentError::Timeout) ==> r == Ok::<
            AfterAwait100,
            AgentError,
        >(AfterAwait100::EndAwait100),
        waited is Err && waited->Err_0 != AgentError::Timeout ==> r == Err::<
            AfterAwait100,
            AgentError,
        >(waited->Err_0),
{
    match waited {
        Ok(()) => Ok(AfterAwait100::FeedData),
        Err(AgentError::Timeout) => Ok(AfterAwait100::EndAwait100),
        Err(e) => Err(e),
    }
}

} // verus!
