use agent_core::agent::Agent;
use agent_core::config::AgentConfig;
use agent_core::cookie::CookieJar;
use agent_core::engine::{
    after_await100, finish, prepare_headers, Action, AfterAwait100, AgentError, BodyMode,
    Completed, Event, HeaderSetting, Release, RunState,
};
use agent_core::pool::{ConnectionPool, PoolKey};
use agent_core::uri::{RequestUri, UriScheme};

fn uri(scheme: UriScheme, host: &str, path: &str) -> RequestUri {
    RequestUri {
        scheme: Some(scheme),
        authority: Some(host.to_string()),
        path: path.to_string(),
    }
}

/// Feeds one hop's events; returns the number of resolve and connect actions.
fn run_hop(agent: &Agent, st: &mut RunState, u: &RequestUri, status: u16, end: bool) -> Result<(u32, u32), AgentError> {
    let mut events = vec![
        Event::Reset { must_close: false },
        Event::Prepare { uri: u.clone() },
        Event::Resolve { uri: u.clone(), timeout_ms: 1000 },
        Event::OpenConnection { uri: u.clone(), timeout_ms: 1000 },
        Event::Transmit { amount: 10, timeout_ms: 1000 },
        Event::AwaitInput { timeout_ms: 1000 },
        Event::Response { status, end, body_mode: Some(BodyMode::LengthDelimited(5)) },
    ];
    if !end {
        events.push(Event::ResponseBody);
    }
    let (mut resolves, mut connects) = (0, 0);
    for e in events {
        match agent.handle(st, e)? {
            Action::Resolve { .. } => resolves += 1,
            Action::Connect { .. } => connects += 1,
            _ => {}
        }
    }
    Ok((resolves, connects))
}

#[test]
fn single_exchange_resolves_and_connects_once() {
    let agent = Agent::new_with_defaults();
    let mut st = agent.start(false, BodyMode::NoBody);
    let u = uri(UriScheme::Http, "example.com", "/");
    assert_eq!(run_hop(&agent, &mut st, &u, 200, true), Ok((1, 1)));
    assert_eq!(
        agent.complete(&st),
        Ok(Completed { status: 200, body_mode: BodyMode::LengthDelimited(5) })
    );
}

#[test]
fn redirect_chain_resolves_per_hop() {
    let agent = Agent::new_with_defaults();
    let mut st = agent.start(false, BodyMode::NoBody);
    let a = uri(UriScheme::Http, "a.example", "/");
    let b = uri(UriScheme::Http, "b.example", "/");
    let c = uri(UriScheme::Http, "c.example", "/");
    assert_eq!(run_hop(&agent, &mut st, &a, 301, false), Ok((1, 1)));
    assert_eq!(run_hop(&agent, &mut st, &b, 302, false), Ok((1, 1)));
    assert_eq!(run_hop(&agent, &mut st, &c, 200, true), Ok((1, 1)));
    assert_eq!(st.redirects, 2);
    assert!(st.finished);
    assert_eq!(agent.complete(&st).map(|c| c.status), Ok(200));
}

#[test]
fn redirects_beyond_the_limit_fail() {
    let mut cfg = AgentConfig::default_config();
    cfg.max_redirects = 1;
    let agent = Agent::new_with_config(cfg);
    let mut st = agent.start(false, BodyMode::NoBody);
    let a = uri(UriScheme::Http, "a.example", "/");
    assert_eq!(run_hop(&agent, &mut st, &a, 301, false), Ok((1, 1)));
    assert_eq!(run_hop(&agent, &mut st, &a, 301, false), Err(AgentError::TooManyRedirects));
}

#[test]
fn await100_timeout_proceeds_to_body() {
    assert_eq!(after_await100(Err(AgentError::Timeout)), Ok(AfterAwait100::EndAwait100));
    assert_eq!(after_await100(Ok(())), Ok(AfterAwait100::FeedData));
    assert_eq!(after_await100(Err(AgentError::Connection)), Err(AgentError::Connection));
}

#[test]
fn second_call_reuses_pooled_connection() {
    let mut agent = Agent::new_with_defaults();
    let key = PoolKey::for_uri(&uri(UriScheme::Https, "example.com", "/")).unwrap();
    assert_eq!(agent.acquire_connection(&key), None);
    agent.release_connection(key.clone(), 7, 100);
    assert_eq!(agent.acquire_connection(&key), Some(7));
    assert_eq!(agent.acquire_connection(&key), None);
}

#[test]
fn pool_keeps_destinations_apart() {
    let mut pool: ConnectionPool<u64> = ConnectionPool::new();
    let a = PoolKey { https: true, authority: "a.example".to_string() };
    let a_plain = PoolKey { https: false, authority: "a.example".to_string() };
    let b = PoolKey { https: true, authority: "b.example".to_string() };
    pool.release(a.clone(), 1, 0);
    pool.release(b.clone(), 2, 0);
    pool.release(a.clone(), 3, 5);
    assert_eq!(pool.idle_count(), 3);
    assert_eq!(pool.acquire(&a_plain), None);
    assert_eq!(pool.acquire(&a), Some(3));
    assert_eq!(pool.acquire(&a), Some(1));
    assert_eq!(pool.acquire(&b), Some(2));
    assert_eq!(pool.idle_count(), 0);
}

#[test]
fn reset_releases_connection_by_must_close() {
    let agent = Agent::new_with_defaults();
    let mut st = agent.start(false, BodyMode::NoBody);
    let u = uri(UriScheme::Http, "example.com", "/");
    assert!(matches!(agent.handle(&mut st, Event::Reset { must_close: true }), Ok(Action::Begin { release: Release::Nothing })));
    assert_eq!(run_hop(&agent, &mut st, &u, 301, false), Ok((1, 1)));
    assert!(matches!(agent.handle(&mut st, Event::Reset { must_close: false }), Ok(Action::Begin { release: Release::Reuse })));
    assert_eq!(run_hop(&agent, &mut st, &u, 301, false), Ok((1, 1)));
    assert!(matches!(agent.handle(&mut st, Event::Reset { must_close: true }), Ok(Action::Begin { release: Release::Close })));
    assert!(!st.has_connection);
    assert!(!st.has_addr);
}

#[test]
fn https_only_refuses_plain_http_before_resolving() {
    let mut cfg = AgentConfig::default_config();
    cfg.https_only = true;
    let agent = Agent::new_with_config(cfg);
    let mut st = agent.start(false, BodyMode::NoBody);
    let u = uri(UriScheme::Http, "example.com", "/");
    assert_eq!(run_hop(&agent, &mut st, &u, 200, true), Err(AgentError::RequireHttpsOnly));
    assert!(!st.has_addr);
    let mut st = agent.start(false, BodyMode::NoBody);
    let s = uri(UriScheme::Https, "example.com", "/");
    assert_eq!(run_hop(&agent, &mut st, &s, 200, true), Ok((1, 1)));
}

#[test]
fn error_status_policy_on_and_off() {
    let agent = Agent::new_with_defaults();
    let mut st = agent.start(false, BodyMode::NoBody);
    let u = uri(UriScheme::Http, "example.com", "/missing");
    run_hop(&agent, &mut st, &u, 404, true).unwrap();
    assert_eq!(agent.complete(&st), Err(AgentError::StatusCode(404)));

    let mut cfg = AgentConfig::default_config();
    cfg.http_status_as_error = false;
    let agent = Agent::new_with_config(cfg.clone());
    let mut st = agent.start(false, BodyMode::NoBody);
    run_hop(&agent, &mut st, &u, 404, true).unwrap();
    assert_eq!(agent.complete(&st).map(|c| c.status), Ok(404));
    assert_eq!(finish(&cfg, &st).map(|c| c.status), Ok(404));
}

#[test]
fn server_error_and_success_statuses() {
    let cfg = AgentConfig::default_config();
    let mut st = RunState::new(false, BodyMode::NoBody);
    st.has_connection = true;
    st.finished = true;
    st.status = Some(503);
    assert_eq!(finish(&cfg, &st), Err(AgentError::StatusCode(503)));
    st.status = Some(399);
    assert_eq!(finish(&cfg, &st).map(|c| c.status), Ok(399));
    st.status = Some(600);
    assert_eq!(finish(&cfg, &st).map(|c| c.status), Ok(600));
    st.finished = false;
    assert_eq!(finish(&cfg, &st), Err(AgentError::NoResponse));
}

#[test]
fn redirect_with_set_cookie_then_200() {
    let mut cfg = AgentConfig::default_config();
    cfg.http_status_as_error = false;
    let mut agent = Agent::new_with_config(cfg);
    let mut st = agent.start(false, BodyMode::NoBody);
    let first = uri(UriScheme::Http, "example.com", "/old");
    let second = uri(UriScheme::Http, "example.com", "/new");
    assert_eq!(run_hop(&agent, &mut st, &first, 301, false), Ok((1, 1)));
    agent.store_cookie("example.com", "session", "abc");
    agent.handle(&mut st, Event::Reset { must_close: false }).unwrap();
    match agent.handle(&mut st, Event::Prepare { uri: second.clone() }) {
        Ok(Action::Prepared { headers }) => {
            assert!(matches!(&headers[0], HeaderSetting::Cookie(c) if c == "session=abc"));
        }
        other => panic!("unexpected {:?}", other),
    }
    assert_eq!(run_hop(&agent, &mut st, &second, 200, true), Ok((1, 1)));
    assert_eq!(agent.complete(&st).map(|c| c.status), Ok(200));
    assert_eq!(agent.cookie_jar().get_request_cookies("example.com"), "session=abc");
}

#[test]
fn cookie_header_joins_and_replaces() {
    let mut jar = CookieJar::new();
    jar.set_cookie("a.example", "x", "1");
    jar.set_cookie("b.example", "y", "2");
    jar.set_cookie("a.example", "z", "3");
    assert_eq!(jar.get_request_cookies("a.example"), "x=1; z=3");
    jar.set_cookie("a.example", "x", "4");
    assert_eq!(jar.get_request_cookies("a.example"), "z=3; x=4");
    assert_eq!(jar.get_request_cookies("c.example"), "");
    assert_eq!(jar.len(), 3);
}

#[test]
fn invalid_cookie_value_is_refused() {
    let mut jar = CookieJar::new();
    jar.set_cookie("example.com", "bad", "a\nb");
    let cfg = AgentConfig::default_config();
    let u = uri(UriScheme::Http, "example.com", "/");
    assert!(matches!(prepare_headers(&cfg, &jar, &u, None), Err(AgentError::CookieValue)));
}

#[test]
fn user_agent_and_framing_headers() {
    let mut cfg = AgentConfig::default_config();
    cfg.user_agent = "tester/1.0".to_string();
    cfg.accept_encoding = Some("gzip, br".to_string());
    let jar = CookieJar::new();
    let u = uri(UriScheme::Http, "example.com", "/");
    let h = prepare_headers(&cfg, &jar, &u, Some(BodyMode::LengthDelimited(42))).unwrap();
    assert_eq!(h.len(), 3);
    assert!(matches!(&h[0], HeaderSetting::AcceptEncoding(v) if v == "gzip, br"));
    assert!(matches!(&h[1], HeaderSetting::ContentLength(42)));
    assert!(matches!(&h[2], HeaderSetting::UserAgent(v) if v == "tester/1.0"));
    let h = prepare_headers(&cfg, &jar, &u, Some(BodyMode::Chunked)).unwrap();
    assert!(matches!(&h[1], HeaderSetting::ChunkedTransfer));
    let h = prepare_headers(&AgentConfig::default_config(), &jar, &u, Some(BodyMode::NoBody)).unwrap();
    assert!(h.is_empty());
}

#[test]
fn headers_already_framed_get_no_framing_header() {
    let agent = Agent::new_with_defaults();
    let mut st = agent.start(true, BodyMode::LengthDelimited(9));
    let u = uri(UriScheme::Http, "example.com", "/");
    match agent.handle(&mut st, Event::Prepare { uri: u }) {
        Ok(Action::Prepared { headers }) => assert!(headers.is_empty()),
        other => panic!("unexpected {:?}", other),
    }
}

#[test]
fn malformed_user_agent_is_a_config_error() {
    let mut cfg = AgentConfig::default_config();
    cfg.user_agent = "bad\u{7f}agent".to_string();
    let jar = CookieJar::new();
    let u = uri(UriScheme::Http, "example.com", "/");
    assert!(matches!(prepare_headers(&cfg, &jar, &u, None), Err(AgentError::ConfigHeaderValue)));
    cfg.user_agent = "tab\tand ünïcode".to_string();
    assert!(prepare_headers(&cfg, &jar, &u, None).is_ok());
}

#[test]
fn partial_uri_and_out_of_order_events_fail() {
    let agent = Agent::new_with_defaults();
    let mut st = agent.start(false, BodyMode::NoBody);
    let partial = RequestUri { scheme: None, authority: None, path: "/path".to_string() };
    assert!(matches!(
        agent.handle(&mut st, Event::Resolve { uri: partial.clone(), timeout_ms: 1 }),
        Err(AgentError::NotFullUri)
    ));
    assert!(matches!(
        agent.handle(&mut st, Event::OpenConnection { uri: partial, timeout_ms: 1 }),
        Err(AgentError::NoAddress)
    ));
    assert!(matches!(
        agent.handle(&mut st, Event::Transmit { amount: 1, timeout_ms: 1 }),
        Err(AgentError::NoConnection)
    ));
    assert!(matches!(agent.handle(&mut st, Event::Await100 { timeout_ms: 1 }), Err(AgentError::NoConnection)));
    assert!(matches!(agent.handle(&mut st, Event::AwaitInput { timeout_ms: 1 }), Err(AgentError::NoConnection)));
}

#[test]
fn defaults() {
    let cfg = AgentConfig::default();
    assert!(!cfg.https_only);
    assert!(cfg.http_status_as_error);
    assert_eq!(cfg.max_redirects, 10);
    assert!(cfg.user_agent.is_empty());
    let agent = Agent::new_with_defaults();
    assert_eq!(agent.cookie_jar().len(), 0);
    assert_eq!(agent.config().max_redirects, 10);
    let other = uri(UriScheme::Other("ftp".to_string()), "x", "/");
    assert!(other.is_full() && !other.is_https());
    assert!(PoolKey::for_uri(&RequestUri { scheme: None, authority: Some("x".to_string()), path: String::new() }).is_none());
}
