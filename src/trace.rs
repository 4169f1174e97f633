use vstd::prelude::*;
use crate::config::AgentConfig;
use crate::cookie::{ends_with, jar_header, pair_text, without_cookie, lemma_set_cookie_is_sent, CookieView};
use crate::engine::{
    finish_spec, initial_state, is_error_status, next, prepare_spec, ActionSpec, AgentError, BodyMode, Completed,
    Event, HeaderSpec, Release, RunState,
};
use crate::pool::{acquire_spec, lemma_release_then_acquire, newest_for, IdleView};
use crate::uri::RequestUri;

verus! {

/// The engine fed a whole sequence of events: the final state and every
/// action taken, or the first error.
pub open spec fn run(cfg: AgentConfig, jar: Seq<CookieView>, s: RunState, evs: Seq<Event>) -> Result<
    (RunState, Seq<ActionSpec>),
    AgentError,
>
    decreases evs.len(),
{
    if evs.len() == 0 {
        Ok((s, Seq::empty()))
    } else {
        match next(cfg, jar, s, evs[0]) {
            Ok((s1, a)) => match run(cfg, jar, s1, evs.drop_first()) {
                Ok((s2, acts)) => Ok((s2, seq![a] + acts)),
                Err(err) => Err(err),
            },
            Err(err) => Err(err),
        }
    }
}

pub open spec fn count(acts: Seq<ActionSpec>, f: spec_fn(ActionSpec) -> bool) -> nat
    decreases acts.len(),
{
    if acts.len() == 0 {
        0
    } else {
        (if f(acts[0]) {
            1nat
        } else {
            0nat
        }) + count(acts.drop_first(), f)
    }
}

pub open spec fn is_resolve(a: ActionSpec) -> bool {
    a is Resolve
}

pub open spec fn is_connect(a: ActionSpec) -> bool {
    a is Connect
}

pub open spec fn is_drain(a: ActionSpec) -> bool {
    a is DrainBody
}

/// One exchange with `uri` as the protocol state machine sequences it: start,
/// prepare, resolve, connect, send, read the head. A redirect head is
/// followed by its body being drained.
pub open spec fn hop(uri: RequestUri, status: u16, end: bool) -> Seq<Event> {
    let head = seq![
        Event::Reset { must_close: false },
        Event::Prepare { uri },
        Event::Resolve { uri, timeout_ms: 0 },
        Event::OpenConnection { uri, timeout_ms: 0 },
        Event::Transmit { amount: 0, timeout_ms: 0 },
        Event::AwaitInput { timeout_ms: 0 },
        Event::Response { status, end, body_mode: None },
    ];
    if end {
        head
    } else {
        head.push(Event::ResponseBody)
    }
}

/// A call that is redirected through `uris` and ends on the last of them with
/// `status`.
pub open spec fn chain(uris: Seq<RequestUri>, status: u16) -> Seq<Event>
    decreases uris.len(),
{
    if uris.len() <= 1 {
        hop(uris[0], status, true)
    } else {
        hop(uris[0], 301, false) + chain(uris.drop_first(), status)
    }
}

proof fn lemma_count_append(a: Seq<ActionSpec>, b: Seq<ActionSpec>, f: spec_fn(ActionSpec) -> bool)
    ensures
        count(a + b, f) == count(a, f) + count(b, f),
    decreases a.len(),
{
    if a.len() > 0 {
        assert((a + b).drop_first() =~= a.drop_first() + b);
        lemma_count_append(a.drop_first(), b, f);
    } else {
        assert(a + b =~= b);
    }
}

proof fn lemma_run_append(cfg: AgentConfig, jar: Seq<CookieView>, s: RunState, a: Seq<Event>, b: Seq<Event>)
    ensures
        run(cfg, jar, s, a + b) == match run(cfg, jar, s, a) {
            Ok((s1, x)) => match run(cfg, jar, s1, b) {
                Ok((s2, y)) => Ok((s2, x + y)),
                Err(err) => Err(err),
            },
            Err(err) => Err(err),
        },
    decreases a.len(),
{
    if a.len() == 0 {
        assert(a + b =~= b);
        if let Ok((s2, y)) = run(cfg, jar, s, b) {
            assert(Seq::<ActionSpec>::empty() + y =~= y);
        }
    } else {
        assert((a + b)[0] == a[0]);
        assert((a + b).drop_first() =~= a.drop_first() + b);
        if let Ok((s1, x)) = next(cfg, jar, s, a[0]) {
            lemma_run_append(cfg, jar, s1, a.drop_first(), b);
            if let Ok((s2, x2)) = run(cfg, jar, s1, a.drop_first()) {
                if let Ok((s3, y)) = run(cfg, jar, s2, b) {
                    assert(seq![x] + (x2 + y) =~= (seq![x] + x2) + y);
                }
            }
        }
    }
}

proof fn lemma_run_one(cfg: AgentConfig, jar: Seq<CookieView>, s: RunState, e: Event)
    ensures
        run(cfg, jar, s, seq![e]) == match next(cfg, jar, s, e) {
            Ok((s1, a)) => Ok((s1, seq![a])),
            Err(err) => Err(err),
        },
{
    assert(seq![e].drop_first() =~= Seq::<Event>::empty());
    assert(seq![e][0] == e);
    if let Ok((s1, a)) = next(cfg, jar, s, e) {
        assert(run(cfg, jar, s1, Seq::<Event>::empty()) == Ok::<(RunState, Seq<ActionSpec>), AgentError>((s1, Seq::<ActionSpec>::empty())));
        assert(seq![a] + Seq::<ActionSpec>::empty() =~= seq![a]);
    }
}

proof fn lemma_count_push(x: Seq<ActionSpec>, a: ActionSpec, f: spec_fn(ActionSpec) -> bool)
    ensures
        count(x.push(a), f) == count(x, f) + if f(a) {
            1nat
        } else {
            0nat
        },
{
    lemma_count_append(x, seq![a], f);
    assert(x + seq![a] =~= x.push(a));
    assert(seq![a].drop_first() =~= Seq::<ActionSpec>::empty());
    assert(seq![a][0] == a);
    assert(count(Seq::<ActionSpec>::empty(), f) == 0);
    assert(count(seq![a], f) == count(seq![a].drop_first(), f) + if f(a) {
        1nat
    } else {
        0nat
    });
}

/// Feeding one more event after a prefix.
proof fn lemma_run_push(cfg: AgentConfig, jar: Seq<CookieView>, s: RunState, evs: Seq<Event>, e: Event)
    ensures
        run(cfg, jar, s, evs.push(e)) == match run(cfg, jar, s, evs) {
            Ok((s1, x)) => match next(cfg, jar, s1, e) {
                Ok((s2, a)) => Ok((s2, x.push(a))),
                Err(err) => Err(err),
            },
            Err(err) => Err(err),
        },
        run(cfg, jar, s, evs) matches Ok((s1, x)) ==> next(cfg, jar, s1, e) matches Ok((s2, a)) ==> {
            &&& count(x.push(a), |a: ActionSpec| is_resolve(a)) == count(x, |a: ActionSpec| is_resolve(a)) + if a is Resolve { 1nat } else { 0nat }
            &&& count(x.push(a), |a: ActionSpec| is_connect(a)) == count(x, |a: ActionSpec| is_connect(a)) + if a is Connect { 1nat } else { 0nat }
            &&& count(x.push(a), |a: ActionSpec| is_drain(a)) == count(x, |a: ActionSpec| is_drain(a)) + if a is DrainBody { 1nat } else { 0nat }
        },
{
    assert(evs + seq![e] =~= evs.push(e));
    lemma_run_append(cfg, jar, s, evs, seq![e]);
    lemma_run_one(cfg, jar, s, e);
    if let Ok((s1, x)) = run(cfg, jar, s, evs) {
        lemma_run_one(cfg, jar, s1, e);
        if let Ok((s2, a)) = next(cfg, jar, s1, e) {
            assert(x + seq![a] =~= x.push(a));
            lemma_count_push(x, a, |a: ActionSpec| is_resolve(a));
            lemma_count_push(x, a, |a: ActionSpec| is_connect(a));
            lemma_count_push(x, a, |a: ActionSpec| is_drain(a));
        }
    }
}

/// Runs one hop, event by event.
proof fn lemma_hop(
    cfg: AgentConfig,
    jar: Seq<CookieView>,
    s: RunState,
    uri: RequestUri,
    status: u16,
    end: bool,
)
    requires
        uri.is_full_spec(),
        prepare_spec(cfg, jar, uri, s.send_body_mode) is Ok,
        end || s.redirects < cfg.max_redirects,
    ensures
        run(cfg, jar, s, hop(uri, status, end)) matches Ok((s2, acts)) && {
            &&& count(acts, |a: ActionSpec| is_resolve(a)) == 1
            &&& count(acts, |a: ActionSpec| is_connect(a)) == 1
            &&& count(acts, |a: ActionSpec| is_drain(a)) == if end { 0nat } else { 1nat }
            &&& s2.finished == (end || s.finished)
            &&& s2.status == Some(status)
            &&& s2.has_connection
            &&& s2.send_body_mode == s.send_body_mode
            &&& s2.redirects == if end { s.redirects } else { (s.redirects + 1) as u32 }
        },
{
    let p0 = Seq::<Event>::empty();
    let p1 = p0.push(Event::Reset { must_close: false });
    let p2 = p1.push(Event::Prepare { uri });
    let p3 = p2.push(Event::Resolve { uri, timeout_ms: 0 });
    let p4 = p3.push(Event::OpenConnection { uri, timeout_ms: 0 });
    let p5 = p4.push(Event::Transmit { amount: 0, timeout_ms: 0 });
    let p6 = p5.push(Event::AwaitInput { timeout_ms: 0 });
    let p7 = p6.push(Event::Response { status, end, body_mode: None });
    let p8 = p7.push(Event::ResponseBody);
    assert(count(Seq::<ActionSpec>::empty(), |a: ActionSpec| is_resolve(a)) == 0);
    assert(count(Seq::<ActionSpec>::empty(), |a: ActionSpec| is_connect(a)) == 0);
    assert(count(Seq::<ActionSpec>::empty(), |a: ActionSpec| is_drain(a)) == 0);
    lemma_run_push(cfg, jar, s, p0, Event::Reset { must_close: false });
    lemma_run_push(cfg, jar, s, p1, Event::Prepare { uri });
    lemma_run_push(cfg, jar, s, p2, Event::Resolve { uri, timeout_ms: 0 });
    lemma_run_push(cfg, jar, s, p3, Event::OpenConnection { uri, timeout_ms: 0 });
    lemma_run_push(cfg, jar, s, p4, Event::Transmit { amount: 0, timeout_ms: 0 });
    lemma_run_push(cfg, jar, s, p5, Event::AwaitInput { timeout_ms: 0 });
    lemma_run_push(cfg, jar, s, p6, Event::Response { status, end, body_mode: None });
    lemma_run_push(cfg, jar, s, p7, Event::ResponseBody);
    if end {
        assert(hop(uri, status, end) =~= p7);
    } else {
        assert(hop(uri, status, end) =~= p8);
    }
}

proof fn lemma_chain(cfg: AgentConfig, jar: Seq<CookieView>, s: RunState, uris: Seq<RequestUri>, status: u16)
    requires
        uris.len() >= 1,
        s.redirects + uris.len() - 1 <= cfg.max_redirects,
        forall|i: int|
            0 <= i < uris.len() ==> (#[trigger] uris[i]).is_full_spec() && prepare_spec(
                cfg,
                jar,
                uris[i],
                s.send_body_mode,
            ) is Ok,
    ensures
        run(cfg, jar, s, chain(uris, status)) matches Ok((s2, acts)) && {
            &&& count(acts, |a: ActionSpec| is_resolve(a)) == uris.len()
            &&& count(acts, |a: ActionSpec| is_connect(a)) == uris.len()
            &&& count(acts, |a: ActionSpec| is_drain(a)) == uris.len() - 1
            &&& s2.finished
            &&& s2.status == Some(status)
            &&& s2.has_connection
            &&& s2.redirects == s.redirects + uris.len() - 1
        },
    decreases uris.len(),
{
    if uris.len() == 1 {
        lemma_hop(cfg, jar, s, uris[0], status, true);
    } else {
        let first = hop(uris[0], 301, false);
        let rest = uris.drop_first();
        lemma_hop(cfg, jar, s, uris[0], 301, false);
        let (s1, x) = run(cfg, jar, s, first)->Ok_0;
        assert forall|i: int| 0 <= i < rest.len() implies (#[trigger] rest[i]).is_full_spec() && prepare_spec(
            cfg,
            jar,
            rest[i],
            s1.send_body_mode,
        ) is Ok by {
            assert(rest[i] == uris[i + 1]);
        }
        lemma_chain(cfg, jar, s1, rest, status);
        lemma_run_append(cfg, jar, s, first, chain(rest, status));
        let (s2, y) = run(cfg, jar, s1, chain(rest, status))->Ok_0;
        lemma_count_append(x, y, |a: ActionSpec| is_resolve(a));
        lemma_count_append(x, y, |a: ActionSpec| is_connect(a));
        lemma_count_append(x, y, |a: ActionSpec| is_drain(a));
    }
}

/// An exchange that is not redirected resolves once and connects once, and
/// ends with the response head of that one exchange.
pub proof fn lemma_single_exchange(
    cfg: AgentConfig,
    jar: Seq<CookieView>,
    headers_set_mode: bool,
    body_mode: BodyMode,
    uri: RequestUri,
    status: u16,
)
    requires
        uri.is_full_spec(),
        prepare_spec(cfg, jar, uri, initial_state(headers_set_mode, body_mode).send_body_mode) is Ok,
    ensures
        run(cfg, jar, initial_state(headers_set_mode, body_mode), hop(uri, status, true)) matches Ok(
            (s2, acts),
        ) && {
            &&& count(acts, |a: ActionSpec| is_resolve(a)) == 1
            &&& count(acts, |a: ActionSpec| is_connect(a)) == 1
            &&& s2.finished
            &&& s2.status == Some(status)
        },
{
    lemma_hop(cfg, jar, initial_state(headers_set_mode, body_mode), uri, status, true);
}

/// A call redirected through N hops (N at most the configured maximum)
/// resolves and connects N + 1 times, drains the N redirect bodies, and ends
/// on the status of the last exchange.
pub proof fn lemma_redirect_chain(
    cfg: AgentConfig,
    jar: Seq<CookieView>,
    headers_set_mode: bool,
    body_mode: BodyMode,
    uris: Seq<RequestUri>,
    status: u16,
)
    requires
        uris.len() >= 1,
        uris.len() - 1 <= cfg.max_redirects,
        forall|i: int|
            0 <= i < uris.len() ==> (#[trigger] uris[i]).is_full_spec() && prepare_spec(
                cfg,
                jar,
                uris[i],
                initial_state(headers_set_mode, body_mode).send_body_mode,
            ) is Ok,
    ensures
        run(cfg, jar, initial_state(headers_set_mode, body_mode), chain(uris, status)) matches Ok(
            (s2, acts),
        ) && {
            &&& count(acts, |a: ActionSpec| is_resolve(a)) == uris.len()
            &&& count(acts, |a: ActionSpec| is_connect(a)) == uris.len()
            &&& count(acts, |a: ActionSpec| is_drain(a)) == uris.len() - 1
            &&& s2.finished
            &&& s2.status == Some(status)
        },
{
    lemma_chain(cfg, jar, initial_state(headers_set_mode, body_mode), uris, status);
}

/// With https-only set, a request to a URI whose scheme is not https fails
/// when it is prepared, before any resolve or connect, whatever would follow.
pub proof fn lemma_https_only_fails_early(
    cfg: AgentConfig,
    jar: Seq<CookieView>,
    s: RunState,
    must_close: bool,
    uri: RequestUri,
    rest: Seq<Event>,
)
    requires
        cfg.https_only,
        !uri.is_https_spec(),
    ensures
        run(cfg, jar, s, seq![Event::Reset { must_close }, Event::Prepare { uri }] + rest) == Err::<
            (RunState, Seq<ActionSpec>),
            AgentError,
        >(AgentError::RequireHttpsOnly),
{
    let evs = seq![Event::Reset { must_close }, Event::Prepare { uri }] + rest;
    assert(evs[0] == Event::Reset { must_close });
    assert(evs.drop_first()[0] == Event::Prepare { uri });
    let s1 = next(cfg, jar, s, evs[0])->Ok_0.0;
    assert(run(cfg, jar, s1, evs.drop_first()) == Err::<(RunState, Seq<ActionSpec>), AgentError>(
        AgentError::RequireHttpsOnly,
    ));
}

/// A connection whose exchange did not demand closing goes back to the pool,
/// and the next call to the same destination gets that connection instead of
/// connecting; one that had to close is dropped, and the next call connects.
pub proof fn lemma_connection_reused<C>(
    cfg: AgentConfig,
    jar: Seq<CookieView>,
    s: RunState,
    must_close: bool,
    idle: Seq<IdleView<C>>,
    key: (bool, Seq<char>),
    conn: C,
    now: u64,
)
    requires
        s.has_connection,
        newest_for(idle, key) < 0,
    ensures
        acquire_spec(idle, key) == (None::<C>, idle),
        next(cfg, jar, s, Event::Reset { must_close }) matches Ok((_, ActionSpec::Begin(release))) && release == if must_close {
            Release::Close
        } else {
            Release::Reuse
        },
        acquire_spec(
            if must_close {
                idle
            } else {
                idle.push((key, conn, now))
            },
            key,
        ).0 == if must_close {
            None
        } else {
            Some(conn)
        },
{
    lemma_release_then_acquire(idle, key, conn, now);
}

/// With the error-status policy on, a final 4xx or 5xx response fails the
/// call with that status; with it off, the same response is returned.
pub proof fn lemma_error_status_policy(cfg: AgentConfig, s: RunState, status: u16)
    requires
        s.finished,
        s.has_connection,
        s.status == Some(status),
        is_error_status(status),
    ensures
        finish_spec(cfg, s) == if cfg.http_status_as_error {
            Err::<Completed, AgentError>(AgentError::StatusCode(status))
        } else {
            Ok::<Completed, AgentError>(Completed { status, body_mode: s.recv_body_mode })
        },
{
}

/// A cookie stored while one hop's response is handled is sent with the
/// next request to the same origin: it closes the cookie header.
pub proof fn lemma_cookie_sent_on_next_hop(
    cfg: AgentConfig,
    jar: Seq<CookieView>,
    uri: RequestUri,
    name: Seq<char>,
    value: Seq<char>,
    send_mode: Option<BodyMode>,
)
    requires
        prepare_spec(
            cfg,
            without_cookie(jar, uri.origin_spec(), name).push((uri.origin_spec(), name, value)),
            uri,
            send_mode,
        ) is Ok,
    ensures
        prepare_spec(
            cfg,
            without_cookie(jar, uri.origin_spec(), name).push((uri.origin_spec(), name, value)),
            uri,
            send_mode,
        ) matches Ok(h) && (h.len() > 0 && (h[0] matches HeaderSpec::Cookie(c) && ends_with(
            c,
            pair_text(name, value),
        ))),
{
    let o = uri.origin_spec();
    let jar2 = without_cookie(jar, o, name).push((o, name, value));
    lemma_set_cookie_is_sent(jar, o, name, value);
    assert(jar_header(jar2, o).len() > 0);
}

} // verus!
