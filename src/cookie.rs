use vstd::prelude::*;
use vstd::string::StringExecFns;

verus! {

/// One stored cookie: the origin it was set by, its name and its value.
#[derive(Debug, Clone)]
pub struct StoredCookie {
    pub origin: String,
    pub name: String,
    pub value: String,
}

/// The view of a stored cookie: (origin, name, value).
pub type CookieView = (Seq<char>, Seq<char>, Seq<char>);

pub open spec fn cookie_view(c: StoredCookie) -> CookieView {
    (c.origin@, c.name@, c.value@)
}

/// The text a cookie contributes to a request: `name=value`.
pub open spec fn pair_text(name: Seq<char>, value: Seq<char>) -> Seq<char> {
    name + seq!['='] + value
}

/// The cookie header for `origin`: the pairs of the cookies stored under that
/// origin, oldest first, separated by `; `. Empty when there are none.
pub open spec fn jar_header(e: Seq<CookieView>, origin: Seq<char>) -> Seq<char>
    decreases e.len(),
{
    if e.len() == 0 {
        Seq::empty()
    } else {
        let h = jar_header(e.drop_last(), origin);
        let c = e.last();
        if c.0 == origin {
            if h.len() == 0 {
                pair_text(c.1, c.2)
            } else {
                h + seq![';', ' '] + pair_text(c.1, c.2)
            }
        } else {
            h
        }
    }
}

/// The stored cookies without the one named `name` under `origin`.
pub open spec fn without_cookie(e: Seq<CookieView>, origin: Seq<char>, name: Seq<char>) -> Seq<
    CookieView,
>
    decreases e.len(),
{
    if e.len() == 0 {
        Seq::empty()
    } else {
        let rest = without_cookie(e.drop_last(), origin, name);
        let c = e.last();
        if c.0 == origin && c.1 == name {
            rest
        } else {
            rest.push(c)
        }
    }
}

pub open spec fn ends_with(s: Seq<char>, t: Seq<char>) -> bool {
    s.len() >= t.len() && s.subrange(s.len() - t.len(), s.len() as int) == t
}

/// Cookies kept between requests, keyed by origin. A cookie set again under
/// the same origin and name replaces the earlier one and becomes the newest.
#[derive(Debug, Clone)]
pub struct CookieJar {
    cookies: Vec<StoredCookie>,
}

impl View for CookieJar {
    type V = Seq<CookieView>;

    closed spec fn view(&self) -> Seq<CookieView> {
        self.cookies@.map_values(|c: StoredCookie| cookie_view(c))
    }
}

impl CookieJar {
    pub fn new() -> (r: CookieJar)
        ensures
            r@ == Seq::<CookieView>::empty(),
    {
        CookieJar { cookies: Vec::new() }
    }

    pub fn len(&self) -> (r: usize)
        ensures
            r == self@.len(),
    {
        self.cookies.len()
    }

    /// Stores a cookie set by `origin`, replacing one of the same name there.
    pub fn set_cookie(&mut self, origin: &str, name: &str, value: &str)
        ensures
            final(self)@ == without_cookie(old(self)@, origin@, name@).push(
                (origin@, name@, value@),
            ),
    {
        let o = String::from_str(origin);
        let n = String::from_str(name);
        let mut kept: Vec<StoredCookie> = Vec::new();
        let mut i: usize = 0;
        while i < self.cookies.len()
            invariant
                0 <= i <= self.cookies@.len(),
                self.cookies@ == old(self).cookies@,
                o@ == origin@,
                n@ == name@,
                kept@.map_values(|c: StoredCookie| cookie_view(c)) == without_cookie(
                    old(self)@.subrange(0, i as int),
                    origin@,
                    name@,
                ),
            decreases self.cookies@.len() - i,
        {
            let c = &self.cookies[i];
            let same = c.origin == o && c.name == n;
            proof {
                let e = old(self)@;
                assert(e.subrange(0, i + 1).drop_last() =~= e.subrange(0, i as int));
            }
            if !same {
                let ghost before = kept@;
                kept.push(
                    StoredCookie {
                        origin: c.origin.clone(),
                        name: c.name.clone(),
                        value: c.value.clone(),
                    },
                );
                proof {
                    assert(kept@.map_values(|c: StoredCookie| cookie_view(c)) =~= before.map_values(
                        |c: StoredCookie| cookie_view(c),
                    ).push(cookie_view(self.cookies@[i as int])));
                }
            }
            i = i + 1;
        }
        proof {
            assert(old(self)@.subrange(0, old(self)@.len() as int) =~= old(self)@);
        }
        let ghost before = kept@;
        kept.push(StoredCookie { origin: o, name: n, value: String::from_str(value) });
        proof {
            assert(kept@.map_values(|c: StoredCookie| cookie_view(c)) =~= before.map_values(
                |c: StoredCookie| cookie_view(c),
            ).push((origin@, name@, value@)));
        }
        self.cookies = kept;
    }

    /// The cookie header value for a request to `origin`, possibly empty.
    pub fn get_request_cookies(&self, origin: &str) -> (r: String)
        ensures
            r@ == jar_header(self@, origin@),
    {
        let o = String::from_str(origin);
        let mut out = String::new();
        let mut started = false;
        let mut i: usize = 0;
        while i < self.cookies.len()
            invariant
                0 <= i <= self.cookies@.len(),
                o@ == origin@,
                started == (out@.len() != 0),
                out@ == jar_header(self@.subrange(0, i as int), origin@),
            decreases self.cookies@.len() - i,
        {
            let c = &self.cookies[i];
            proof {
                assert(self@.subrange(0, i + 1).drop_last() =~= self@.subrange(0, i as int));
            }
            if c.origin == o {
                if started {
                    proof {
                        reveal_strlit("; ");
                    }
                    out.append("; ");
                }
                out.append(c.name.as_str());
                proof {
                    reveal_strlit("=");
                }
                out.append("=");
                out.append(c.value.as_str());
                started = true;
                proof {
                    assert(out@ =~= if jar_header(self@.subrange(0, i as int), origin@).len() == 0 {
                        pair_text(c.name@, c.value@)
                    } else {
                        jar_header(self@.subrange(0, i as int), origin@) + seq![';', ' ']
                            + pair_text(c.name@, c.value@)
                    });
                }
            }
            i = i + 1;
        }
        proof {
            assert(self@.subrange(0, self@.len() as int) =~= self@);
        }
        out
    }
}

/// The cookie just set under an origin is the last pair of the cookie header
/// sent to that origin.
pub proof fn lemma_set_cookie_is_sent(e: Seq<CookieView>, origin: Seq<char>, name: Seq<char>, value: Seq<char>)
    ensures
        ends_with(
            jar_header(without_cookie(e, origin, name).push((origin, name, value)), origin),
            pair_text(name, value),
        ),
{
    let e2 = without_cookie(e, origin, name).push((origin, name, value));
    assert(e2.drop_last() =~= without_cookie(e, origin, name));
    let h = jar_header(e2, origin);
    let t = pair_text(name, value);
    assert(h.subrange(h.len() - t.len(), h.len() as int) =~= t);
}

} // verus!
