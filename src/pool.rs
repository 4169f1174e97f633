use vstd::prelude::*;
use crate::uri::RequestUri;

verus! {

/// Where a pooled connection leads: whether it is secured, and the authority.
#[derive(Debug, Clone)]
pub struct PoolKey {
    pub https: bool,
    pub authority: String,
}

impl View for PoolKey {
    type V = (bool, Seq<char>);

    open spec fn view(&self) -> (bool, Seq<char>) {
        (self.https, self.authority@)
    }
}

impl PoolKey {
    /// The key of the destination of a full URI; none for a partial one.
    pub fn for_uri(uri: &RequestUri) -> (r: Option<PoolKey>)
        ensures
            r is Some <==> uri.is_full_spec(),
            r matches Some(k) ==> k@ == (uri.is_https_spec(), uri.origin_spec()),
    {
        if !uri.is_full() {
            return None;
        }
        let https = uri.is_https();
        match &uri.authority {
            Some(a) => Some(PoolKey { https, authority: a.clone() }),
            None => None,
        }
    }

    pub fn same_as(&self, other: &PoolKey) -> (r: bool)
        ensures
            r == (self@ == other@),
    {
        self.https == other.https && self.authority == other.authority
    }
}

/// An idle connection as the pool sees it: (destination, handle, idle since).
pub type IdleView<C> = ((bool, Seq<char>), C, u64);

/// The position of the most recently returned idle connection for `k`, or -1.
pub open spec fn newest_for<C>(e: Seq<IdleView<C>>, k: (bool, Seq<char>)) -> int
    decreases e.len(),
{
    if e.len() == 0 {
        -1
    } else if e.last().0 == k {
        e.len() - 1
    } else {
        newest_for(e.drop_last(), k)
    }
}

proof fn lemma_newest_for_range<C>(e: Seq<IdleView<C>>, k: (bool, Seq<char>))
    ensures
        -1 <= newest_for(e, k) < e.len(),
        newest_for(e, k) >= 0 ==> e[newest_for(e, k)].0 == k,
    decreases e.len(),
{
    if e.len() > 0 && e.last().0 != k {
        lemma_newest_for_range(e.drop_last(), k);
    }
}

/// What `acquire` does to the idle list: the connection it hands out, and
/// the idle list after.
pub open spec fn acquire_spec<C>(e: Seq<IdleView<C>>, k: (bool, Seq<char>)) -> (Option<C>, Seq<IdleView<C>>) {
    let i = newest_for(e, k);
    if i < 0 {
        (None, e)
    } else {
        (Some(e[i].1), e.remove(i))
    }
}

struct IdleEntry<C> {
    key: PoolKey,
    conn: C,
    since: u64,
}

/// Idle connections kept for reuse, keyed by destination. The handles are of
/// the caller's type: the pool only keeps them apart by destination.
pub struct ConnectionPool<C> {
    idle: Vec<IdleEntry<C>>,
}

impl<C> View for ConnectionPool<C> {
    type V = Seq<IdleView<C>>;

    closed spec fn view(&self) -> Seq<IdleView<C>> {
        self.idle@.map_values(|x: IdleEntry<C>| (x.key@, x.conn, x.since))
    }
}

impl<C> ConnectionPool<C> {
    pub fn new() -> (r: ConnectionPool<C>)
        ensures
            r@ == Seq::<IdleView<C>>::empty(),
    {
        ConnectionPool { idle: Vec::new() }
    }

    pub fn idle_count(&self) -> (r: usize)
        ensures
            r == self@.len(),
    {
        self.idle.len()
    }

    /// Takes out the most recently returned idle connection to `key`, if any.
    /// With none, the caller connects afresh.
    pub fn acquire(&mut self, key: &PoolKey) -> (r: Option<C>)
        ensures
            (r, final(self)@) == acquire_spec(old(self)@, key@),
    {
        proof {
            lemma_newest_for_range(self@, key@);
            assert(self@.subrange(0, self@.len() as int) =~= self@);
        }
        let mut i: usize = self.idle.len();
        while i > 0
            invariant
                i <= self.idle@.len(),
                self@ == old(self)@,
                newest_for(self@, key@) == newest_for(self@.subrange(0, i as int), key@),
            decreases i,
        {
            proof {
                assert(self@.subrange(0, i as int).drop_last() =~= self@.subrange(0, i - 1));
            }
            if self.idle[i - 1].key.same_as(key) {
                let entry = self.idle.remove(i - 1);
                proof {
                    assert(self@ =~= old(self)@.remove(i - 1));
                }
                return Some(entry.conn);
            }
            i = i - 1;
        }
        None
    }

    /// Returns a connection to the pool as idle since `now`.
    pub fn release(&mut self, key: PoolKey, conn: C, now: u64)
        ensures
            final(self)@ == old(self)@.push((key@, conn, now)),
    {
        self.idle.push(IdleEntry { key, conn, since: now });
        proof {
            assert(self@ =~= old(self)@.push((key@, conn, now)));
        }
    }
}

/// A connection returned to the pool is the one handed out by the next
/// acquisition for the same destination, and the pool is then as before.
pub proof fn lemma_release_then_acquire<C>(e: Seq<IdleView<C>>, k: (bool, Seq<char>), c: C, now: u64)
    ensures
        acquire_spec(e.push((k, c, now)), k) == (Some(c), e),
{
    let e2 = e.push((k, c, now));
    assert(e2.remove(e.len() as int) =~= e);
}

} // verus!
