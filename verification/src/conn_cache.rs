//! The connection cache of a namespace.
//!
//! The cache keeps one connection per namespace. The first request creates it, every other
//! request waits for it to be released. When the database is destroyed, shut down or reloaded
//! the cache is closed: the idle connection is dropped and all waiting requests give up, so a
//! cached connection never outlives the database that it belongs to.
//!
//! The methods are the atomic steps of the cache; the caller runs them under one lock, makes
//! the connections, parks the requests that have to wait and wakes them as it is told.

use vstd::prelude::*;

verus! {

/// A connection: its handle, and the permit of the connection throttle while it holds one.
#[derive(Debug)]
pub struct Connection<C, P> {
    pub handle: C,
    pub permit: Option<P>,
}

/// A connection after its permit was released.
pub open spec fn without_permit<C, P>(conn: Connection<C, P>) -> Connection<C, P> {
    Connection { handle: conn.handle, permit: None }
}

impl<C, P> Connection<C, P> {
    /// Gives the permit back.
    pub fn release_throttle_permit(&mut self)
        ensures
            *final(self) == without_permit(*old(self)),
    {
        self.permit = None;
    }
}

/// The state of a cache.
#[verifier::ext_equal]
pub struct CacheView<C, P> {
    /// The cache serves no more connections.
    pub closed: bool,
    /// The connection, while it is idle.
    pub idle: Option<Connection<C, P>>,
    /// A request has set out to create the connection, and has not failed.
    pub created: bool,
}

/// What a request for the connection finds.
#[derive(Debug)]
pub enum Take<C, P> {
    /// The cache is closed.
    Closed,
    /// The connection was idle.
    Ready(Connection<C, P>),
    /// There is no connection: the request creates it.
    Create,
    /// Another request holds the connection or is about to create it: wait, then try again.
    Wait,
}

/// Which waiting requests to wake.
#[derive(Clone, Copy, Debug, PartialEq, Eq, Structural)]
pub enum Wake {
    Nobody,
    One,
    All,
}

/// What a request finds in a cache.
pub open spec fn take_outcome<C, P>(v: CacheView<C, P>) -> Take<C, P> {
    if v.closed {
        Take::Closed
    } else {
        match v.idle {
            Some(conn) => Take::Ready(conn),
            None => if v.created {
                Take::Wait
            } else {
                Take::Create
            },
        }
    }
}

/// A cache after a request for the connection.
pub open spec fn after_take<C, P>(v: CacheView<C, P>) -> CacheView<C, P> {
    match take_outcome(v) {
        Take::Ready(_) => CacheView { idle: None, ..v },
        Take::Create => CacheView { created: true, ..v },
        _ => v,
    }
}

/// A cache after the creation of the connection failed.
pub open spec fn after_failure<C, P>(v: CacheView<C, P>) -> CacheView<C, P> {
    CacheView { created: false, ..v }
}

/// Whether a cache keeps a connection that is released to it.
pub open spec fn keeps<C, P>(v: CacheView<C, P>) -> bool {
    !v.closed && v.idle is None
}

/// A cache after a connection was released to it.
pub open spec fn after_put<C, P>(v: CacheView<C, P>, conn: Connection<C, P>) -> CacheView<C, P> {
    if keeps(v) {
        CacheView { idle: Some(without_permit(conn)), ..v }
    } else {
        v
    }
}

/// A cache after it was closed.
pub open spec fn after_close<C, P>(v: CacheView<C, P>) -> CacheView<C, P> {
    CacheView { closed: true, idle: None, ..v }
}

/// What holds of every cache: a closed one keeps no connection, and an idle connection holds
/// no permit.
pub open spec fn valid_cache<C, P>(v: CacheView<C, P>) -> bool {
    &&& v.closed ==> v.idle is None
    &&& v.idle matches Some(conn) ==> conn.permit is None
}

/// The connection cache of a namespace.
#[derive(Debug)]
pub struct ConnCache<C, P> {
    closed: bool,
    conn: Option<Connection<C, P>>,
    conn_created: bool,
}

impl<C, P> View for ConnCache<C, P> {
    type V = CacheView<C, P>;

    closed spec fn view(&self) -> CacheView<C, P> {
        CacheView { closed: self.closed, idle: self.conn, created: self.conn_created }
    }
}

impl<C, P> ConnCache<C, P> {
    #[verifier::type_invariant]
    spec fn inv(self) -> bool {
        valid_cache(self@)
    }

    /// An open cache without a connection.
    pub fn new() -> (r: Self)
        ensures
            r@ == (CacheView::<C, P> { closed: false, idle: None, created: false }),
            valid_cache(r@),
    {
        ConnCache { closed: false, conn: None, conn_created: false }
    }

    /// Asks for the connection.
    pub fn take(&mut self) -> (r: Take<C, P>)
        ensures
            r == take_outcome(old(self)@),
            final(self)@ == after_take(old(self)@),
            valid_cache(final(self)@),
    {
        proof {
            use_type_invariant(&*self);
        }
        if self.closed {
            return Take::Closed;
        }
        let mut conn: Option<Connection<C, P>> = None;
        std::mem::swap(&mut conn, &mut self.conn);
        match conn {
            Some(conn) => Take::Ready(conn),
            None => if self.conn_created {
                Take::Wait
            } else {
                self.conn_created = true;
                Take::Create
            },
        }
    }

    /// Reports how the creation of the connection ended. On failure the next request may
    /// create it, and all waiting ones try again.
    pub fn created(&mut self, result: Option<Connection<C, P>>) -> (r: (
        Option<Connection<C, P>>,
        Wake,
    ))
        ensures
            r.0 == result,
            r.1 == if result is Some {
                Wake::Nobody
            } else {
                Wake::All
            },
            final(self)@ == if result is Some {
                old(self)@
            } else {
                after_failure(old(self)@)
            },
            valid_cache(final(self)@),
    {
        proof {
            use_type_invariant(&*self);
        }
        match result {
            Some(conn) => (Some(conn), Wake::Nobody),
            None => {
                self.conn_created = false;
                (None, Wake::All)
            },
        }
    }

    /// Releases the connection to the cache and wakes one waiting request. A connection that
    /// is released to a closed cache is dropped. An idle connection gives its permit back, so
    /// that it does not keep others from being created.
    pub fn put(&mut self, conn: Connection<C, P>) -> (r: Wake)
        ensures
            final(self)@ == after_put(old(self)@, conn),
            r == if keeps(old(self)@) {
                Wake::One
            } else {
                Wake::Nobody
            },
            valid_cache(final(self)@),
    {
        proof {
            use_type_invariant(&*self);
        }
        if self.closed || self.conn.is_some() {
            return Wake::Nobody;
        }
        let mut conn = conn;
        conn.release_throttle_permit();
        self.conn = Some(conn);
        Wake::One
    }

    /// Closes the cache, drops the idle connection and wakes all waiting requests.
    pub fn close(&mut self) -> (r: Wake)
        ensures
            final(self)@ == after_close(old(self)@),
            r == Wake::All,
            valid_cache(final(self)@),
    {
        proof {
            use_type_invariant(&*self);
        }
        self.conn = None;
        self.closed = true;
        Wake::All
    }

    /// The number of idle connections.
    pub fn idle_count(&self) -> (r: usize)
        ensures
            r == if self@.idle is Some {
                1usize
            } else {
                0usize
            },
    {
        if self.conn.is_some() {
            1
        } else {
            0
        }
    }
}

// Laws.

/// An event in the life of a cache.
pub enum CacheEvent<C, P> {
    Take,
    CreateFailed,
    Put(Connection<C, P>),
    /// A request drops the connection without releasing it.
    Drop,
    Close,
}

/// A cache together with the number of connections that requests hold or are creating.
pub struct Usage<C, P> {
    pub cache: CacheView<C, P>,
    pub held: nat,
}

/// At most one connection is idle, held or being created; and while one is, no request will
/// create another.
pub open spec fn single<C, P>(u: Usage<C, P>) -> bool {
    let total = u.held + if u.cache.idle is Some {
        1nat
    } else {
        0nat
    };
    &&& total <= 1
    &&& total == 1 ==> u.cache.created
}

/// Only who holds a connection, or is creating one, can fail, release it or drop it.
pub open spec fn enabled<C, P>(u: Usage<C, P>, event: CacheEvent<C, P>) -> bool {
    event is Take || event is Close || u.held > 0
}

/// The state after an event.
pub open spec fn next<C, P>(u: Usage<C, P>, event: CacheEvent<C, P>) -> Usage<C, P> {
    match event {
        CacheEvent::Take => Usage {
            cache: after_take(u.cache),
            held: if take_outcome(u.cache) is Ready || take_outcome(u.cache) is Create {
                u.held + 1
            } else {
                u.held
            },
        },
        CacheEvent::CreateFailed => Usage {
            cache: after_failure(u.cache),
            held: (u.held - 1) as nat,
        },
        CacheEvent::Put(conn) => Usage {
            cache: after_put(u.cache, conn),
            held: (u.held - 1) as nat,
        },
        CacheEvent::Drop => Usage { cache: u.cache, held: (u.held - 1) as nat },
        CacheEvent::Close => Usage { cache: after_close(u.cache), held: u.held },
    }
}

/// A namespace is served by a single connection: whatever happens, there is never more than
/// one, and a request sets out to create one only while there is none.
pub proof fn lemma_single_connection<C, P>(u: Usage<C, P>, event: CacheEvent<C, P>)
    requires
        single(u),
        enabled(u, event),
    ensures
        single(next(u, event)),
        event is Take && take_outcome(u.cache) is Create ==> u.held == 0 && u.cache.idle is None,
{
}

/// A closed cache stays closed whatever happens, keeps no connection and hands none out.
pub proof fn lemma_closed_for_good<C, P>(u: Usage<C, P>, event: CacheEvent<C, P>)
    requires
        valid_cache(u.cache),
        u.cache.closed,
    ensures
        valid_cache(next(u, event).cache),
        next(u, event).cache.closed,
        next(u, event).cache.idle is None,
        take_outcome(next(u, event).cache) is Closed,
{
}

/// A request that comes after a release gets the connection that was released, without its
/// permit, and leaves the cache as it was before the release.
pub proof fn lemma_take_gives_back_put<C, P>(v: CacheView<C, P>, conn: Connection<C, P>)
    requires
        keeps(v),
    ensures
        take_outcome(after_put(v, conn)) == Take::Ready(without_permit(conn)),
        after_take(after_put(v, conn)) == v,
{
    assert(after_take(after_put(v, conn)) =~= v);
}

/// A new cache, with no connection in use.
pub open spec fn fresh_usage<C, P>() -> Usage<C, P> {
    Usage { cache: CacheView { closed: false, idle: None, created: false }, held: 0 }
}

/// The state after a sequence of events.
pub open spec fn run<C, P>(u: Usage<C, P>, events: Seq<CacheEvent<C, P>>) -> Usage<C, P>
    decreases events.len(),
{
    if events.len() == 0 {
        u
    } else {
        next(run(u, events.drop_last()), events.last())
    }
}

/// Whether each event of a sequence can happen when its turn comes.
pub open spec fn all_enabled<C, P>(u: Usage<C, P>, events: Seq<CacheEvent<C, P>>) -> bool
    decreases events.len(),
{
    events.len() > 0 ==> {
        &&& all_enabled(u, events.drop_last())
        &&& enabled(run(u, events.drop_last()), events.last())
    }
}

/// Over the whole life of a cache there is never more than one connection, and an idle one
/// holds no permit.
pub proof fn lemma_always_single<C, P>(events: Seq<CacheEvent<C, P>>)
    requires
        all_enabled(fresh_usage(), events),
    ensures
        single(run(fresh_usage(), events)),
        valid_cache(run(fresh_usage(), events).cache),
    decreases events.len(),
{
    if events.len() > 0 {
        lemma_always_single(events.drop_last());
        lemma_single_connection(run(fresh_usage(), events.drop_last()), events.last());
    }
}

/// How many times a request set out to create the connection.
pub open spec fn creations<C, P>(u: Usage<C, P>, events: Seq<CacheEvent<C, P>>) -> nat
    decreases events.len(),
{
    if events.len() == 0 {
        0
    } else {
        let before = run(u, events.drop_last());
        creations(u, events.drop_last()) + if events.last() is Take && take_outcome(
            before.cache,
        ) is Create {
            1nat
        } else {
            0nat
        }
    }
}

/// How many times the creation of the connection failed.
pub open spec fn failures<C, P>(events: Seq<CacheEvent<C, P>>) -> nat
    decreases events.len(),
{
    if events.len() == 0 {
        0
    } else {
        failures(events.drop_last()) + if events.last() is CreateFailed {
            1nat
        } else {
            0nat
        }
    }
}

/// Over the life of a cache a connection is created once, and once more for every creation that
/// failed.
pub proof fn lemma_created_once<C, P>(events: Seq<CacheEvent<C, P>>)
    requires
        all_enabled(fresh_usage(), events),
    ensures
        creations(fresh_usage(), events) == failures(events) + if run(
            fresh_usage(),
            events,
        ).cache.created {
            1nat
        } else {
            0nat
        },
        creations(fresh_usage(), events) <= failures(events) + 1,
    decreases events.len(),
{
    if events.len() > 0 {
        lemma_created_once(events.drop_last());
        lemma_always_single(events.drop_last());
    }
}


/// The first request creates the connection, and every request that comes before it is released
/// waits for it.
pub proof fn lemma_first_creates_others_wait<C, P>(
    fresh: ConnCache<C, P>,
    first: &mut ConnCache<C, P>,
    second: &mut ConnCache<C, P>,
    a: Take<C, P>,
    b: Take<C, P>,
)
    requires
        call_ensures(ConnCache::<C, P>::new, (), fresh),
        *old(first) == fresh,
        call_ensures(ConnCache::<C, P>::take, (first,), a),
        *old(second) == *final(first),
        call_ensures(ConnCache::<C, P>::take, (second,), b),
    ensures
        a is Create,
        b is Wait,
        final(second)@ == old(second)@,
{
}

/// A connection that is released to an open cache without one goes to the next request, as it
/// was but for its permit, and one waiting request is woken for it. The request after that waits.
pub proof fn lemma_released_goes_to_the_next<C, P>(
    released: &mut ConnCache<C, P>,
    conn: Connection<C, P>,
    wake: Wake,
    first: &mut ConnCache<C, P>,
    second: &mut ConnCache<C, P>,
    a: Take<C, P>,
    b: Take<C, P>,
)
    requires
        !old(released)@.closed,
        old(released)@.idle is None,
        old(released)@.created,
        call_ensures(ConnCache::<C, P>::put, (released, conn), wake),
        *old(first) == *final(released),
        call_ensures(ConnCache::<C, P>::take, (first,), a),
        *old(second) == *final(first),
        call_ensures(ConnCache::<C, P>::take, (second,), b),
    ensures
        wake == Wake::One,
        a matches Take::Ready(c) && c.handle == conn.handle && c.permit is None,
        b is Wait,
{
}

/// Nobody gets a connection from a cache once it was closed, whatever is released to it later, and
/// all who wait are woken to learn so.
pub proof fn lemma_closed_gives_nothing<C, P>(
    closing: &mut ConnCache<C, P>,
    wake: Wake,
    released: &mut ConnCache<C, P>,
    conn: Connection<C, P>,
    woken: Wake,
    asked: &mut ConnCache<C, P>,
    r: Take<C, P>,
    shown: &ConnCache<C, P>,
    idle: usize,
)
    requires
        call_ensures(ConnCache::<C, P>::close, (closing,), wake),
        *old(released) == *final(closing),
        call_ensures(ConnCache::<C, P>::put, (released, conn), woken),
        *old(asked) == *final(released),
        call_ensures(ConnCache::<C, P>::take, (asked,), r),
        *shown == *final(asked),
        call_ensures(ConnCache::<C, P>::idle_count, (shown,), idle),
    ensures
        wake == Wake::All,
        woken == Wake::Nobody,
        r is Closed,
        idle == 0,
{
}

/// After a creation that failed all who wait are woken, and the next request creates the
/// connection. One that succeeded is handed to the request that made it, and changes nothing for
/// the others.
pub proof fn lemma_failed_creation_is_repeated<C, P>(
    cache: &mut ConnCache<C, P>,
    made: Option<Connection<C, P>>,
    r: (Option<Connection<C, P>>, Wake),
    asked: &mut ConnCache<C, P>,
    next: Take<C, P>,
)
    requires
        !old(cache)@.closed,
        old(cache)@.idle is None,
        old(cache)@.created,
        call_ensures(ConnCache::<C, P>::created, (cache, made), r),
        *old(asked) == *final(cache),
        call_ensures(ConnCache::<C, P>::take, (asked,), next),
    ensures
        r.0 == made,
        made is None ==> r.1 == Wake::All && next is Create,
        made is Some ==> r.1 == Wake::Nobody && next is Wait,
{
}

/// A connection counts as idle exactly while the next request would get it.
pub proof fn lemma_idle_count<C, P>(
    cache: &ConnCache<C, P>,
    idle: usize,
    asked: &mut ConnCache<C, P>,
    r: Take<C, P>,
)
    requires
        valid_cache(cache@),
        call_ensures(ConnCache::<C, P>::idle_count, (cache,), idle),
        *old(asked) == *cache,
        call_ensures(ConnCache::<C, P>::take, (asked,), r),
    ensures
        idle <= 1,
        idle == 1 <==> r is Ready,
{
}

/// Giving the permit back changes nothing else of a connection.
pub proof fn lemma_release_throttle_permit<C, P>(conn: &mut Connection<C, P>)
    requires
        call_ensures(Connection::<C, P>::release_throttle_permit, (conn,), ()),
    ensures
        final(conn).permit is None,
        final(conn).handle == old(conn).handle,
{
}


/// A connection that is released while another one is idle is dropped: the idle one stays, and
/// nobody is woken.
pub proof fn lemma_second_release_is_dropped<C, P>(
    cache: &mut ConnCache<C, P>,
    idle: Connection<C, P>,
    conn: Connection<C, P>,
    wake: Wake,
)
    requires
        old(cache)@.idle == Some(idle),
        call_ensures(ConnCache::<C, P>::put, (cache, conn), wake),
    ensures
        final(cache)@ == old(cache)@,
        wake == Wake::Nobody,
{
}

} // verus!
