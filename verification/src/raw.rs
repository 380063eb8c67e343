//! Readiness bookkeeping of a registered I/O resource.
//!
//! A resource caches the readiness it has seen, one bit set for reads and one
//! for writes, in the representation of `mio::Ready::as_usize`. A poll for
//! readiness first looks at the cache; when the cache shows no readiness it
//! drains the reactor's event stream until an event brings some. Readiness
//! stays cached until the caller clears it after an operation would block.
use vstd::prelude::*;

verus! {

/// The readable bit of `mio::Ready`.
pub open spec fn readable_bit() -> usize {
    1
}

/// The writable bit of `mio::Ready`.
pub open spec fn writable_bit() -> usize {
    2
}

/// The hang-up bit of `mio::unix::UnixReady`.
pub open spec fn hup_bit() -> usize {
    8
}

/// The bits that a read-readiness event reports: readable and hang-up.
pub open spec fn read_mask() -> usize {
    readable_bit() | hup_bit()
}

/// The bits that a write-readiness event reports: writable and hang-up.
pub open spec fn write_mask() -> usize {
    writable_bit() | hup_bit()
}

/// The bits of `ev`, or none.
pub open spec fn bits_of(ev: Option<usize>) -> usize {
    match ev {
        Some(b) => b,
        None => 0,
    }
}

/// `mio::Ready::readable()` in its `usize` representation.
#[verifier::external_body]
fn readable() -> (r: usize)
    ensures
        r == readable_bit(),
{
    mio::Ready::readable().as_usize()
}

/// `mio::Ready::writable()` in its `usize` representation.
#[verifier::external_body]
fn writable() -> (r: usize)
    ensures
        r == writable_bit(),
{
    mio::Ready::writable().as_usize()
}

/// `mio::unix::UnixReady::hup()` in its `usize` representation.
#[verifier::external_body]
fn hup() -> (r: usize)
    ensures
        r == hup_bit(),
{
    mio::Ready::from(mio::unix::UnixReady::hup()).as_usize()
}

/// What a readiness poll does first.
#[derive(Clone, Copy, Debug, PartialEq, Eq, Structural)]
pub enum ReadyStart {
    /// The cache already shows readiness: look at what is new on the event
    /// stream without waiting (`take_*_ready`), then report the cache.
    Probe,
    /// The cache shows none: wait on the event stream (`poll_*_ready`) and
    /// hand each event to the state until one brings readiness.
    Await,
}

/// The cached read and write readiness of one I/O resource.
#[derive(Debug)]
pub struct ReadinessState {
    read_readiness: usize,
    write_readiness: usize,
}

impl ReadinessState {
    /// The cached read readiness.
    pub closed spec fn read_bits(&self) -> usize {
        self.read_readiness
    }

    /// The cached write readiness.
    pub closed spec fn write_bits(&self) -> usize {
        self.write_readiness
    }

    /// A resource that has seen no readiness yet.
    pub fn new() -> (s: ReadinessState)
        ensures
            s.read_bits() == 0,
            s.write_bits() == 0,
    {
        ReadinessState { read_readiness: 0, write_readiness: 0 }
    }

    /// The cached read readiness, in `mio::Ready::as_usize` form.
    pub fn read_readiness(&self) -> (r: usize)
        ensures
            r == self.read_bits(),
    {
        self.read_readiness
    }

    /// The cached write readiness, in `mio::Ready::as_usize` form.
    pub fn write_readiness(&self) -> (r: usize)
        ensures
            r == self.write_bits(),
    {
        self.write_readiness
    }

    /// First step of a read-readiness poll: `Probe` when the cache holds the
    /// readable bit, `Await` otherwise.
    pub fn poll_read_ready_start(&self) -> (s: ReadyStart)
        ensures
            s == (if self.read_bits() & readable_bit() != 0 {
                ReadyStart::Probe
            } else {
                ReadyStart::Await
            }),
    {
        if self.read_readiness & readable() != 0 {
            ReadyStart::Probe
        } else {
            ReadyStart::Await
        }
    }

    /// After a `Probe`: adds what the event stream had ready, if anything,
    /// to the cache and returns the whole cached read readiness, which the
    /// poll reports.
    pub fn poll_read_ready_probe(&mut self, ev: Option<usize>) -> (r: usize)
        ensures
            final(self).read_bits() == old(self).read_bits() | bits_of(ev),
            final(self).write_bits() == old(self).write_bits(),
            r == final(self).read_bits(),
            ev matches Some(b) ==> r == old(self).read_bits() | b,
            ev is None ==> r == old(self).read_bits(),
    {
        match ev {
            Some(b) => {
                self.read_readiness = self.read_readiness | b;
            },
            None => {
                let x = self.read_readiness;
                assert(x | 0usize == x) by (bit_vector);
            },
        }
        self.read_readiness
    }

    /// After an `Await`: adds an event of the read stream to the cache.
    /// Returns the readiness the poll reports, the event's readable and
    /// hang-up bits, or `None` when it has neither and the poll must wait
    /// for the next event.
    pub fn poll_read_ready_event(&mut self, ev: usize) -> (r: Option<usize>)
        ensures
            final(self).read_bits() == old(self).read_bits() | ev,
            final(self).write_bits() == old(self).write_bits(),
            r == (if ev & read_mask() == 0 {
                None
            } else {
                Some(ev & read_mask())
            }),
    {
        self.read_readiness = self.read_readiness | ev;
        let mask = readable() | hup();
        let ret = ev & mask;
        if ret == 0 {
            None
        } else {
            Some(ret)
        }
    }

    /// Clears the readable bit of the cache, so that the next poll waits
    /// for a new event. The other cached bits stay.
    pub fn clear_read_ready(&mut self)
        ensures
            final(self).read_bits() == old(self).read_bits() & !readable_bit(),
            final(self).write_bits() == old(self).write_bits(),
    {
        self.read_readiness = self.read_readiness & !readable();
    }

    /// First step of a write-readiness poll: `Probe` when the cache holds
    /// the writable bit, `Await` otherwise.
    pub fn poll_write_ready_start(&self) -> (s: ReadyStart)
        ensures
            s == (if self.write_bits() & writable_bit() != 0 {
                ReadyStart::Probe
            } else {
                ReadyStart::Await
            }),
    {
        if self.write_readiness & writable() != 0 {
            ReadyStart::Probe
        } else {
            ReadyStart::Await
        }
    }

    /// After a `Probe`: adds what the event stream had ready, if anything,
    /// to the cache and returns the whole cached write readiness.
    pub fn poll_write_ready_probe(&mut self, ev: Option<usize>) -> (r: usize)
        ensures
            final(self).write_bits() == old(self).write_bits() | bits_of(ev),
            final(self).read_bits() == old(self).read_bits(),
            r == final(self).write_bits(),
            ev matches Some(b) ==> r == old(self).write_bits() | b,
            ev is None ==> r == old(self).write_bits(),
    {
        match ev {
            Some(b) => {
                self.write_readiness = self.write_readiness | b;
            },
            None => {
                let x = self.write_readiness;
                assert(x | 0usize == x) by (bit_vector);
            },
        }
        self.write_readiness
    }

    /// After an `Await`: adds an event of the write stream to the cache.
    /// Returns the event's writable and hang-up bits, or `None` when it has
    /// neither.
    pub fn poll_write_ready_event(&mut self, ev: usize) -> (r: Option<usize>)
        ensures
            final(self).write_bits() == old(self).write_bits() | ev,
            final(self).read_bits() == old(self).read_bits(),
            r == (if ev & write_mask() == 0 {
                None
            } else {
                Some(ev & write_mask())
            }),
    {
        self.write_readiness = self.write_readiness | ev;
        let mask = writable() | hup();
        let ret = ev & mask;
        if ret == 0 {
            None
        } else {
            Some(ret)
        }
    }

    /// Clears the writable bit of the cache. Hang-up, a final state, and
    /// the other bits stay.
    pub fn clear_write_ready(&mut self)
        ensures
            final(self).write_bits() == old(self).write_bits() & !writable_bit(),
            final(self).read_bits() == old(self).read_bits(),
    {
        self.write_readiness = self.write_readiness & !writable();
    }
}

/// An I/O resource together with its cached readiness. The registration
/// with the reactor that produces readiness events is kept beside it.
#[derive(Debug)]
pub struct PollEvented<E> {
    io: E,
    inner: ReadinessState,
}

impl<E> PollEvented<E> {
    /// The wrapped resource.
    pub closed spec fn io(&self) -> E {
        self.io
    }

    /// The cached readiness.
    pub closed spec fn readiness(&self) -> ReadinessState {
        self.inner
    }

    /// Wraps `io`, which has seen no readiness yet.
    pub fn new(io: E) -> (p: PollEvented<E>)
        ensures
            p.io() == io,
            p.readiness().read_bits() == 0,
            p.readiness().write_bits() == 0,
    {
        PollEvented { io, inner: ReadinessState::new() }
    }

    /// A shared reference to the wrapped resource.
    pub fn get_ref(&self) -> (r: &E)
        ensures
            *r == self.io(),
    {
        &self.io
    }

    /// A mutable reference to the wrapped resource.
    pub fn get_mut(&mut self) -> (r: &mut E)
        ensures
            *r == old(self).io(),
            final(self).io() == *final(r),
            final(self).readiness() == old(self).readiness(),
    {
        &mut self.io
    }

    /// The cached readiness.
    pub fn readiness_ref(&self) -> (r: &ReadinessState)
        ensures
            *r == self.readiness(),
    {
        &self.inner
    }

    /// The cached readiness, to step a poll or clear readiness on.
    pub fn readiness_mut(&mut self) -> (r: &mut ReadinessState)
        ensures
            *r == old(self).readiness(),
            final(self).readiness() == *final(r),
            final(self).io() == old(self).io(),
    {
        &mut self.inner
    }

    /// Consumes the wrapper, returning the resource.
    pub fn into_inner(self) -> (r: E)
        ensures
            r == self.io(),
    {
        self.io
    }
}

/// A probe keeps every bit of the event it took from the stream, and every
/// bit that was cached: the readiness it caches and reports holds the event
/// and the old cache, and no bit that is in neither.
pub proof fn law_probe_keeps_event(cache: usize, b: usize)
    ensures
        (cache | bits_of(Some(b))) & b == b,
        (cache | bits_of(Some(b))) & cache == cache,
        (cache | bits_of(Some(b))) & !(cache | b) == 0,
        cache | bits_of(None) == cache,
{
    assert((cache | b) & b == b) by (bit_vector);
    assert((cache | b) & cache == cache) by (bit_vector);
    assert((cache | b) & !(cache | b) == 0usize) by (bit_vector);
    assert(cache | 0usize == cache) by (bit_vector);
}

/// The two masks as numbers.
proof fn lemma_masks()
    ensures
        read_mask() == 9,
        write_mask() == 10,
{
    assert(1usize | 8usize == 9usize) by (bit_vector);
    assert(2usize | 8usize == 10usize) by (bit_vector);
}

/// Once the cached read readiness holds the readable bit, every later step of
/// a poll keeps it: the resource stays read-ready until `clear_read_ready`.
pub proof fn law_read_ready_persists(cache: usize, ev: usize)
    requires
        cache & readable_bit() != 0,
    ensures
        (cache | ev) & readable_bit() != 0,
{
    assert((cache & 1usize) != 0usize ==> ((cache | ev) & 1usize) != 0usize) by (bit_vector);
}

/// When a poll reports read readiness that includes the readable bit, an
/// immediate second poll, with no clear in between, starts with a `Probe`
/// and reports every bit the first one reported, whatever the probe finds.
/// This holds whether the first poll reported an event (`ev & read_mask()`,
/// after which the cache is `cache | ev`) or probed the cache (reporting
/// `cache | bits_of(first)`).
pub proof fn law_read_ready_repeats(
    cache: usize,
    ev: usize,
    first: Option<usize>,
    next: Option<usize>,
)
    ensures
        (ev & read_mask()) & readable_bit() != 0 ==> {
            &&& (cache | ev) & readable_bit() != 0
            &&& ((cache | ev) | bits_of(next)) & (ev & read_mask()) == ev & read_mask()
        },
        cache & readable_bit() != 0 ==> {
            &&& (cache | bits_of(first)) & readable_bit() != 0
            &&& ((cache | bits_of(first)) | bits_of(next)) & (cache | bits_of(first)) == cache
                | bits_of(first)
        },
{
    lemma_masks();
    let f = bits_of(first);
    let n = bits_of(next);
    assert(((ev & 9usize) & 1usize) != 0usize ==> ((cache | ev) & 1usize) != 0usize
        && (((cache | ev) | n) & (ev & 9usize)) == (ev & 9usize)) by (bit_vector);
    assert((cache & 1usize) != 0usize ==> ((cache | f) & 1usize) != 0usize
        && (((cache | f) | n) & (cache | f)) == (cache | f)) by (bit_vector);
}

/// After `clear_read_ready` only the readable bit is gone, the next poll
/// waits for a new event, and an event with neither the readable nor the
/// hang-up bit reports nothing and leaves the poll waiting: the resource is
/// not read-ready again until a new read readiness event.
pub proof fn law_clear_read_ready(cache: usize, ev: usize)
    ensures
        (cache & !readable_bit()) & readable_bit() == 0,
        (cache & !readable_bit()) | readable_bit() == cache | readable_bit(),
        ev & read_mask() == 0 ==> ((cache & !readable_bit()) | ev) & readable_bit() == 0,
{
    lemma_masks();
    assert((cache & !1usize) & 1usize == 0usize) by (bit_vector);
    assert((cache & !1usize) | 1usize == cache | 1usize) by (bit_vector);
    assert((ev & 9usize) == 0usize ==> ((cache & !1usize) | ev) & 1usize == 0usize) by (bit_vector);
}

/// `clear_write_ready` clears only the writable bit: hang-up, a final
/// state, stays cached; the next poll waits, and an event with neither the
/// writable nor the hang-up bit leaves it waiting.
pub proof fn law_clear_write_ready_keeps_hup(cache: usize, ev: usize)
    ensures
        (cache & !writable_bit()) & writable_bit() == 0,
        (cache & !writable_bit()) & hup_bit() == cache & hup_bit(),
        (cache & !writable_bit()) | writable_bit() == cache | writable_bit(),
        ev & write_mask() == 0 ==> ((cache & !writable_bit()) | ev) & writable_bit() == 0,
{
    lemma_masks();
    assert((cache & !2usize) & 2usize == 0usize) by (bit_vector);
    assert((cache & !2usize) & 8usize == cache & 8usize) by (bit_vector);
    assert((cache & !2usize) | 2usize == cache | 2usize) by (bit_vector);
    assert((ev & 10usize) == 0usize ==> ((cache & !2usize) | ev) & 2usize == 0usize) by (bit_vector);
}

/// The resource stays write-ready until `clear_write_ready`: once the
/// cache holds the writable bit every later step keeps it. A poll that
/// reported the writable bit, from an event or from the cache, is followed
/// by an immediate second poll that probes and reports every bit the first
/// one reported. Every write readiness a poll reports holds the writable or
/// the hang-up bit.
pub proof fn law_write_ready_persists(
    cache: usize,
    ev: usize,
    first: Option<usize>,
    next: Option<usize>,
)
    ensures
        cache & writable_bit() != 0 ==> (cache | ev) & writable_bit() != 0,
        (ev & write_mask()) & writable_bit() != 0 ==> {
            &&& (cache | ev) & writable_bit() != 0
            &&& ((cache | ev) | bits_of(next)) & (ev & write_mask()) == ev & write_mask()
        },
        cache & writable_bit() != 0 ==> {
            &&& (cache | bits_of(first)) & write_mask() != 0
            &&& ((cache | bits_of(first)) | bits_of(next)) & (cache | bits_of(first)) == cache
                | bits_of(first)
        },
        ev & write_mask() != 0 ==> (ev & write_mask()) & write_mask() != 0,
{
    lemma_masks();
    let f = bits_of(first);
    let n = bits_of(next);
    assert((cache & 2usize) != 0usize ==> ((cache | ev) & 2usize) != 0usize) by (bit_vector);
    assert(((ev & 10usize) & 2usize) != 0usize ==> ((cache | ev) & 2usize) != 0usize
        && (((cache | ev) | n) & (ev & 10usize)) == (ev & 10usize)) by (bit_vector);
    assert((cache & 2usize) != 0usize ==> ((cache | f) & 10usize) != 0usize
        && (((cache | f) | n) & (cache | f)) == (cache | f)) by (bit_vector);
    assert((ev & 10usize) != 0usize ==> ((ev & 10usize) & 10usize) != 0usize) by (bit_vector);
}

/// Polling never forgets readiness: the cache after a step holds every bit
/// it held before and every bit of the event.
pub proof fn law_cache_only_grows(cache: usize, ev: usize)
    ensures
        cache & (cache | ev) == cache,
        ev & (cache | ev) == ev,
{
    assert(cache & (cache | ev) == cache) by (bit_vector);
    assert(ev & (cache | ev) == ev) by (bit_vector);
}

/// A hang-up alone ends a wait in either direction.
pub proof fn law_hup_reported(ev: usize)
    requires
        ev & hup_bit() != 0,
    ensures
        ev & read_mask() != 0,
        ev & write_mask() != 0,
{
    lemma_masks();
    assert((ev & 8usize) != 0usize ==> (ev & 9usize) != 0usize && (ev & 10usize) != 0usize)
        by (bit_vector);
}

} // verus!
