//! Sources of the current time.
//!
//! A clock reads the system time unless a source has been installed in it;
//! a source can be installed for good, or for the duration of a call.
use vstd::prelude::*;
use std::time::Instant;

verus! {

/// A source of the current time.
pub trait Now {
    /// The current time according to this source.
    fn now(&self) -> Instant;
}

/// Whether `t` is an instant that a call of `source.now()` can return.
pub open spec fn reads<N: Now + ?Sized>(source: &N, t: Instant) -> bool {
    call_ensures(N::now, (source,), t)
}

impl<N: Now + ?Sized> Now for Box<N> {
    /// The time of the boxed source.
    fn now(&self) -> (t: Instant)
        ensures
            reads::<N>(&**self, t),
    {
        (**self).now()
    }
}

/// `std::time::Instant::now`. The instant depends on when it is called, so
/// nothing is stated of it.
#[verifier::external_body]
fn system_now() -> Instant {
    Instant::now()
}

/// A clock: the system time, or the time of an installed source.
#[derive(Debug)]
pub struct Clock<N> {
    source: Option<N>,
}

impl<N: Now> Clock<N> {
    /// The installed source, if any.
    pub closed spec fn source(&self) -> Option<N> {
        self.source
    }

    /// The clock with `source` installed.
    pub closed spec fn installed(source: N) -> Clock<N> {
        Clock { source: Some(source) }
    }

    /// The clock with `source` installed reads the time of `source`.
    pub proof fn lemma_installed(source: N)
        ensures
            Self::installed(source).source() == Some(source),
    {
    }

    /// A clock that reads the system time.
    pub fn system() -> (c: Clock<N>)
        ensures
            c.source() is None,
    {
        Clock { source: None }
    }

    /// A clock that reads the time of `source`.
    pub fn from_source(source: N) -> (c: Clock<N>)
        ensures
            c.source() == Some(source),
            c == Self::installed(source),
    {
        Clock { source: Some(source) }
    }

    /// The current time: the installed source's, or else the system's.
    pub fn now(&self) -> (t: Instant)
        ensures
            self.source() matches Some(s) ==> reads::<N>(&s, t),
    {
        match &self.source {
            None => system_now(),
            Some(s) => s.now(),
        }
    }

    /// Installs `source` in place of the current one.
    pub fn use_source(&mut self, source: N)
        ensures
            final(self).source() == Some(source),
    {
        self.source = Some(source);
    }

    /// Removes the installed source, so that the clock reads the system time.
    pub fn use_system_time(&mut self)
        ensures
            final(self).source() is None,
    {
        self.source = None;
    }

    /// Runs `f` with `source` installed in the clock, then puts back the
    /// source that was installed before, and returns what `f` returned. The
    /// previous source is put back when `f` returns normally; if `f` panics,
    /// `source` stays installed.
    pub fn with_source<T, F: FnOnce(&Clock<N>) -> T>(&mut self, source: N, f: F) -> (r: T)
        requires
            f.requires((&Self::installed(source),)),
        ensures
            f.ensures((&Self::installed(source),), r),
            final(self).source() == old(self).source(),
    {
        let mut saved = Some(source);
        std::mem::swap(&mut saved, &mut self.source);
        let r = f(&*self);
        std::mem::swap(&mut saved, &mut self.source);
        r
    }
}

/// The current system time: what a clock without an installed source
/// reads. A thread's installed clock is kept by the caller, which hands its
/// reading to the functions that take an instant.
pub fn now() -> Instant {
    system_now()
}

} // verus!
