//! Build-once framebuffer caching. A pass's framebuffer is built the first
//! time it is needed and reused until the caller invalidates it, which it
//! must do whenever the attachments are recreated.
use vstd::prelude::*;

verus! {

/// Holds at most one built framebuffer (or any other value built from the
/// current attachments).
#[derive(Debug)]
pub struct FramebufferCache<T> {
    pub cached: Option<T>,
}

impl<T> FramebufferCache<T> {
    /// What `ensure_built` does when `fresh` is what a build would produce:
    /// whether it builds, and the cache afterwards.
    pub open spec fn ensure_outcome(self, fresh: T) -> (bool, FramebufferCache<T>) {
        match self.cached {
            Some(_) => (false, self),
            None => (true, FramebufferCache { cached: Some(fresh) }),
        }
    }

    /// The cache after `invalidate`.
    pub open spec fn invalidated(self) -> FramebufferCache<T> {
        FramebufferCache { cached: None }
    }

    /// An empty cache: the first `ensure_built` builds.
    pub fn new() -> (r: FramebufferCache<T>)
        ensures
            r.cached is None,
    {
        FramebufferCache { cached: None }
    }

    /// Whether a framebuffer is held.
    pub fn is_built(&self) -> (r: bool)
        ensures
            r == self.cached is Some,
    {
        self.cached.is_some()
    }

    /// Drops the held framebuffer, so that the next `ensure_built` builds anew.
    pub fn invalidate(&mut self)
        ensures
            *final(self) == old(self).invalidated(),
    {
        self.cached = None;
    }

    /// Builds with `build` if nothing is held; otherwise keeps what is held
    /// and does not call `build`. Returns whether it built.
    pub fn ensure_built<F: FnOnce() -> T>(&mut self, build: F) -> (built: bool)
        requires
            old(self).cached is None ==> build.requires(()),
        ensures
            final(self).cached matches Some(v) && (built, *final(self)) == old(self).ensure_outcome(v),
            built ==> build.ensures((), final(self).cached->Some_0),
    {
        if self.cached.is_some() {
            false
        } else {
            let fresh = build();
            self.cached = Some(fresh);
            true
        }
    }

    /// The held framebuffer, if any.
    pub fn get(&self) -> (r: Option<&T>)
        ensures
            r == match self.cached {
                Some(v) => Some(&v),
                None => None::<&T>,
            },
    {
        match &self.cached {
            Some(v) => Some(v),
            None => None,
        }
    }
}

/// The cache after two `ensure_built` calls that would produce `v1` and `v2`.
pub open spec fn second_of<T>(c: FramebufferCache<T>, v1: T, v2: T) -> FramebufferCache<T> {
    c.ensure_outcome(v1).1.ensure_outcome(v2).1
}

/// Building is idempotent until invalidated: a second `ensure_built` on a
/// filled cache builds nothing and keeps the very value of the first, and
/// after an invalidation the next call builds exactly once, the one after
/// that not at all.
pub proof fn lemma_build_once<T>(c: FramebufferCache<T>, v1: T, v2: T, v3: T)
    ensures
        ({
            let (_, first) = c.ensure_outcome(v1);
            let (again, second) = first.ensure_outcome(v2);
            !again && second == first
        }),
        ({
            let (rebuilt, refilled) = second_of(c, v1, v2).invalidated().ensure_outcome(v2);
            let (again, after) = refilled.ensure_outcome(v3);
            rebuilt && refilled.cached == Some(v2) && !again && after == refilled
        }),
{
}

} // verus!
