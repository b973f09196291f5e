use vstd::prelude::*;

verus! {

/// `std::time::Instant`, a point on the monotonic clock, carried as is.
#[verifier::external_type_specification]
#[verifier::external_body]
pub struct ExInstant(std::time::Instant);

/// Reads the monotonic clock (`Instant::now`). Nothing is claimed of the
/// value: it depends on when the call is made.
#[verifier::external_body]
fn now() -> (r: std::time::Instant) {
    std::time::Instant::now()
}

/// A pooled database connection with the number the pool gave it, so that
/// its connect, broken and drop events can be told apart in the log, and the
/// moment it was connected.
pub struct LoggedConnection<C> {
    id: u64,
    connected_at: std::time::Instant,
    inner: C,
}

impl<C> LoggedConnection<C> {
    /// The connection's number.
    pub closed spec fn spec_id(&self) -> u64 {
        self.id
    }

    /// The connection it wraps.
    pub closed spec fn spec_inner(&self) -> C {
        self.inner
    }

    /// When the connection was made.
    pub closed spec fn spec_connected_at(&self) -> std::time::Instant {
        self.connected_at
    }

    /// Wraps connection `inner`, numbered `id`, connected now.
    pub fn new(id: u64, inner: C) -> (r: LoggedConnection<C>)
        ensures
            r.spec_id() == id,
            r.spec_inner() == inner,
    {
        LoggedConnection { id, connected_at: now(), inner }
    }

    /// The connection's number.
    pub fn id(&self) -> (r: u64)
        ensures
            r == self.spec_id(),
    {
        self.id
    }

    /// When the connection was made.
    pub fn connected_at(&self) -> (r: std::time::Instant)
        ensures
            r == self.spec_connected_at(),
    {
        self.connected_at
    }

    /// The connection it wraps.
    pub fn inner(&self) -> (r: &C)
        ensures
            *r == self.spec_inner(),
    {
        &self.inner
    }

    /// The connection it wraps, for use.
    pub fn inner_mut(&mut self) -> (r: &mut C)
        ensures
            *r == old(self).spec_inner(),
            final(self).spec_id() == old(self).spec_id(),
            final(self).spec_connected_at() == old(self).spec_connected_at(),
            final(self).spec_inner() == *final(r),
    {
        &mut self.inner
    }
}

} // verus!
