//! The request-concurrency guard: bounded admission control per route
//! class.
//!
//! A guard holds a capacity and the number of in-flight permits. A request
//! either acquires a permit on entry or is shed immediately with the
//! overload status, before any validation runs, so unauthenticated flooding
//! cannot exhaust downstream resources. Every permit is released exactly
//! once, whatever the request's outcome; the contracts of `try_acquire` and
//! `release` pin the counter on every path, which rules out permit leaks in
//! verified callers. The caller serialises access to a guard (the counter
//! is process-wide shared state).

use vstd::prelude::*;

use crate::errors::AuthError;
use crate::identity::Identity;
use crate::middleware::AuthMiddlewareService;
use crate::middleware::spec_authenticate;
use crate::token::spec_opt_str_view;

verus! {

/// Capacity of the general route class.
pub const GENERAL_ROUTE_CAPACITY: usize = 5;

/// Capacity of the sensitive route class (administrative mutation).
pub const STRICT_ROUTE_CAPACITY: usize = 2;

/// The admission counter of one route class.
#[derive(Clone, Debug)]
pub struct RateLimitMiddleware {
    capacity: usize,
    in_flight: usize,
}

impl RateLimitMiddleware {
    /// The capacity this guard was built with.
    pub closed spec fn spec_capacity(&self) -> usize {
        self.capacity
    }

    /// How many permits are currently held.
    pub closed spec fn spec_in_flight(&self) -> usize {
        self.in_flight
    }

    /// The guard's invariant: never more permits out than capacity.
    pub open spec fn wf(&self) -> bool {
        self.spec_in_flight() <= self.spec_capacity()
    }

    /// A fresh guard with the given capacity and no permit out.
    pub fn new(capacity: usize) -> (guard: Self)
        ensures
            guard.spec_capacity() == capacity,
            guard.spec_in_flight() == 0,
            guard.wf(),
    {
        RateLimitMiddleware { capacity, in_flight: 0 }
    }

    /// The capacity this guard was built with.
    pub fn capacity(&self) -> (c: usize)
        ensures
            c == self.spec_capacity(),
    {
        self.capacity
    }

    /// How many permits are currently held.
    pub fn in_flight(&self) -> (n: usize)
        ensures
            n == self.spec_in_flight(),
    {
        self.in_flight
    }

    /// Admission: grants a permit exactly when a slot is free, and changes
    /// nothing when the guard is saturated.
    pub fn try_acquire(&mut self) -> (admitted: bool)
        requires
            old(self).wf(),
        ensures
            final(self).spec_capacity() == old(self).spec_capacity(),
            admitted == (old(self).spec_in_flight() < old(self).spec_capacity()),
            admitted ==> final(self).spec_in_flight() == old(self).spec_in_flight() + 1,
            !admitted ==> final(self).spec_in_flight() == old(self).spec_in_flight(),
            final(self).wf(),
    {
        if self.in_flight < self.capacity {
            self.in_flight = self.in_flight + 1;
            true
        } else {
            false
        }
    }

    /// Returns a permit. Callers hold a permit whenever they call this, so
    /// the counter is positive.
    pub fn release(&mut self)
        requires
            old(self).spec_in_flight() > 0,
        ensures
            final(self).spec_capacity() == old(self).spec_capacity(),
            final(self).spec_in_flight() == old(self).spec_in_flight() - 1,
            old(self).wf() ==> final(self).wf(),
    {
        self.in_flight = self.in_flight - 1;
    }
}

/// Configuration of the guard for one route class; applying it yields a
/// fresh admission counter.
#[derive(Clone, Debug)]
pub struct RateLimitLayer {
    /// How many requests of this route class may be in flight at once.
    pub capacity: usize,
}

impl RateLimitLayer {
    /// Builds the admission counter for this route class.
    pub fn layer(&self) -> (guard: RateLimitMiddleware)
        ensures
            guard.spec_capacity() == self.capacity,
            guard.spec_in_flight() == 0,
            guard.wf(),
    {
        RateLimitMiddleware::new(self.capacity)
    }
}

/// The guard configuration for general protected routes.
pub fn rate_limit_middleware() -> (layer: RateLimitLayer)
    ensures
        layer.capacity == GENERAL_ROUTE_CAPACITY,
{
    RateLimitLayer { capacity: GENERAL_ROUTE_CAPACITY }
}

/// The stricter guard configuration for sensitive routes.
pub fn strict_rate_limit_middleware() -> (layer: RateLimitLayer)
    ensures
        layer.capacity == STRICT_ROUTE_CAPACITY,
{
    RateLimitLayer { capacity: STRICT_ROUTE_CAPACITY }
}

/// How many of `requests` simultaneous requests a guard admits when
/// `in_flight` permits are already out: each arriving request takes a slot
/// if one is free and holds it, else it is shed.
pub open spec fn spec_admitted_count(capacity: nat, in_flight: nat, requests: nat) -> nat
    decreases requests,
{
    if requests == 0 {
        0
    } else if in_flight < capacity {
        1 + spec_admitted_count(capacity, in_flight + 1, (requests - 1) as nat)
    } else {
        spec_admitted_count(capacity, in_flight, (requests - 1) as nat)
    }
}

/// The admission count is exactly the free capacity, clipped by the number
/// of requests.
pub proof fn lemma_admission_count(capacity: nat, in_flight: nat, requests: nat)
    requires
        in_flight <= capacity,
    ensures
        spec_admitted_count(capacity, in_flight, requests) == if requests <= capacity - in_flight {
            requests
        } else {
            (capacity - in_flight) as nat
        },
    decreases requests,
{
    if requests > 0 {
        if in_flight < capacity {
            lemma_admission_count(capacity, in_flight + 1, (requests - 1) as nat);
        } else {
            lemma_admission_count(capacity, in_flight, (requests - 1) as nat);
        }
    }
}

/// Concurrency-guard law: a fresh guard of capacity N admits every batch of
/// at most N simultaneous requests in full, and of N + 1 simultaneous
/// requests it admits exactly N, shedding the rest.
pub proof fn lemma_guard_sheds_excess(capacity: nat)
    ensures
        spec_admitted_count(capacity, 0, capacity + 1) == capacity,
        forall|n: nat| n <= capacity ==> #[trigger] spec_admitted_count(capacity, 0, n) == n,
{
    lemma_admission_count(capacity, 0, capacity + 1);
    assert forall|n: nat| n <= capacity implies #[trigger] spec_admitted_count(capacity, 0, n)
        == n by {
        lemma_admission_count(capacity, 0, n);
    }
}

/// The middleware chain on one request, in its fixed order: the admission
/// guard first — a saturated guard sheds the request with the overload
/// status before any validation runs — then the token validator. On
/// admission followed by a validation failure the permit is returned at
/// once; on success the caller holds the permit until the request
/// completes and then calls `release`.
pub fn admit_and_authenticate(
    guard: &mut RateLimitMiddleware,
    auth: &AuthMiddlewareService,
    authorization: Option<&String>,
    now: u64,
) -> (r: Result<Identity, AuthError>)
    requires
        old(guard).wf(),
    ensures
        final(guard).spec_capacity() == old(guard).spec_capacity(),
        final(guard).wf(),
        old(guard).spec_in_flight() >= old(guard).spec_capacity() ==> r == Err::<
            Identity,
            AuthError,
        >(AuthError::Overloaded) && final(guard).spec_in_flight() == old(guard).spec_in_flight(),
        old(guard).spec_in_flight() < old(guard).spec_capacity() ==> r == spec_authenticate(
            spec_opt_str_view(authorization),
            auth.config.secret_key@,
            now,
        ),
        old(guard).spec_in_flight() < old(guard).spec_capacity() && r is Ok ==> final(guard)
            .spec_in_flight() == old(guard).spec_in_flight() + 1,
        old(guard).spec_in_flight() < old(guard).spec_capacity() && r is Err ==> final(guard)
            .spec_in_flight() == old(guard).spec_in_flight(),
{
    if !guard.try_acquire() {
        return Err(AuthError::Overloaded);
    }
    match auth.call(authorization, now) {
        Ok(identity) => Ok(identity),
        Err(e) => {
            guard.release();
            Err(e)
        },
    }
}

} // verus!
