use vstd::prelude::*;

verus! {

/// A handle for one occupied slot of the concurrency budget. It can only be
/// minted by [`AdmissionController::acquire`], and releasing it consumes it,
/// so a token is released at most once.
pub struct AdmissionToken {
    _sealed: (),
}

/// Bounds the number of requests concurrently executing inside the pipeline.
/// The policy is immediate rejection: a caller beyond the limit is turned
/// away without blocking.
pub struct AdmissionController {
    /// The configured budget `N`.
    pub limit: usize,
    /// How many tokens are currently outstanding.
    pub active: usize,
}

impl AdmissionController {
    /// The budget invariant: outstanding tokens never exceed the limit.
    pub open spec fn inv(&self) -> bool {
        self.active <= self.limit
    }

    /// The state after a successful admission: one more slot occupied.
    pub open spec fn admitted_spec(&self) -> AdmissionController {
        AdmissionController { limit: self.limit, active: (self.active + 1) as usize }
    }

    /// The state after a token comes back: one slot freed.
    pub open spec fn released_spec(&self) -> AdmissionController {
        AdmissionController { limit: self.limit, active: (self.active - 1) as usize }
    }

    /// A fresh controller with the whole budget free.
    pub fn new(limit: usize) -> (c: AdmissionController)
        ensures
            c.inv(),
            c.limit == limit,
            c.active == 0,
    {
        AdmissionController { limit, active: 0 }
    }

    /// Admit the caller if a slot is free, occupying it; otherwise reject
    /// immediately. A token is handed out exactly when the budget was not
    /// exhausted.
    pub fn acquire(&mut self) -> (token: Option<AdmissionToken>)
        requires
            old(self).inv(),
        ensures
            final(self).inv(),
            token is Some <==> old(self).active < old(self).limit,
            token is Some ==> *final(self) == old(self).admitted_spec(),
            token is None ==> *final(self) == *old(self),
    {
        if self.active < self.limit {
            self.active = self.active + 1;
            Some(AdmissionToken { _sealed: () })
        } else {
            None
        }
    }

    /// Give a token back, freeing its slot. Taking the token by value means
    /// it cannot be released twice; a slot is never double-decremented.
    pub fn release(&mut self, token: AdmissionToken)
        requires
            old(self).inv(),
            old(self).active > 0,
        ensures
            final(self).inv(),
            *final(self) == old(self).released_spec(),
    {
        let AdmissionToken { _sealed: () } = token;
        self.active = self.active - 1;
    }

    /// How many tokens are outstanding right now.
    pub fn active_count(&self) -> (n: usize)
        ensures
            n == self.active,
    {
        self.active
    }
}

/// Law: the budget is never exceeded — in every state satisfying the
/// invariant the outstanding count is at most the limit, and each admission
/// or release step preserves the invariant, so no interleaving of steps can
/// push the count past `N`.
pub proof fn lemma_budget_never_exceeded(c: AdmissionController)
    requires
        c.inv(),
    ensures
        c.active <= c.limit,
        c.active < c.limit ==> c.admitted_spec().inv(),
        c.active > 0 ==> c.released_spec().inv(),
{
}

/// Law: admitting a request and then releasing its token restores the
/// controller exactly — one acquire/release pair is balanced, so the budget
/// fully recovers whatever the request's outcome was.
pub proof fn lemma_token_round_trip(c: AdmissionController)
    requires
        c.inv(),
        c.active < c.limit,
    ensures
        c.admitted_spec().released_spec() == c,
{
}

} // verus!
