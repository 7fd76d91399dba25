use vstd::prelude::*;

verus! {

/// The metadata key that names the namespace of a request.
pub const NAMESPACE_KEY: &'static str = "containerd-namespace";

/// The metadata key that names the lease a request runs under.
pub const LEASE_KEY: &'static str = "containerd-lease";

/// The request that releases a lease: `id` and `sync` form its body, the
/// namespace travels as metadata beside the lease id.
pub struct DeleteLease {
    pub id: String,
    pub sync: bool,
    pub namespace: String,
}

impl DeleteLease {
    /// The transport metadata of this request: its namespace and its lease.
    pub fn metadata(&self) -> (r: Vec<(String, String)>)
        ensures
            r@.len() == 2,
            r@[0].0@ == NAMESPACE_KEY@,
            r@[0].1@ == self.namespace@,
            r@[1].0@ == LEASE_KEY@,
            r@[1].1@ == self.id@,
    {
        with_lease(self.namespace.as_str(), self.id.as_str())
    }
}

/// The metadata that places a request in namespace `namespace` under the
/// lease `lease_id`.
pub fn with_lease(namespace: &str, lease_id: &str) -> (r: Vec<(String, String)>)
    ensures
        r@.len() == 2,
        r@[0].0@ == NAMESPACE_KEY@,
        r@[0].1@ == namespace@,
        r@[1].0@ == LEASE_KEY@,
        r@[1].1@ == lease_id@,
{
    let mut md: Vec<(String, String)> = Vec::new();
    md.push((String::from_str(NAMESPACE_KEY), String::from_str(namespace)));
    md.push((String::from_str(LEASE_KEY), String::from_str(lease_id)));
    md
}

/// A lease held with the garbage collector. Its release request is handed
/// out exactly once, whether the guard is released on purpose or on drop;
/// its id stays readable afterwards.
pub struct LeaseGuard {
    id: String,
    namespace: String,
    released: bool,
}

impl LeaseGuard {
    pub closed spec fn id_spec(&self) -> Seq<char> {
        self.id@
    }

    pub closed spec fn namespace_spec(&self) -> Seq<char> {
        self.namespace@
    }

    pub closed spec fn released_spec(&self) -> bool {
        self.released
    }

    /// A guard for the lease `id` of namespace `namespace`, not released.
    pub fn new(id: String, namespace: String) -> (r: LeaseGuard)
        ensures
            r.id_spec() == id@,
            r.namespace_spec() == namespace@,
            !r.released_spec(),
    {
        LeaseGuard { id, namespace, released: false }
    }

    /// The lease id.
    pub fn id(&self) -> (r: &str)
        ensures
            r@ == self.id_spec(),
    {
        self.id.as_str()
    }

    /// Whether the release request has been handed out.
    pub fn is_released(&self) -> (r: bool)
        ensures
            r == self.released_spec(),
    {
        self.released
    }

    /// Hands out the request that releases the lease, the first time only;
    /// every later call hands out nothing. The guard is released afterwards.
    pub fn release(&mut self) -> (r: Option<DeleteLease>)
        ensures
            final(self).id_spec() == old(self).id_spec(),
            final(self).namespace_spec() == old(self).namespace_spec(),
            final(self).released_spec(),
            old(self).released_spec() ==> r is None,
            !old(self).released_spec() ==> (r matches Some(req) && req.id@ == old(self).id_spec()
                && req.namespace@ == old(self).namespace_spec() && !req.sync),
    {
        if self.released {
            None
        } else {
            self.released = true;
            Some(DeleteLease { id: self.id.clone(), sync: false, namespace: self.namespace.clone() })
        }
    }
}

/// How many release requests `n` calls of `release` hand out, from a guard
/// that is released already or not.
pub open spec fn requests_handed_out(released: bool, n: nat) -> nat
    decreases n,
{
    if n == 0 {
        0
    } else {
        (if released { 0nat } else { 1nat }) + requests_handed_out(true, (n - 1) as nat)
    }
}

/// However often a guard is released, by the owner or on drop, at most
/// one release request leaves it, and an unreleased guard hands out
/// exactly one as soon as it is released at all.
pub proof fn lemma_release_at_most_once(released: bool, n: nat)
    ensures
        requests_handed_out(released, n) <= 1,
        !released && n >= 1 ==> requests_handed_out(released, n) == 1,
        released ==> requests_handed_out(released, n) == 0,
    decreases n,
{
    if n > 0 {
        lemma_release_at_most_once(true, (n - 1) as nat);
    }
}

} // verus!
