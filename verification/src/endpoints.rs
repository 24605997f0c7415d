//! In-memory CRUD over camera endpoint definitions. Loading from and
//! saving to disk happen outside this crate; the manager owns only the
//! list and its lookup and update rules.

use crate::types::CameraEndpoint;
use vstd::prelude::*;
use vstd::string::*;

verus! {

/// Whether some endpoint of `s` carries the id.
pub open spec fn has_endpoint(s: Seq<CameraEndpoint>, id: Seq<char>) -> bool {
    exists|i: int| 0 <= i < s.len() && (#[trigger] s[i]).id@ == id
}

/// `i` is the position of the first endpoint of `s` carrying the id.
pub open spec fn first_endpoint_at(s: Seq<CameraEndpoint>, id: Seq<char>, i: int) -> bool {
    &&& 0 <= i < s.len()
    &&& s[i].id@ == id
    &&& forall|j: int| 0 <= j < i ==> (#[trigger] s[j]).id@ != id
}

/// Manages the set of configured camera endpoints.
pub struct EndpointManager {
    endpoints: Vec<CameraEndpoint>,
}

impl EndpointManager {
    /// The stored endpoints, in order.
    pub closed spec fn endpoints_spec(&self) -> Seq<CameraEndpoint> {
        self.endpoints@
    }

    /// An empty manager.
    pub fn new() -> (m: Self)
        ensures
            m.endpoints_spec() == Seq::<CameraEndpoint>::empty(),
    {
        EndpointManager { endpoints: Vec::new() }
    }

    /// All endpoints, in order.
    pub fn get_all(&self) -> (r: Vec<CameraEndpoint>)
        ensures
            r@ == self.endpoints_spec(),
    {
        let mut out: Vec<CameraEndpoint> = Vec::new();
        let n = self.endpoints.len();
        let mut i: usize = 0;
        while i < n
            invariant
                n == self.endpoints@.len(),
                0 <= i <= n,
                out@ =~= self.endpoints@.subrange(0, i as int),
            decreases n - i,
        {
            out.push(self.endpoints[i].clone());
            i = i + 1;
        }
        proof {
            assert(out@ =~= self.endpoints_spec());
        }
        out
    }

    /// The first endpoint carrying the id, if any.
    pub fn get(&self, id: &str) -> (r: Option<CameraEndpoint>)
        ensures
            r is Some <==> has_endpoint(self.endpoints_spec(), id@),
            r matches Some(e) ==> exists|i: int|
                first_endpoint_at(self.endpoints_spec(), id@, i) && e == self.endpoints_spec()[i],
    {
        let wanted = id.to_owned();
        let n = self.endpoints.len();
        let mut i: usize = 0;
        while i < n
            invariant
                n == self.endpoints@.len(),
                0 <= i <= n,
                wanted@ == id@,
                forall|j: int| 0 <= j < i ==> (#[trigger] self.endpoints@[j]).id@ != id@,
            decreases n - i,
        {
            if self.endpoints[i].id == wanted {
                return Some(self.endpoints[i].clone());
            }
            i = i + 1;
        }
        None
    }

    /// Append a new endpoint; ids are not checked for uniqueness here.
    pub fn create(&mut self, endpoint: CameraEndpoint) -> (r: Result<CameraEndpoint, String>)
        ensures
            final(self).endpoints_spec() == old(self).endpoints_spec().push(endpoint),
            r matches Ok(e) && e == endpoint,
    {
        let copy = endpoint.clone();
        self.endpoints.push(endpoint);
        Ok(copy)
    }

    /// Replace the first endpoint carrying the same id; an unknown id
    /// is an error and leaves the set unchanged.
    pub fn update(&mut self, endpoint: CameraEndpoint) -> (r: Result<CameraEndpoint, String>)
        ensures
            r is Ok <==> has_endpoint(old(self).endpoints_spec(), endpoint.id@),
            r matches Ok(e) ==> e == endpoint && exists|i: int|
                first_endpoint_at(old(self).endpoints_spec(), endpoint.id@, i)
                    && final(self).endpoints_spec() == old(self).endpoints_spec().update(
                    i,
                    endpoint,
                ),
            r matches Err(m) ==> m@ == "Endpoint not found"@ && *final(self) == *old(self),
    {
        let n = self.endpoints.len();
        let mut i: usize = 0;
        while i < n
            invariant
                n == self.endpoints@.len(),
                0 <= i <= n,
                self == old(self),
                forall|j: int| 0 <= j < i ==> (#[trigger] self.endpoints@[j]).id@ != endpoint.id@,
            decreases n - i,
        {
            if self.endpoints[i].id == endpoint.id {
                let copy = endpoint.clone();
                self.endpoints.set(i, endpoint);
                return Ok(copy);
            }
            i = i + 1;
        }
        Err(String::from_str("Endpoint not found"))
    }

    /// Remove the first endpoint carrying the id; an unknown id is an
    /// error and leaves the set unchanged.
    pub fn delete(&mut self, id: &str) -> (r: Result<(), String>)
        ensures
            r is Ok <==> has_endpoint(old(self).endpoints_spec(), id@),
            r is Ok ==> exists|i: int|
                first_endpoint_at(old(self).endpoints_spec(), id@, i)
                    && final(self).endpoints_spec() == old(self).endpoints_spec().remove(i),
            r matches Err(m) ==> m@ == "Endpoint not found"@ && *final(self) == *old(self),
    {
        let wanted = id.to_owned();
        let n = self.endpoints.len();
        let mut i: usize = 0;
        while i < n
            invariant
                n == self.endpoints@.len(),
                0 <= i <= n,
                wanted@ == id@,
                self == old(self),
                forall|j: int| 0 <= j < i ==> (#[trigger] self.endpoints@[j]).id@ != id@,
            decreases n - i,
        {
            if self.endpoints[i].id == wanted {
                self.endpoints.remove(i);
                return Ok(());
            }
            i = i + 1;
        }
        Err(String::from_str("Endpoint not found"))
    }
}

} // verus!
