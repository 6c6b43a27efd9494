use crate::error::BibErrorResponse;
use crate::lending::Tenant;
use vstd::prelude::*;

verus! {

/// One provisioned tenant under its name.
pub struct TenantEntry {
    pub name: String,
    pub tenant: Tenant,
}

/// The tenants a process serves, each under a distinct name.
pub struct TenantRegistry {
    pub entries: Vec<TenantEntry>,
}

impl TenantRegistry {
    /// No two entries share a name.
    pub open spec fn wf(&self) -> bool {
        forall|i: int, j: int|
            0 <= i < j < self.entries@.len() ==> #[trigger] self.entries@[i].name@
                != #[trigger] self.entries@[j].name@
    }

    /// Whether a tenant is provisioned under `name`.
    pub open spec fn has(&self, name: Seq<char>) -> bool {
        exists|i: int| 0 <= i < self.entries@.len() && #[trigger] self.entries@[i].name@ == name
    }

    pub fn new() -> (r: Self)
        ensures
            r.wf(),
            r.entries@.len() == 0,
    {
        TenantRegistry { entries: Vec::new() }
    }

    /// Position of the tenant provisioned under `name`.
    pub fn find(&self, name: &str) -> (r: Option<usize>)
        ensures
            r is Some ==> r->0 < self.entries@.len() && self.entries@[r->0 as int].name@ == name@,
            r is None <==> !self.has(name@),
    {
        let wanted = name.to_owned();
        let mut i: usize = 0;
        while i < self.entries.len()
            invariant
                i <= self.entries@.len(),
                wanted@ == name@,
                forall|j: int| 0 <= j < i ==> #[trigger] self.entries@[j].name@ != name@,
            decreases self.entries@.len() - i,
        {
            if self.entries[i].name == wanted {
                return Some(i);
            }
            i = i + 1;
        }
        None
    }

    /// Position of the tenant a request names; an unknown tenant is not authorized.
    pub fn resolve(&self, name: &str) -> (r: Result<usize, BibErrorResponse>)
        ensures
            r is Ok ==> r->Ok_0 < self.entries@.len() && self.entries@[r->Ok_0 as int].name@
                == name@,
            r is Err <==> !self.has(name@),
            r is Err ==> r == Err::<usize, BibErrorResponse>(BibErrorResponse::NotAuthorized),
    {
        match self.find(name) {
            Some(i) => Ok(i),
            None => Err(BibErrorResponse::NotAuthorized),
        }
    }

    /// The tenant at position `i`, to work on in place.
    pub fn tenant_at_mut(&mut self, i: usize) -> (t: &mut Tenant)
        requires
            i < old(self).entries@.len(),
        ensures
            *t == old(self).entries@[i as int].tenant,
            final(self).entries@.len() == old(self).entries@.len(),
            final(self).entries@[i as int].tenant == *final(t),
            final(self).entries@[i as int].name == old(self).entries@[i as int].name,
            forall|j: int|
                0 <= j < old(self).entries@.len() && j != i ==> #[trigger] final(self).entries@[j]
                    == old(self).entries@[j],
    {
        &mut self.entries[i].tenant
    }

    /// Provisions `tenant` under `name`, in place of any tenant already there.
    pub fn provision(&mut self, name: String, tenant: Tenant)
        requires
            old(self).wf(),
        ensures
            final(self).wf(),
            final(self).has(name@),
            old(self).has(name@) ==> exists|i: int|
                0 <= i < old(self).entries@.len() && #[trigger] old(self).entries@[i].name@ == name@
                    && final(self).entries@ == old(self).entries@.update(
                    i,
                    TenantEntry { name, tenant },
                ),
            !old(self).has(name@) ==> final(self).entries@ == old(self).entries@.push(
                TenantEntry { name, tenant },
            ),
    {
        let ghost given = name;
        match self.find(name.as_str()) {
            Some(i) => {
                self.entries.set(i, TenantEntry { name, tenant });
                assert(self.entries@[i as int].name@ == given@);
            },
            None => {
                let ghost n = self.entries@.len() as int;
                self.entries.push(TenantEntry { name, tenant });
                assert(self.entries@[n].name@ == given@);
            },
        }
    }

    /// Tears down the tenant provisioned under `name`, handing it back.
    pub fn deprovision(&mut self, name: &str) -> (r: Option<Tenant>)
        requires
            old(self).wf(),
        ensures
            final(self).wf(),
            r is None <==> !old(self).has(name@),
            !final(self).has(name@),
            r is Some ==> exists|i: int|
                0 <= i < old(self).entries@.len() && #[trigger] old(self).entries@[i].name@ == name@
                    && old(self).entries@[i].tenant == r->0
                    && final(self).entries@ == old(self).entries@.remove(i),
            r is None ==> final(self).entries@ == old(self).entries@,
    {
        match self.find(name) {
            Some(i) => {
                let ghost before = self.entries@;
                let entry = self.entries.remove(i);
                proof {
                    assert forall|a: int, b: int|
                        0 <= a < b < self.entries@.len() implies #[trigger] self.entries@[a].name@
                        != #[trigger] self.entries@[b].name@ by {
                        let aa = if a < i { a } else { a + 1 };
                        let bb = if b < i { b } else { b + 1 };
                        assert(self.entries@[a] == before[aa]);
                        assert(self.entries@[b] == before[bb]);
                    }
                    if self.has(name@) {
                        let k = choose|k: int|
                            0 <= k < self.entries@.len() && #[trigger] self.entries@[k].name@ == name@;
                        let kk = if k < i { k } else { k + 1 };
                        assert(self.entries@[k] == before[kk]);
                    }
                }
                Some(entry.tenant)
            },
            None => None,
        }
    }
}

} // verus!
