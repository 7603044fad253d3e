//! The protection domain: the isolation boundary that memory registrations,
//! queue pairs, windows and address handles belong to.

use vstd::prelude::*;
use crate::ctx::Context;
use crate::error::Error;
use crate::resource::{
    can_depend_on, fresh, holds_handle, with_handle, ResourceKind, ResourceTable,
};

verus! {

/// A handle on a protection domain.
pub struct ProtectionDomain {
    id: usize,
}

impl ProtectionDomain {
    /// The slot of the resource table that this handle is on.
    pub closed spec fn view(&self) -> usize {
        self.id
    }

    pub fn id(&self) -> (id: usize)
        ensures
            id == self@,
    {
        self.id
    }

    /// Takes one more handle on the domain, as cloning the handle does.
    pub fn share(&self, table: &mut ResourceTable) -> (r: Result<ProtectionDomain, Error>)
        requires
            old(table).wf(),
        ensures
            final(table).wf(),
            r is Ok <==> holds_handle(old(table)@, self@ as int) && old(table)@[self@ as int].handles
                < usize::MAX,
            r matches Ok(h) ==> h@ == self@ && final(table)@ == with_handle(old(table)@, self@ as int),
            r is Err ==> r->Err_0 is InvalidArgument && final(table)@ == old(table)@,
    {
        match table.acquire(self.id) {
            Ok(()) => Ok(ProtectionDomain { id: self.id }),
            Err(e) => Err(e),
        }
    }

    /// Enters the domain that the driver allocated on `ctx`, which it keeps
    /// open from now on. A null token means that the allocation failed.
    pub fn allocate(table: &mut ResourceTable, ctx: &Context, token: usize) -> (r: Result<ProtectionDomain, Error>)
        requires
            old(table).wf(),
        ensures
            final(table).wf(),
            r is Ok <==> token != 0 && can_depend_on(old(table)@, seq![ctx@]),
            r matches Ok(pd) ==> pd@ == old(table)@.len() && final(table)@ == old(table)@.push(
                fresh(ResourceKind::ProtectionDomain, token, seq![ctx@]),
            ),
            r matches Err(e) ==> final(table)@ == old(table)@ && if token == 0 {
                e matches Error::ResourceCreationFailed { context } && context@
                    == "failed to allocate protection domain"@
            } else {
                e is InvalidArgument
            },
    {
        let mut deps: Vec<usize> = Vec::new();
        deps.push(ctx.id());
        assert(deps@ =~= seq![ctx@]);
        match table.create_resource(
            ResourceKind::ProtectionDomain,
            token,
            deps,
            "failed to allocate protection domain",
        ) {
            Ok(id) => Ok(ProtectionDomain { id }),
            Err(e) => Err(e),
        }
    }
}

} // verus!
