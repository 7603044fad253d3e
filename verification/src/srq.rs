//! Shared receive queues.

use vstd::prelude::*;
use crate::error::Error;
use crate::pd::ProtectionDomain;
use crate::resource::{
    can_depend_on, fresh, holds_handle, with_handle, ResourceKind, ResourceTable,
};

verus! {

/// A handle on a shared receive queue.
pub struct SharedReceiveQueue {
    id: usize,
}

impl SharedReceiveQueue {
    /// The slot of the resource table that this handle is on.
    pub closed spec fn view(&self) -> usize {
        self.id
    }

    pub fn id(&self) -> (id: usize)
        ensures
            id == self@,
    {
        self.id
    }

    /// Takes one more handle on the queue, as cloning the handle does.
    pub fn share(&self, table: &mut ResourceTable) -> (r: Result<SharedReceiveQueue, Error>)
        requires
            old(table).wf(),
        ensures
            final(table).wf(),
            r is Ok <==> holds_handle(old(table)@, self@ as int) && old(table)@[self@ as int].handles
                < usize::MAX,
            r matches Ok(h) ==> h@ == self@ && final(table)@ == with_handle(old(table)@, self@ as int),
            r is Err ==> r->Err_0 is InvalidArgument && final(table)@ == old(table)@,
    {
        match table.acquire(self.id) {
            Ok(()) => Ok(SharedReceiveQueue { id: self.id }),
            Err(e) => Err(e),
        }
    }

    /// Enters the queue that the driver created in `pd`, which it keeps
    /// alive from now on. A null token means that the creation failed.
    pub fn create(table: &mut ResourceTable, pd: &ProtectionDomain, token: usize) -> (r: Result<
        SharedReceiveQueue,
        Error,
    >)
        requires
            old(table).wf(),
        ensures
            final(table).wf(),
            r is Ok <==> token != 0 && can_depend_on(old(table)@, seq![pd@]),
            r matches Ok(srq) ==> srq@ == old(table)@.len() && final(table)@ == old(table)@.push(
                fresh(ResourceKind::SharedReceiveQueue, token, seq![pd@]),
            ),
            r matches Err(e) ==> final(table)@ == old(table)@ && if token == 0 {
                e matches Error::ResourceCreationFailed { context } && context@
                    == "failed to create shared receive queue"@
            } else {
                e is InvalidArgument
            },
    {
        let mut deps: Vec<usize> = Vec::new();
        deps.push(pd.id());
        assert(deps@ =~= seq![pd@]);
        match table.create_resource(
            ResourceKind::SharedReceiveQueue,
            token,
            deps,
            "failed to create shared receive queue",
        ) {
            Ok(id) => Ok(SharedReceiveQueue { id }),
            Err(e) => Err(e),
        }
    }
}

} // verus!
