//! The opened device: the root from which every other resource is made.

use vstd::prelude::*;
use crate::cq::{CompChannel, CompletionQueue};
use crate::error::Error;
use crate::pd::ProtectionDomain;
use crate::qp::{created, QueuePair, QueuePairOptions};
use crate::resource::{
    can_depend_on, fresh, holds_handle, with_handle, ResourceKind, ResourceTable,
};

verus! {

/// A handle on an opened device.
pub struct Context {
    id: usize,
}

impl Context {
    /// The slot of the resource table that this handle is on.
    pub closed spec fn view(&self) -> usize {
        self.id
    }

    pub fn id(&self) -> (id: usize)
        ensures
            id == self@,
    {
        self.id
    }

    /// Enters the device that the driver opened. A null token means that it
    /// could not be opened.
    pub fn open(table: &mut ResourceTable, token: usize) -> (r: Result<Context, Error>)
        requires
            old(table).wf(),
        ensures
            final(table).wf(),
            r is Ok <==> token != 0,
            r matches Ok(ctx) ==> ctx@ == old(table)@.len() && final(table)@ == old(table)@.push(
                fresh(ResourceKind::Context, token, Seq::empty()),
            ),
            r matches Err(e) ==> final(table)@ == old(table)@ && (e matches Error::ResourceCreationFailed {
                context,
            } && context@ == "failed to open device"@),
    {
        match table.create_resource(ResourceKind::Context, token, Vec::new(), "failed to open device") {
            Ok(id) => Ok(Context { id }),
            Err(e) => Err(e),
        }
    }

    /// Takes one more handle on the device, as cloning the handle does.
    pub fn share(&self, table: &mut ResourceTable) -> (r: Result<Context, Error>)
        requires
            old(table).wf(),
        ensures
            final(table).wf(),
            r is Ok <==> holds_handle(old(table)@, self@ as int) && old(table)@[self@ as int].handles
                < usize::MAX,
            r matches Ok(ctx) ==> ctx@ == self@ && final(table)@ == with_handle(old(table)@, self@ as int),
            r is Err ==> r->Err_0 is InvalidArgument && final(table)@ == old(table)@,
    {
        match table.acquire(self.id) {
            Ok(()) => Ok(Context { id: self.id }),
            Err(e) => Err(e),
        }
    }

    /// See [`ProtectionDomain::allocate`].
    pub fn alloc_pd(&self, table: &mut ResourceTable, token: usize) -> (r: Result<ProtectionDomain, Error>)
        requires
            old(table).wf(),
        ensures
            final(table).wf(),
            r is Ok <==> token != 0 && can_depend_on(old(table)@, seq![self@]),
            r matches Ok(pd) ==> pd@ == old(table)@.len() && final(table)@ == old(table)@.push(
                fresh(ResourceKind::ProtectionDomain, token, seq![self@]),
            ),
            r matches Err(e) ==> final(table)@ == old(table)@ && if token == 0 {
                e matches Error::ResourceCreationFailed { context } && context@
                    == "failed to allocate protection domain"@
            } else {
                e is InvalidArgument
            },
    {
        ProtectionDomain::allocate(table, self, token)
    }

    /// See [`CompChannel::create`].
    pub fn create_cc(&self, table: &mut ResourceTable, token: usize) -> (r: Result<CompChannel, Error>)
        requires
            old(table).wf(),
        ensures
            final(table).wf(),
            r is Ok <==> token != 0 && can_depend_on(old(table)@, seq![self@]),
            r matches Ok(cc) ==> cc@ == old(table)@.len() && final(table)@ == old(table)@.push(
                fresh(ResourceKind::CompletionChannel, token, seq![self@]),
            ),
            r matches Err(e) ==> final(table)@ == old(table)@ && if token == 0 {
                e matches Error::ResourceCreationFailed { context } && context@
                    == "failed to create completion channel"@
            } else {
                e is InvalidArgument
            },
    {
        CompChannel::create(table, self, token)
    }

    /// See [`CompletionQueue::create`].
    pub fn create_cq(&self, table: &mut ResourceTable, cqe: usize, user_data: usize, token: usize) -> (r: Result<
        CompletionQueue,
        Error,
    >)
        requires
            old(table).wf(),
        ensures
            final(table).wf(),
            r is Ok <==> token != 0 && can_depend_on(old(table)@, seq![self@]),
            r matches Ok(cq) ==> cq@ == old(table)@.len() && cq.capacity() == cqe && cq.user_data() == user_data
                && final(table)@ == old(table)@.push(
                fresh(ResourceKind::CompletionQueue, token, seq![self@]),
            ),
            r matches Err(e) ==> final(table)@ == old(table)@ && if token == 0 {
                e matches Error::ResourceCreationFailed { context } && context@
                    == "failed to create completion queue"@
            } else {
                e is InvalidArgument
            },
    {
        CompletionQueue::create(table, self, cqe, user_data, token)
    }

    /// See [`CompletionQueue::create_with_cc`].
    pub fn create_cq_with_cc(
        &self,
        table: &mut ResourceTable,
        cqe: usize,
        user_data: usize,
        cc: &CompChannel,
        token: usize,
    ) -> (r: Result<CompletionQueue, Error>)
        requires
            old(table).wf(),
        ensures
            final(table).wf(),
            r is Ok <==> token != 0 && can_depend_on(old(table)@, seq![self@, cc@]),
            r matches Ok(cq) ==> cq@ == old(table)@.len() && cq.capacity() == cqe && cq.user_data() == user_data
                && final(table)@ == old(table)@.push(
                fresh(ResourceKind::CompletionQueue, token, seq![self@, cc@]),
            ),
            r matches Err(e) ==> final(table)@ == old(table)@ && if token == 0 {
                e matches Error::ResourceCreationFailed { context } && context@
                    == "failed to create completion queue"@
            } else {
                e is InvalidArgument
            },
    {
        CompletionQueue::create_with_cc(table, self, cqe, user_data, cc, token)
    }
    /// See [`QueuePair::create`].
    pub fn create_qp(&self, table: &mut ResourceTable, options: QueuePairOptions, token: usize, qp_num: u32) -> (r:
        Result<QueuePair, Error>)
        requires
            old(table).wf(),
        ensures
            final(table).wf(),
            r is Ok <==> options.one_receive_path() && token != 0 && can_depend_on(
                old(table)@,
                options.dependencies(),
            ),
            r matches Ok(qp) ==> qp@ == created(old(table)@.len(), options, qp_num) && final(table)@ == old(
                table,
            )@.push(fresh(ResourceKind::QueuePair, token, options.dependencies())),
            r matches Err(e) ==> final(table)@ == old(table)@ && if options.one_receive_path() && token == 0 {
                e matches Error::ResourceCreationFailed { context } && context@ == "failed to create queue pair"@
            } else {
                e is InvalidArgument
            },
    {
        QueuePair::create(table, options, token, qp_num)
    }
}

} // verus!
