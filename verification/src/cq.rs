//! Completion queues, the channels that announce their events, and the
//! records that they deliver.

use vstd::prelude::*;
use crate::bindings::{IBV_WC_SUCCESS, IBV_WC_WITH_IMM};
use crate::ctx::Context;
use crate::error::Error;
use crate::resource::{
    can_depend_on, fresh, holds_handle, with_handle, ResourceKind, ResourceTable,
};

verus! {

/// A handle on a completion channel.
pub struct CompChannel {
    id: usize,
}

impl CompChannel {
    /// The slot of the resource table that this handle is on.
    pub closed spec fn view(&self) -> usize {
        self.id
    }

    pub fn id(&self) -> (id: usize)
        ensures
            id == self@,
    {
        self.id
    }

    /// Takes one more handle on the channel, as cloning the handle does.
    pub fn share(&self, table: &mut ResourceTable) -> (r: Result<CompChannel, Error>)
        requires
            old(table).wf(),
        ensures
            final(table).wf(),
            r is Ok <==> holds_handle(old(table)@, self@ as int) && old(table)@[self@ as int].handles
                < usize::MAX,
            r matches Ok(h) ==> h@ == self@ && final(table)@ == with_handle(old(table)@, self@ as int),
            r is Err ==> r->Err_0 is InvalidArgument && final(table)@ == old(table)@,
    {
        match table.acquire(self.id) {
            Ok(()) => Ok(CompChannel { id: self.id }),
            Err(e) => Err(e),
        }
    }

    /// Enters the channel that the driver created on `ctx`. A null token
    /// means that the creation failed.
    pub fn create(table: &mut ResourceTable, ctx: &Context, token: usize) -> (r: Result<CompChannel, Error>)
        requires
            old(table).wf(),
        ensures
            final(table).wf(),
            r is Ok <==> token != 0 && can_depend_on(old(table)@, seq![ctx@]),
            r matches Ok(cc) ==> cc@ == old(table)@.len() && final(table)@ == old(table)@.push(
                fresh(ResourceKind::CompletionChannel, token, seq![ctx@]),
            ),
            r matches Err(e) ==> final(table)@ == old(table)@ && if token == 0 {
                e matches Error::ResourceCreationFailed { context } && context@
                    == "failed to create completion channel"@
            } else {
                e is InvalidArgument
            },
    {
        let mut deps: Vec<usize> = Vec::new();
        deps.push(ctx.id());
        assert(deps@ =~= seq![ctx@]);
        match table.create_resource(
            ResourceKind::CompletionChannel,
            token,
            deps,
            "failed to create completion channel",
        ) {
            Ok(id) => Ok(CompChannel { id }),
            Err(e) => Err(e),
        }
    }
}

/// A handle on a completion queue.
pub struct CompletionQueue {
    id: usize,
    cqe: usize,
    user_data: usize,
}

impl CompletionQueue {
    /// The slot of the resource table that this handle is on.
    pub closed spec fn view(&self) -> usize {
        self.id
    }

    pub closed spec fn spec_capacity(&self) -> usize {
        self.cqe
    }

    pub closed spec fn spec_user_data(&self) -> usize {
        self.user_data
    }

    pub fn id(&self) -> (id: usize)
        ensures
            id == self@,
    {
        self.id
    }

    /// The number of entries that the queue was asked to hold.
    #[verifier::when_used_as_spec(spec_capacity)]
    pub fn capacity(&self) -> (n: usize)
        ensures
            n == self.capacity(),
    {
        self.cqe
    }

    /// The opaque value that the application attached to the queue.
    #[verifier::when_used_as_spec(spec_user_data)]
    pub fn user_data(&self) -> (n: usize)
        ensures
            n == self.user_data(),
    {
        self.user_data
    }

    /// Takes one more handle on the queue, as cloning the handle does.
    pub fn share(&self, table: &mut ResourceTable) -> (r: Result<CompletionQueue, Error>)
        requires
            old(table).wf(),
        ensures
            final(table).wf(),
            r is Ok <==> holds_handle(old(table)@, self@ as int) && old(table)@[self@ as int].handles
                < usize::MAX,
            r matches Ok(h) ==> h@ == self@ && h.capacity() == self.capacity() && h.user_data()
                == self.user_data() && final(table)@ == with_handle(old(table)@, self@ as int),
            r is Err ==> r->Err_0 is InvalidArgument && final(table)@ == old(table)@,
    {
        match table.acquire(self.id) {
            Ok(()) => Ok(CompletionQueue { id: self.id, cqe: self.cqe, user_data: self.user_data }),
            Err(e) => Err(e),
        }
    }

    /// Enters the queue that the driver created on `ctx`, to be polled. A
    /// null token means that the creation failed.
    pub fn create(table: &mut ResourceTable, ctx: &Context, cqe: usize, user_data: usize, token: usize) -> (r:
        Result<CompletionQueue, Error>)
        requires
            old(table).wf(),
        ensures
            final(table).wf(),
            r is Ok <==> token != 0 && can_depend_on(old(table)@, seq![ctx@]),
            r matches Ok(cq) ==> cq@ == old(table)@.len() && cq.capacity() == cqe && cq.user_data() == user_data
                && final(table)@ == old(table)@.push(
                fresh(ResourceKind::CompletionQueue, token, seq![ctx@]),
            ),
            r matches Err(e) ==> final(table)@ == old(table)@ && if token == 0 {
                e matches Error::ResourceCreationFailed { context } && context@
                    == "failed to create completion queue"@
            } else {
                e is InvalidArgument
            },
    {
        let mut deps: Vec<usize> = Vec::new();
        deps.push(ctx.id());
        assert(deps@ =~= seq![ctx@]);
        match table.create_resource(
            ResourceKind::CompletionQueue,
            token,
            deps,
            "failed to create completion queue",
        ) {
            Ok(id) => Ok(CompletionQueue { id, cqe, user_data }),
            Err(e) => Err(e),
        }
    }

    /// Enters the queue that the driver created on `ctx` with `cc` to
    /// announce its events; the queue keeps both alive. A null token means
    /// that the creation failed.
    pub fn create_with_cc(
        table: &mut ResourceTable,
        ctx: &Context,
        cqe: usize,
        user_data: usize,
        cc: &CompChannel,
        token: usize,
    ) -> (r: Result<CompletionQueue, Error>)
        requires
            old(table).wf(),
        ensures
            final(table).wf(),
            r is Ok <==> token != 0 && can_depend_on(old(table)@, seq![ctx@, cc@]),
            r matches Ok(cq) ==> cq@ == old(table)@.len() && cq.capacity() == cqe && cq.user_data() == user_data
                && final(table)@ == old(table)@.push(
                fresh(ResourceKind::CompletionQueue, token, seq![ctx@, cc@]),
            ),
            r matches Err(e) ==> final(table)@ == old(table)@ && if token == 0 {
                e matches Error::ResourceCreationFailed { context } && context@
                    == "failed to create completion queue"@
            } else {
                e is InvalidArgument
            },
    {
        let mut deps: Vec<usize> = Vec::new();
        deps.push(ctx.id());
        deps.push(cc.id());
        assert(deps@ =~= seq![ctx@, cc@]);
        match table.create_resource(
            ResourceKind::CompletionQueue,
            token,
            deps,
            "failed to create completion queue",
        ) {
            Ok(id) => Ok(CompletionQueue { id, cqe, user_data }),
            Err(e) => Err(e),
        }
    }

    /// Hands out what one poll of the queue delivered. The driver reports
    /// in `polled` how many records it wrote to the front of `records`, or a
    /// negative status.
    pub fn poll(&self, max_entries: usize, polled: i32, records: Vec<WorkCompletion>) -> (r: Result<
        Vec<WorkCompletion>,
        Error,
    >)
        ensures
            r is Ok <==> polled >= 0,
            r matches Ok(done) ==> done@ == records@.take(delivered(max_entries, polled, records@.len())),
            r is Err ==> r->Err_0 == (Error::OperationFailed { os_error_code: polled }),
    {
        if polled < 0 {
            return Err(Error::OperationFailed { os_error_code: polled });
        }
        let mut n: usize = polled as usize;
        if n > max_entries {
            n = max_entries;
        }
        if n > records.len() {
            n = records.len();
        }
        let mut done = records;
        done.truncate(n);
        Ok(done)
    }
}

/// How many records a poll hands out: what the driver reported, within what
/// was asked for and what there is.
pub open spec fn delivered(max_entries: usize, polled: i32, len: nat) -> int {
    let n = if polled <= max_entries {
        polled as int
    } else {
        max_entries as int
    };
    if n <= len {
        n
    } else {
        len as int
    }
}

/// What the device reports of one finished work request.
#[derive(Debug, Clone, Copy, PartialEq, Eq, Structural)]
pub struct WorkCompletion {
    pub wr_id: u64,
    pub status: u32,
    pub opcode: u32,
    pub byte_len: u32,
    pub imm_data: u32,
    pub wc_flags: u32,
}

impl WorkCompletion {
    /// Whether the work request succeeded, and the hardware's code where it
    /// did not.
    pub fn status(&self) -> (r: Result<(), Error>)
        ensures
            r is Ok <==> self.status == IBV_WC_SUCCESS,
            r is Err ==> r->Err_0 == (Error::OperationFailed { os_error_code: status_code(self.status) }),
    {
        if self.status == IBV_WC_SUCCESS {
            Ok(())
        } else if self.status > 0x7fff_ffff {
            Err(Error::OperationFailed { os_error_code: i32::MAX })
        } else {
            Err(Error::OperationFailed { os_error_code: self.status as i32 })
        }
    }

    /// The immediate data of a receive completion, where the sender gave
    /// any.
    pub fn imm_data(&self) -> (r: Option<u32>)
        ensures
            r == if self.wc_flags & IBV_WC_WITH_IMM != 0 {
                Some(self.imm_data)
            } else {
                None
            },
    {
        if self.wc_flags & IBV_WC_WITH_IMM != 0 {
            Some(self.imm_data)
        } else {
            None
        }
    }
}

/// A hardware status as an error code: itself, as far as an `i32` holds it.
pub open spec fn status_code(status: u32) -> i32 {
    if status > i32::MAX {
        i32::MAX
    } else {
        status as i32
    }
}

} // verus!
