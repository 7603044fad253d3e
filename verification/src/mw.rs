//! Memory windows.

use vstd::prelude::*;
use crate::bindings::{IBV_MW_TYPE_1, IBV_MW_TYPE_2};
use crate::error::Error;
use crate::pd::ProtectionDomain;
use crate::resource::{
    can_depend_on, fresh, holds_handle, with_handle, ResourceKind, ResourceTable,
};

verus! {

/// How a window is bound: a window of the first type through a bind request
/// on a queue pair, one of the second type through the staged posting
/// interface.
#[derive(Debug, Clone, Copy, PartialEq, Eq, Structural)]
pub enum MemoryWindowType {
    Type1,
    Type2,
}

impl MemoryWindowType {
    /// The driver's number for the type.
    pub open spec fn code(self) -> u32 {
        match self {
            MemoryWindowType::Type1 => IBV_MW_TYPE_1,
            MemoryWindowType::Type2 => IBV_MW_TYPE_2,
        }
    }

    pub fn to_c_uint(self) -> (c: u32)
        ensures
            c == self.code(),
    {
        match self {
            MemoryWindowType::Type1 => IBV_MW_TYPE_1,
            MemoryWindowType::Type2 => IBV_MW_TYPE_2,
        }
    }
}

/// A handle on a memory window.
pub struct MemoryWindow {
    id: usize,
    mw_type: MemoryWindowType,
}

impl MemoryWindow {
    /// The slot of the resource table that this handle is on.
    pub closed spec fn view(&self) -> usize {
        self.id
    }

    pub closed spec fn spec_mw_type(&self) -> MemoryWindowType {
        self.mw_type
    }

    pub fn id(&self) -> (id: usize)
        ensures
            id == self@,
    {
        self.id
    }

    /// The type that the window was allocated with.
    #[verifier::when_used_as_spec(spec_mw_type)]
    pub fn mw_type(&self) -> (t: MemoryWindowType)
        ensures
            t == self.mw_type(),
    {
        self.mw_type
    }

    /// Takes one more handle on the window, as cloning the handle does.
    pub fn share(&self, table: &mut ResourceTable) -> (r: Result<MemoryWindow, Error>)
        requires
            old(table).wf(),
        ensures
            final(table).wf(),
            r is Ok <==> holds_handle(old(table)@, self@ as int) && old(table)@[self@ as int].handles
                < usize::MAX,
            r matches Ok(h) ==> h@ == self@ && h.mw_type() == self.mw_type() && final(table)@ == with_handle(
                old(table)@,
                self@ as int,
            ),
            r is Err ==> r->Err_0 is InvalidArgument && final(table)@ == old(table)@,
    {
        match table.acquire(self.id) {
            Ok(()) => Ok(MemoryWindow { id: self.id, mw_type: self.mw_type }),
            Err(e) => Err(e),
        }
    }

    /// Enters the window that the driver allocated in `pd`, which it keeps
    /// alive from now on. A null token means that the allocation failed.
    pub fn allocate(table: &mut ResourceTable, pd: &ProtectionDomain, mw_type: MemoryWindowType, token: usize) -> (r:
        Result<MemoryWindow, Error>)
        requires
            old(table).wf(),
        ensures
            final(table).wf(),
            r is Ok <==> token != 0 && can_depend_on(old(table)@, seq![pd@]),
            r matches Ok(mw) ==> mw@ == old(table)@.len() && mw.mw_type() == mw_type && final(table)@ == old(
                table,
            )@.push(fresh(ResourceKind::MemoryWindow, token, seq![pd@])),
            r matches Err(e) ==> final(table)@ == old(table)@ && if token == 0 {
                e matches Error::ResourceCreationFailed { context } && context@
                    == "failed to allocate memory window"@
            } else {
                e is InvalidArgument
            },
    {
        let mut deps: Vec<usize> = Vec::new();
        deps.push(pd.id());
        assert(deps@ =~= seq![pd@]);
        match table.create_resource(ResourceKind::MemoryWindow, token, deps, "failed to allocate memory window") {
            Ok(id) => Ok(MemoryWindow { id, mw_type }),
            Err(e) => Err(e),
        }
    }
}

} // verus!
