//! Registered memory and the rights under which the device may touch it.

use vstd::prelude::*;
use crate::bindings::{
    IBV_ACCESS_LOCAL_WRITE, IBV_ACCESS_MW_BIND, IBV_ACCESS_REMOTE_ATOMIC, IBV_ACCESS_REMOTE_READ,
    IBV_ACCESS_REMOTE_WRITE,
};
use crate::error::Error;
use crate::pd::ProtectionDomain;
use crate::resource::{
    can_depend_on, fresh, holds_handle, with_handle, ResourceKind, ResourceTable,
};

verus! {

/// A set of access rights.
#[derive(Debug, Clone, Copy, PartialEq, Eq, Structural)]
pub struct AccessFlags {
    pub bits: u32,
}

impl AccessFlags {
    /// No right at all.
    pub fn empty() -> (f: Self)
        ensures
            f.bits == 0,
    {
        AccessFlags { bits: 0 }
    }

    /// The device may write to the memory on behalf of the local side.
    pub fn local_write() -> (f: Self)
        ensures
            f.bits == IBV_ACCESS_LOCAL_WRITE,
    {
        AccessFlags { bits: IBV_ACCESS_LOCAL_WRITE }
    }

    /// A peer may write to the memory.
    pub fn remote_write() -> (f: Self)
        ensures
            f.bits == IBV_ACCESS_REMOTE_WRITE,
    {
        AccessFlags { bits: IBV_ACCESS_REMOTE_WRITE }
    }

    /// A peer may read the memory.
    pub fn remote_read() -> (f: Self)
        ensures
            f.bits == IBV_ACCESS_REMOTE_READ,
    {
        AccessFlags { bits: IBV_ACCESS_REMOTE_READ }
    }

    /// A peer may run atomic operations on the memory.
    pub fn remote_atomic() -> (f: Self)
        ensures
            f.bits == IBV_ACCESS_REMOTE_ATOMIC,
    {
        AccessFlags { bits: IBV_ACCESS_REMOTE_ATOMIC }
    }

    /// Memory windows may be bound to the memory.
    pub fn mw_bind() -> (f: Self)
        ensures
            f.bits == IBV_ACCESS_MW_BIND,
    {
        AccessFlags { bits: IBV_ACCESS_MW_BIND }
    }

    /// The rights of both sets.
    pub fn union(self, other: Self) -> (f: Self)
        ensures
            f.bits == self.bits | other.bits,
    {
        AccessFlags { bits: self.bits | other.bits }
    }

    /// Whether every right of `other` is in this set.
    pub fn contains(self, other: Self) -> (b: bool)
        ensures
            b == (self.bits & other.bits == other.bits),
    {
        self.bits & other.bits == other.bits
    }

    /// The set as the driver takes it.
    pub fn to_c_uint(self) -> (c: u32)
        ensures
            c == self.bits,
    {
        self.bits
    }
}

/// A set of rights holds every set that was joined into it.
pub proof fn law_union_contains(a: AccessFlags, b: AccessFlags)
    ensures
        (a.bits | b.bits) & a.bits == a.bits,
        (a.bits | b.bits) & b.bits == b.bits,
{
    let x = a.bits;
    let y = b.bits;
    assert((x | y) & x == x && (x | y) & y == y) by (bit_vector);
}

/// A handle on a registered range of memory, with the keys that the device
/// gave to it.
pub struct MemoryRegion {
    id: usize,
    addr: usize,
    length: usize,
    access: AccessFlags,
    lkey: u32,
    rkey: u32,
}

impl MemoryRegion {
    /// The slot of the resource table that this handle is on.
    pub closed spec fn view(&self) -> usize {
        self.id
    }

    pub closed spec fn spec_addr(&self) -> usize {
        self.addr
    }

    pub closed spec fn spec_length(&self) -> usize {
        self.length
    }

    pub closed spec fn spec_access(&self) -> AccessFlags {
        self.access
    }

    pub closed spec fn spec_lkey(&self) -> u32 {
        self.lkey
    }

    pub closed spec fn spec_rkey(&self) -> u32 {
        self.rkey
    }

    pub fn id(&self) -> (id: usize)
        ensures
            id == self@,
    {
        self.id
    }

    /// Where the registered range begins.
    #[verifier::when_used_as_spec(spec_addr)]
    pub fn addr(&self) -> (a: usize)
        ensures
            a == self.addr(),
    {
        self.addr
    }

    /// The number of bytes registered.
    #[verifier::when_used_as_spec(spec_length)]
    pub fn length(&self) -> (n: usize)
        ensures
            n == self.length(),
    {
        self.length
    }

    /// The rights that the range was registered with.
    #[verifier::when_used_as_spec(spec_access)]
    pub fn access(&self) -> (f: AccessFlags)
        ensures
            f == self.access(),
    {
        self.access
    }

    /// The key for local access.
    #[verifier::when_used_as_spec(spec_lkey)]
    pub fn lkey(&self) -> (k: u32)
        ensures
            k == self.lkey(),
    {
        self.lkey
    }

    /// The key that a peer presents for remote access.
    #[verifier::when_used_as_spec(spec_rkey)]
    pub fn rkey(&self) -> (k: u32)
        ensures
            k == self.rkey(),
    {
        self.rkey
    }

    /// Takes one more handle on the region, as cloning the handle does.
    pub fn share(&self, table: &mut ResourceTable) -> (r: Result<MemoryRegion, Error>)
        requires
            old(table).wf(),
        ensures
            final(table).wf(),
            r is Ok <==> holds_handle(old(table)@, self@ as int) && old(table)@[self@ as int].handles
                < usize::MAX,
            r matches Ok(h) ==> h@ == self@ && h.addr() == self.addr() && h.length() == self.length()
                && h.access() == self.access() && h.lkey() == self.lkey() && h.rkey() == self.rkey()
                && final(table)@ == with_handle(old(table)@, self@ as int),
            r is Err ==> r->Err_0 is InvalidArgument && final(table)@ == old(table)@,
    {
        match table.acquire(self.id) {
            Ok(()) => Ok(MemoryRegion {
                    id: self.id,
                    addr: self.addr,
                    length: self.length,
                    access: self.access,
                    lkey: self.lkey,
                    rkey: self.rkey,
                }),
            Err(e) => Err(e),
        }
    }

    /// Enters the registration of the `length` bytes at `addr` that the
    /// driver made in `pd` under `access_flags`, with the keys it gave. The domain is kept alive
    /// from now on. A null token means that the registration failed.
    ///
    /// The caller keeps the memory in place and alive for as long as the
    /// region lives: the device reads and writes it behind the program's
    /// back.
    pub fn register(
        table: &mut ResourceTable,
        pd: &ProtectionDomain,
        addr: usize,
        length: usize,
        access_flags: AccessFlags,
        token: usize,
        lkey: u32,
        rkey: u32,
    ) -> (r: Result<MemoryRegion, Error>)
        requires
            old(table).wf(),
        ensures
            final(table).wf(),
            r is Ok <==> token != 0 && can_depend_on(old(table)@, seq![pd@]),
            r matches Ok(mr) ==> mr@ == old(table)@.len() && mr.addr() == addr && mr.length() == length
                && mr.access() == access_flags && mr.lkey() == lkey && mr.rkey() == rkey
                && final(table)@ == old(table)@.push(fresh(ResourceKind::MemoryRegion, token, seq![pd@])),
            r matches Err(e) ==> final(table)@ == old(table)@ && if token == 0 {
                e matches Error::ResourceCreationFailed { context } && context@
                    == "failed to register memory region"@
            } else {
                e is InvalidArgument
            },
    {
        let mut deps: Vec<usize> = Vec::new();
        deps.push(pd.id());
        assert(deps@ =~= seq![pd@]);
        match table.create_resource(ResourceKind::MemoryRegion, token, deps, "failed to register memory region") {
            Ok(id) => Ok(MemoryRegion { id, addr, length, access: access_flags, lkey, rkey }),
            Err(e) => Err(e),
        }
    }
}

} // verus!
