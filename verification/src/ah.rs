//! Address handles: how to reach a remote endpoint.

use vstd::prelude::*;
use crate::error::Error;
use crate::pd::ProtectionDomain;
use crate::resource::{
    can_depend_on, fresh, holds_handle, with_handle, ResourceKind, ResourceTable,
};

verus! {

/// The routing attributes of an address handle. All of them start at zero.
#[derive(Debug, Clone, Copy, PartialEq, Eq, Structural)]
pub struct AddressHandleOptions {
    pub dlid: u16,
    pub sl: u8,
    pub port_num: u8,
}

impl Default for AddressHandleOptions {
    fn default() -> (o: Self)
        ensures
            o == (AddressHandleOptions { dlid: 0, sl: 0, port_num: 0 }),
    {
        AddressHandleOptions { dlid: 0, sl: 0, port_num: 0 }
    }
}

impl AddressHandleOptions {
    /// Sets the destination's local identifier.
    pub fn dest_lid(&mut self, dest_lid: u16) -> (ret: &mut Self)
        ensures
            *ret == (AddressHandleOptions { dlid: dest_lid, ..*old(self) }),
            *final(self) == *final(ret),
    {
        self.dlid = dest_lid;
        self
    }

    /// Sets the service level.
    pub fn service_level(&mut self, service_level: u8) -> (ret: &mut Self)
        ensures
            *ret == (AddressHandleOptions { sl: service_level, ..*old(self) }),
            *final(self) == *final(ret),
    {
        self.sl = service_level;
        self
    }

    /// Sets the local port through which the destination is reached.
    pub fn port_num(&mut self, port_num: u8) -> (ret: &mut Self)
        ensures
            *ret == (AddressHandleOptions { port_num: port_num, ..*old(self) }),
            *final(self) == *final(ret),
    {
        self.port_num = port_num;
        self
    }
}

/// A handle on an address handle of the device, with the attributes that
/// it was created with.
pub struct AddressHandle {
    id: usize,
    attr: AddressHandleOptions,
}

impl AddressHandle {
    /// The slot of the resource table that this handle is on.
    pub closed spec fn view(&self) -> usize {
        self.id
    }

    pub closed spec fn spec_attr(&self) -> AddressHandleOptions {
        self.attr
    }

    pub fn id(&self) -> (id: usize)
        ensures
            id == self@,
    {
        self.id
    }

    /// The routing attributes, which never change.
    #[verifier::when_used_as_spec(spec_attr)]
    pub fn attr(&self) -> (a: AddressHandleOptions)
        ensures
            a == self.attr(),
    {
        self.attr
    }

    /// Takes one more handle on the address handle, as cloning the handle does.
    pub fn share(&self, table: &mut ResourceTable) -> (r: Result<AddressHandle, Error>)
        requires
            old(table).wf(),
        ensures
            final(table).wf(),
            r is Ok <==> holds_handle(old(table)@, self@ as int) && old(table)@[self@ as int].handles
                < usize::MAX,
            r matches Ok(h) ==> h@ == self@ && h.attr() == self.attr() && final(table)@ == with_handle(
                old(table)@,
                self@ as int,
            ),
            r is Err ==> r->Err_0 is InvalidArgument && final(table)@ == old(table)@,
    {
        match table.acquire(self.id) {
            Ok(()) => Ok(AddressHandle { id: self.id, attr: self.attr }),
            Err(e) => Err(e),
        }
    }

    /// Enters the address handle that the driver created in `pd`, which it
    /// keeps alive from now on. A null token means that the creation failed.
    pub fn create(table: &mut ResourceTable, pd: &ProtectionDomain, options: AddressHandleOptions, token: usize) -> (r:
        Result<AddressHandle, Error>)
        requires
            old(table).wf(),
        ensures
            final(table).wf(),
            r is Ok <==> token != 0 && can_depend_on(old(table)@, seq![pd@]),
            r matches Ok(ah) ==> ah@ == old(table)@.len() && ah.attr() == options && final(table)@ == old(
                table,
            )@.push(fresh(ResourceKind::AddressHandle, token, seq![pd@])),
            r matches Err(e) ==> final(table)@ == old(table)@ && if token == 0 {
                e matches Error::ResourceCreationFailed { context } && context@
                    == "failed to create address handle"@
            } else {
                e is InvalidArgument
            },
    {
        let mut deps: Vec<usize> = Vec::new();
        deps.push(pd.id());
        assert(deps@ =~= seq![pd@]);
        match table.create_resource(ResourceKind::AddressHandle, token, deps, "failed to create address handle") {
            Ok(id) => Ok(AddressHandle { id, attr: options }),
            Err(e) => Err(e),
        }
    }
}

} // verus!
