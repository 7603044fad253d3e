//! Work requests: what the application asks the device to send or to
//! receive. They are handed over and never kept.

use vstd::prelude::*;

verus! {

/// One piece of registered memory that a request reads from or writes to.
#[derive(Debug, Clone, Copy, PartialEq, Eq, Structural)]
pub struct Sge {
    pub addr: u64,
    pub length: u32,
    pub lkey: u32,
}

/// A request to send.
#[derive(Debug, Clone)]
pub struct SendRequest {
    pub wr_id: u64,
    pub sg_list: Vec<Sge>,
    pub opcode: u32,
    pub send_flags: u32,
    pub imm_data: u32,
    pub remote_addr: u64,
    pub rkey: u32,
}

/// A request to receive.
#[derive(Debug, Clone)]
pub struct RecvRequest {
    pub wr_id: u64,
    pub sg_list: Vec<Sge>,
}

} // verus!
