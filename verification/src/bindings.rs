//! The numbers of the verbs interface that the library's rules speak of.

use vstd::prelude::*;

verus! {

// Bits of a queue-pair attribute mask.
pub const IBV_QP_STATE: u32 = 0x1;
pub const IBV_QP_CUR_STATE: u32 = 0x2;
pub const IBV_QP_EN_SQD_ASYNC_NOTIFY: u32 = 0x4;
pub const IBV_QP_ACCESS_FLAGS: u32 = 0x8;
pub const IBV_QP_PKEY_INDEX: u32 = 0x10;
pub const IBV_QP_PORT: u32 = 0x20;
pub const IBV_QP_QKEY: u32 = 0x40;
pub const IBV_QP_AV: u32 = 0x80;
pub const IBV_QP_PATH_MTU: u32 = 0x100;
pub const IBV_QP_TIMEOUT: u32 = 0x200;
pub const IBV_QP_RETRY_CNT: u32 = 0x400;
pub const IBV_QP_RNR_RETRY: u32 = 0x800;
pub const IBV_QP_RQ_PSN: u32 = 0x1000;
pub const IBV_QP_MAX_QP_RD_ATOMIC: u32 = 0x2000;
pub const IBV_QP_ALT_PATH: u32 = 0x4000;
pub const IBV_QP_MIN_RNR_TIMER: u32 = 0x8000;
pub const IBV_QP_SQ_PSN: u32 = 0x10000;
pub const IBV_QP_MAX_DEST_RD_ATOMIC: u32 = 0x20000;
pub const IBV_QP_PATH_MIG_STATE: u32 = 0x40000;
pub const IBV_QP_CAP: u32 = 0x80000;
pub const IBV_QP_DEST_QPN: u32 = 0x100000;

/// Every bit of an attribute mask that stands for an attribute that
/// `modify` can write.
pub const IBV_QP_MODIFIABLE: u32 = 0x13bff9;

// Bits of the mask that says which extended creation attributes are given.
pub const IBV_QP_INIT_ATTR_PD: u32 = 0x1;
pub const IBV_QP_INIT_ATTR_XRCD: u32 = 0x2;
pub const IBV_QP_INIT_ATTR_CREATE_FLAGS: u32 = 0x4;
pub const IBV_QP_INIT_ATTR_MAX_TSO_HEADER: u32 = 0x8;
pub const IBV_QP_INIT_ATTR_IND_TABLE: u32 = 0x10;
pub const IBV_QP_INIT_ATTR_RX_HASH: u32 = 0x20;
pub const IBV_QP_INIT_ATTR_SEND_OPS_FLAGS: u32 = 0x40;

// Queue-pair states.
pub const IBV_QPS_RESET: u32 = 0;
pub const IBV_QPS_INIT: u32 = 1;
pub const IBV_QPS_RTR: u32 = 2;
pub const IBV_QPS_RTS: u32 = 3;
pub const IBV_QPS_SQD: u32 = 4;
pub const IBV_QPS_SQE: u32 = 5;
pub const IBV_QPS_ERR: u32 = 6;
pub const IBV_QPS_UNKNOWN: u32 = 7;

// Queue-pair transport types.
pub const IBV_QPT_RC: u32 = 2;
pub const IBV_QPT_UC: u32 = 3;
pub const IBV_QPT_UD: u32 = 4;
pub const IBV_QPT_XRC_SEND: u32 = 9;
pub const IBV_QPT_XRC_RECV: u32 = 10;
pub const IBV_QPT_DRIVER: u32 = 0xff;

// Memory-window types.
pub const IBV_MW_TYPE_1: u32 = 1;
pub const IBV_MW_TYPE_2: u32 = 2;

// Memory access rights.
pub const IBV_ACCESS_LOCAL_WRITE: u32 = 0x1;
pub const IBV_ACCESS_REMOTE_WRITE: u32 = 0x2;
pub const IBV_ACCESS_REMOTE_READ: u32 = 0x4;
pub const IBV_ACCESS_REMOTE_ATOMIC: u32 = 0x8;
pub const IBV_ACCESS_MW_BIND: u32 = 0x10;
// The rights that a driver may leave out.
pub const IBV_ACCESS_OPTIONAL_RANGE: u32 = 0x3ff00000;

// Path transfer units.
pub const IBV_MTU_256: u32 = 1;
pub const IBV_MTU_512: u32 = 2;
pub const IBV_MTU_1024: u32 = 3;
pub const IBV_MTU_2048: u32 = 4;
pub const IBV_MTU_4096: u32 = 5;

// Status of a work completion, and the flag that says it carries immediate
// data.
pub const IBV_WC_SUCCESS: u32 = 0;
pub const IBV_WC_WITH_IMM: u32 = 0x2;

// Operating-system error codes that the interface itself hands out.
pub const EPERM: i32 = 1;
pub const EINVAL: i32 = 22;
pub const ENOSYS: i32 = 38;
pub const EOPNOTSUPP: i32 = 95;

/// Whether `mask` selects `bit`.
pub open spec fn selects(mask: u32, bit: u32) -> bool {
    mask & bit != 0
}

/// A bit that was set is selected.
pub proof fn lemma_set_bit(mask: u32, bit: u32)
    by (bit_vector)
    requires
        bit != 0,
    ensures
        (mask | bit) & bit != 0,
{
}

} // verus!
