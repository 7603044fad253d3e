//! Queue pairs: the transport endpoints.
//!
//! A queue pair is created from options, walks through its connection
//! states by `modify`, is read back by `query`, and takes work requests by
//! `post_send` and `post_recv`.

use vstd::prelude::*;
use crate::ah::AddressHandleOptions;
use crate::bindings::{
    lemma_set_bit, selects,
    IBV_QPS_ERR, IBV_QPS_INIT, IBV_QPS_RESET, IBV_QPS_RTR, IBV_QPS_RTS, IBV_QPS_SQD, IBV_QPS_SQE,
    IBV_QPS_UNKNOWN, IBV_QPT_DRIVER, IBV_QPT_RC, IBV_QPT_UC, IBV_QPT_UD, IBV_QPT_XRC_RECV,
    IBV_QPT_XRC_SEND, IBV_QP_ACCESS_FLAGS, IBV_QP_AV, IBV_QP_CAP, IBV_QP_DEST_QPN,
    IBV_QP_INIT_ATTR_PD, IBV_QP_MAX_DEST_RD_ATOMIC, IBV_QP_MODIFIABLE, IBV_QP_MAX_QP_RD_ATOMIC, IBV_QP_MIN_RNR_TIMER,
    IBV_QP_PATH_MTU, IBV_QP_PKEY_INDEX, IBV_QP_PORT, IBV_QP_QKEY, IBV_QP_RETRY_CNT,
    IBV_QP_RNR_RETRY, IBV_QP_RQ_PSN, IBV_QP_SQ_PSN, IBV_QP_STATE, IBV_QP_TIMEOUT,
};
use crate::cq::CompletionQueue;
use crate::device::Mtu;
use crate::error::{check_post_status, failure_code, from_errno, Error};
use crate::mr::AccessFlags;
use crate::pd::ProtectionDomain;
use crate::qp_ex::{QueuePairEx, QueuePairExView, Session};
use crate::resource::{
    after_release, can_depend_on, fresh, holds_handle, law_dependency_kept_alive, names, retires,
    well_formed, ResourceKind, ResourceTable, ResourceView,
};
use crate::srq::SharedReceiveQueue;
use crate::wr::{RecvRequest, SendRequest};

verus! {

/// How much a queue pair can hold.
#[derive(Debug, Clone, Copy, PartialEq, Eq, Structural)]
pub struct QueuePairCapacity {
    pub max_send_wr: u32,
    pub max_recv_wr: u32,
    pub max_send_sge: u32,
    pub max_recv_sge: u32,
    pub max_inline_data: u32,
}

impl Default for QueuePairCapacity {
    fn default() -> (c: Self)
        ensures
            c == QueuePairCapacity::zero(),
    {
        QueuePairCapacity { max_send_wr: 0, max_recv_wr: 0, max_send_sge: 0, max_recv_sge: 0, max_inline_data: 0 }
    }
}

impl QueuePairCapacity {
    /// The capacity that holds nothing.
    pub open spec fn zero() -> Self {
        QueuePairCapacity { max_send_wr: 0, max_recv_wr: 0, max_send_sge: 0, max_recv_sge: 0, max_inline_data: 0 }
    }
}

/// The transport that a queue pair speaks.
#[derive(Debug, Clone, Copy, PartialEq, Eq, Structural)]
pub enum QueuePairType {
    RC,
    UC,
    UD,
    Driver,
    XrcRecv,
    XrcSend,
}

impl QueuePairType {
    /// The driver's number for the transport.
    pub open spec fn code(self) -> u32 {
        match self {
            QueuePairType::RC => IBV_QPT_RC,
            QueuePairType::UC => IBV_QPT_UC,
            QueuePairType::UD => IBV_QPT_UD,
            QueuePairType::Driver => IBV_QPT_DRIVER,
            QueuePairType::XrcRecv => IBV_QPT_XRC_RECV,
            QueuePairType::XrcSend => IBV_QPT_XRC_SEND,
        }
    }

    pub fn to_c_uint(self) -> (c: u32)
        ensures
            c == self.code(),
    {
        match self {
            QueuePairType::RC => IBV_QPT_RC,
            QueuePairType::UC => IBV_QPT_UC,
            QueuePairType::UD => IBV_QPT_UD,
            QueuePairType::Driver => IBV_QPT_DRIVER,
            QueuePairType::XrcRecv => IBV_QPT_XRC_RECV,
            QueuePairType::XrcSend => IBV_QPT_XRC_SEND,
        }
    }
}

/// The connection state of a queue pair.
///
/// `Unknown` is a state that the driver may report; nothing is known of it
/// but that it is none of the others.
#[derive(Debug, Clone, Copy, PartialEq, Eq, Structural)]
pub enum QueuePairState {
    Reset,
    Initialize,
    ReadyToReceive,
    ReadyToSend,
    SendQueueDrained,
    SendQueueError,
    Error,
    Unknown,
}

impl QueuePairState {
    /// The driver's number for the state.
    pub open spec fn code(self) -> u32 {
        match self {
            QueuePairState::Reset => IBV_QPS_RESET,
            QueuePairState::Initialize => IBV_QPS_INIT,
            QueuePairState::ReadyToReceive => IBV_QPS_RTR,
            QueuePairState::ReadyToSend => IBV_QPS_RTS,
            QueuePairState::SendQueueDrained => IBV_QPS_SQD,
            QueuePairState::SendQueueError => IBV_QPS_SQE,
            QueuePairState::Error => IBV_QPS_ERR,
            QueuePairState::Unknown => IBV_QPS_UNKNOWN,
        }
    }

    /// The state that the driver's number `val` stands for.
    pub open spec fn of_code(val: u32) -> Self {
        if val == IBV_QPS_RESET {
            QueuePairState::Reset
        } else if val == IBV_QPS_INIT {
            QueuePairState::Initialize
        } else if val == IBV_QPS_RTR {
            QueuePairState::ReadyToReceive
        } else if val == IBV_QPS_RTS {
            QueuePairState::ReadyToSend
        } else if val == IBV_QPS_SQD {
            QueuePairState::SendQueueDrained
        } else if val == IBV_QPS_SQE {
            QueuePairState::SendQueueError
        } else if val == IBV_QPS_ERR {
            QueuePairState::Error
        } else {
            QueuePairState::Unknown
        }
    }

    /// Reads a state as the driver reports it. The driver reports no number
    /// above that of `Unknown`.
    pub fn from_c_uint(val: u32) -> (s: Self)
        requires
            val <= IBV_QPS_UNKNOWN,
        ensures
            s == Self::of_code(val),
            s.code() == val,
    {
        if val == IBV_QPS_RESET {
            QueuePairState::Reset
        } else if val == IBV_QPS_INIT {
            QueuePairState::Initialize
        } else if val == IBV_QPS_RTR {
            QueuePairState::ReadyToReceive
        } else if val == IBV_QPS_RTS {
            QueuePairState::ReadyToSend
        } else if val == IBV_QPS_SQD {
            QueuePairState::SendQueueDrained
        } else if val == IBV_QPS_SQE {
            QueuePairState::SendQueueError
        } else if val == IBV_QPS_ERR {
            QueuePairState::Error
        } else {
            QueuePairState::Unknown
        }
    }

    pub fn to_c_uint(self) -> (c: u32)
        ensures
            c == self.code(),
            c <= IBV_QPS_UNKNOWN,
    {
        match self {
            QueuePairState::Reset => IBV_QPS_RESET,
            QueuePairState::Initialize => IBV_QPS_INIT,
            QueuePairState::ReadyToReceive => IBV_QPS_RTR,
            QueuePairState::ReadyToSend => IBV_QPS_RTS,
            QueuePairState::SendQueueDrained => IBV_QPS_SQD,
            QueuePairState::SendQueueError => IBV_QPS_SQE,
            QueuePairState::Error => IBV_QPS_ERR,
            QueuePairState::Unknown => IBV_QPS_UNKNOWN,
        }
    }

    /// Whether the queue pair is set up far enough to carry traffic or to be
    /// taken out of service.
    pub open spec fn is_active(self) -> bool {
        self is Initialize || self is ReadyToReceive || self is ReadyToSend
    }

    /// Whether this is one of the states beside the chain: drained, or in
    /// error.
    pub open spec fn is_side_state(self) -> bool {
        self is SendQueueDrained || self is SendQueueError || self is Error
    }

    /// Whether `modify` may take a queue pair from this state to `to`: one
    /// step forward along the chain from `Reset` to `ReadyToSend`, or from
    /// an active state aside.
    pub open spec fn may_become(self, to: QueuePairState) -> bool {
        ||| self is Reset && to is Initialize
        ||| self is Initialize && to is ReadyToReceive
        ||| self is ReadyToReceive && to is ReadyToSend
        ||| self.is_active() && to.is_side_state()
    }

    /// Decides [`Self::may_become`].
    pub fn can_become(self, to: QueuePairState) -> (b: bool)
        ensures
            b == self.may_become(to),
    {
        let aside = match to {
            QueuePairState::SendQueueDrained | QueuePairState::SendQueueError | QueuePairState::Error => true,
            _ => false,
        };
        match self {
            QueuePairState::Reset => match to {
                QueuePairState::Initialize => true,
                _ => false,
            },
            QueuePairState::Initialize => match to {
                QueuePairState::ReadyToReceive => true,
                _ => aside,
            },
            QueuePairState::ReadyToReceive => match to {
                QueuePairState::ReadyToSend => true,
                _ => aside,
            },
            QueuePairState::ReadyToSend => aside,
            _ => false,
        }
    }
}

/// A state survives the way to the driver and back.
pub proof fn law_state_code_round_trip(s: QueuePairState)
    ensures
        QueuePairState::of_code(s.code()) == s,
        s.code() <= IBV_QPS_UNKNOWN,
{
}

/// What a queue pair is created with. Everything starts at zero, with no
/// resource attached.
#[derive(Debug, Clone, Copy, PartialEq, Eq, Structural)]
pub struct QueuePairOptions {
    pub user_data: usize,
    pub send_cq: Option<usize>,
    pub recv_cq: Option<usize>,
    pub pd: Option<usize>,
    pub srq: Option<usize>,
    pub qp_type: u32,
    pub sq_sig_all: bool,
    pub cap: QueuePairCapacity,
    pub comp_mask: u32,
    pub send_ops_flags: u64,
}

impl Default for QueuePairOptions {
    fn default() -> (o: Self)
        ensures
            o == QueuePairOptions::blank(),
    {
        QueuePairOptions {
            user_data: 0,
            send_cq: None,
            recv_cq: None,
            pd: None,
            srq: None,
            qp_type: 0,
            sq_sig_all: false,
            cap: QueuePairCapacity::default(),
            comp_mask: 0,
            send_ops_flags: 0,
        }
    }
}

impl QueuePairOptions {
    /// The options before anything was set.
    pub open spec fn blank() -> Self {
        QueuePairOptions {
            user_data: 0,
            send_cq: None,
            recv_cq: None,
            pd: None,
            srq: None,
            qp_type: 0,
            sq_sig_all: false,
            cap: QueuePairCapacity::zero(),
            comp_mask: 0,
            send_ops_flags: 0,
        }
    }

    /// Attaches an opaque value to the queue pair.
    pub fn user_data(&mut self, user_data: usize) -> (ret: &mut Self)
        ensures
            *ret == (QueuePairOptions { user_data: user_data, ..*old(self) }),
            *final(self) == *final(ret),
    {
        self.user_data = user_data;
        self
    }

    /// Names the queue that takes the send completions.
    pub fn send_cq(&mut self, send_cq: &CompletionQueue) -> (ret: &mut Self)
        ensures
            *ret == (QueuePairOptions { send_cq: Some(send_cq@), ..*old(self) }),
            *final(self) == *final(ret),
    {
        self.send_cq = Some(send_cq.id());
        self
    }

    /// Names the queue that takes the receive completions. A queue pair
    /// receives either through its own queue or through a shared one: a
    /// shared receive queue named before is dropped.
    pub fn recv_cq(&mut self, recv_cq: &CompletionQueue) -> (ret: &mut Self)
        ensures
            *ret == (QueuePairOptions { recv_cq: Some(recv_cq@), srq: None, ..*old(self) }),
            *final(self) == *final(ret),
    {
        self.srq = None;
        self.recv_cq = Some(recv_cq.id());
        self
    }

    /// Sets the transport.
    pub fn qp_type(&mut self, qp_type: QueuePairType) -> (ret: &mut Self)
        ensures
            *ret == (QueuePairOptions { qp_type: qp_type.code(), ..*old(self) }),
            *final(self) == *final(ret),
    {
        self.qp_type = qp_type.to_c_uint();
        self
    }

    /// Whether every send request produces a completion.
    pub fn sq_sig_all(&mut self, sq_sig_all: bool) -> (ret: &mut Self)
        ensures
            *ret == (QueuePairOptions { sq_sig_all: sq_sig_all, ..*old(self) }),
            *final(self) == *final(ret),
    {
        self.sq_sig_all = sq_sig_all;
        self
    }

    /// Sets the capacity asked for.
    pub fn cap(&mut self, cap: QueuePairCapacity) -> (ret: &mut Self)
        ensures
            *ret == (QueuePairOptions { cap: cap, ..*old(self) }),
            *final(self) == *final(ret),
    {
        self.cap = cap;
        self
    }

    /// Names the protection domain, and marks it as given.
    pub fn pd(&mut self, pd: &ProtectionDomain) -> (ret: &mut Self)
        ensures
            *ret == (QueuePairOptions {
                pd: Some(pd@),
                comp_mask: old(self).comp_mask | IBV_QP_INIT_ATTR_PD,
                ..*old(self)
            }),
            *final(self) == *final(ret),
    {
        self.comp_mask = self.comp_mask | IBV_QP_INIT_ATTR_PD;
        self.pd = Some(pd.id());
        self
    }

    /// Names the shared receive queue. A receive completion queue named
    /// before is dropped.
    pub fn srq(&mut self, srq: &SharedReceiveQueue) -> (ret: &mut Self)
        ensures
            *ret == (QueuePairOptions { srq: Some(srq@), recv_cq: None, ..*old(self) }),
            *final(self) == *final(ret),
    {
        self.recv_cq = None;
        self.srq = Some(srq.id());
        self
    }

    /// Replaces the mask that says which extended attributes are given.
    pub fn comp_mask(&mut self, mask: u32) -> (ret: &mut Self)
        ensures
            *ret == (QueuePairOptions { comp_mask: mask, ..*old(self) }),
            *final(self) == *final(ret),
    {
        self.comp_mask = mask;
        self
    }

    /// Sets the operations that the staged posting interface will be used
    /// for.
    pub fn send_ops_flags(&mut self, flags: u32) -> (ret: &mut Self)
        ensures
            *ret == (QueuePairOptions { send_ops_flags: flags as u64, ..*old(self) }),
            *final(self) == *final(ret),
    {
        self.send_ops_flags = flags as u64;
        self
    }

    /// Whether the options name at most one way to receive: a completion
    /// queue of the queue pair's own, or a shared receive queue.
    pub open spec fn one_receive_path(self) -> bool {
        !(self.recv_cq is Some && self.srq is Some)
    }

    /// Says, before the driver is asked to create a queue pair, whether
    /// the options can be handed to it.
    pub fn check(&self) -> (r: Result<(), Error>)
        ensures
            r is Ok <==> self.one_receive_path(),
            r is Err ==> r->Err_0 is InvalidArgument,
    {
        if self.recv_cq.is_some() && self.srq.is_some() {
            return Err(Error::InvalidArgument);
        }
        Ok(())
    }

    /// The resources that a queue pair made from these options keeps alive:
    /// the protection domain, the two completion queues and the shared
    /// receive queue, as far as they are named.
    pub open spec fn dependencies(self) -> Seq<usize> {
        let a = match self.pd {
            Some(id) => seq![id],
            None => Seq::<usize>::empty(),
        };
        let b = match self.send_cq {
            Some(id) => a.push(id),
            None => a,
        };
        let c = match self.recv_cq {
            Some(id) => b.push(id),
            None => b,
        };
        match self.srq {
            Some(id) => c.push(id),
            None => c,
        }
    }

    /// Computes [`Self::dependencies`].
    pub fn dependency_list(&self) -> (deps: Vec<usize>)
        ensures
            deps@ == self.dependencies(),
    {
        let mut deps: Vec<usize> = Vec::new();
        if let Some(id) = self.pd {
            deps.push(id);
        }
        if let Some(id) = self.send_cq {
            deps.push(id);
        }
        if let Some(id) = self.recv_cq {
            deps.push(id);
        }
        if let Some(id) = self.srq {
            deps.push(id);
        }
        deps
    }
}

/// The attributes that one `modify` writes. The mask says which of them are
/// given; the driver reads no other.
#[derive(Debug, Clone, Copy, PartialEq, Eq, Structural)]
pub struct ModifyOptions {
    pub mask: u32,
    pub qp_state: QueuePairState,
    pub pkey_index: u16,
    pub port_num: u8,
    pub qkey: u32,
    pub qp_access_flags: u32,
    pub path_mtu: u32,
    pub dest_qp_num: u32,
    pub rq_psn: u32,
    pub max_dest_rd_atomic: u8,
    pub min_rnr_timer: u8,
    pub ah_attr: AddressHandleOptions,
    pub timeout: u8,
    pub retry_cnt: u8,
    pub rnr_retry: u8,
    pub sq_psn: u32,
    pub max_rd_atomic: u8,
}

impl Default for ModifyOptions {
    fn default() -> (o: Self)
        ensures
            o == ModifyOptions::blank(),
    {
        ModifyOptions {
            mask: 0,
            qp_state: QueuePairState::Reset,
            pkey_index: 0,
            port_num: 0,
            qkey: 0,
            qp_access_flags: 0,
            path_mtu: 0,
            dest_qp_num: 0,
            rq_psn: 0,
            max_dest_rd_atomic: 0,
            min_rnr_timer: 0,
            ah_attr: AddressHandleOptions { dlid: 0, sl: 0, port_num: 0 },
            timeout: 0,
            retry_cnt: 0,
            rnr_retry: 0,
            sq_psn: 0,
            max_rd_atomic: 0,
        }
    }
}

impl ModifyOptions {
    /// The options that give nothing.
    pub open spec fn blank() -> Self {
        ModifyOptions {
            mask: 0,
            qp_state: QueuePairState::Reset,
            pkey_index: 0,
            port_num: 0,
            qkey: 0,
            qp_access_flags: 0,
            path_mtu: 0,
            dest_qp_num: 0,
            rq_psn: 0,
            max_dest_rd_atomic: 0,
            min_rnr_timer: 0,
            ah_attr: AddressHandleOptions { dlid: 0, sl: 0, port_num: 0 },
            timeout: 0,
            retry_cnt: 0,
            rnr_retry: 0,
            sq_psn: 0,
            max_rd_atomic: 0,
        }
    }

    /// Whether the mask goes with the attributes: it names nothing but
    /// attributes that these options carry.
    pub open spec fn matched(self) -> bool {
        self.mask & !IBV_QP_MODIFIABLE == 0
    }

    /// Whether what these options ask for may be handed to the driver of a
    /// queue pair in `state`: the mask goes with the attributes, and a
    /// change of state that they ask for is one that the state machine
    /// allows.
    pub open spec fn allowed_in(self, state: QueuePairState) -> bool {
        self.matched() && (self.target() matches Some(to) ==> state.may_become(to))
    }

    /// The state that these options ask for, if they ask for one.
    pub open spec fn target(self) -> Option<QueuePairState> {
        if selects(self.mask, IBV_QP_STATE) {
            Some(self.qp_state)
        } else {
            None
        }
    }

    /// Asks for a change of the connection state.
    pub fn qp_state(&mut self, qp_state: QueuePairState) -> (ret: &mut Self)
        ensures
            *ret == (ModifyOptions { mask: old(self).mask | IBV_QP_STATE, qp_state: qp_state, ..*old(self) }),
            *final(self) == *final(ret),
    {
        self.qp_state = qp_state;
        self.mask = self.mask | IBV_QP_STATE;
        self
    }

    /// Sets the index of the partition key.
    pub fn pkey_index(&mut self, pkey_index: u16) -> (ret: &mut Self)
        ensures
            *ret == (ModifyOptions {
                mask: old(self).mask | IBV_QP_PKEY_INDEX,
                pkey_index: pkey_index,
                ..*old(self)
            }),
            *final(self) == *final(ret),
    {
        self.pkey_index = pkey_index;
        self.mask = self.mask | IBV_QP_PKEY_INDEX;
        self
    }

    /// Sets the local port.
    pub fn port_num(&mut self, port_num: u8) -> (ret: &mut Self)
        ensures
            *ret == (ModifyOptions { mask: old(self).mask | IBV_QP_PORT, port_num: port_num, ..*old(self) }),
            *final(self) == *final(ret),
    {
        self.port_num = port_num;
        self.mask = self.mask | IBV_QP_PORT;
        self
    }

    /// Sets the queue key of a datagram queue pair.
    pub fn qkey(&mut self, qkey: u32) -> (ret: &mut Self)
        ensures
            *ret == (ModifyOptions { mask: old(self).mask | IBV_QP_QKEY, qkey: qkey, ..*old(self) }),
            *final(self) == *final(ret),
    {
        self.qkey = qkey;
        self.mask = self.mask | IBV_QP_QKEY;
        self
    }

    /// Sets what a peer may do to local memory.
    pub fn qp_access_flags(&mut self, qp_access_flags: AccessFlags) -> (ret: &mut Self)
        ensures
            *ret == (ModifyOptions {
                mask: old(self).mask | IBV_QP_ACCESS_FLAGS,
                qp_access_flags: qp_access_flags.bits,
                ..*old(self)
            }),
            *final(self) == *final(ret),
    {
        self.qp_access_flags = qp_access_flags.to_c_uint();
        self.mask = self.mask | IBV_QP_ACCESS_FLAGS;
        self
    }

    /// Sets the transfer unit of the path.
    pub fn path_mtu(&mut self, path_mtu: Mtu) -> (ret: &mut Self)
        ensures
            *ret == (ModifyOptions {
                mask: old(self).mask | IBV_QP_PATH_MTU,
                path_mtu: path_mtu.code(),
                ..*old(self)
            }),
            *final(self) == *final(ret),
    {
        self.path_mtu = path_mtu.to_c_uint();
        self.mask = self.mask | IBV_QP_PATH_MTU;
        self
    }

    /// Sets the number of the peer's queue pair.
    pub fn dest_qp_num(&mut self, dest_qp_num: u32) -> (ret: &mut Self)
        ensures
            *ret == (ModifyOptions {
                mask: old(self).mask | IBV_QP_DEST_QPN,
                dest_qp_num: dest_qp_num,
                ..*old(self)
            }),
            *final(self) == *final(ret),
    {
        self.dest_qp_num = dest_qp_num;
        self.mask = self.mask | IBV_QP_DEST_QPN;
        self
    }

    /// Sets the first packet sequence number to expect.
    pub fn rq_psn(&mut self, rq_psn: u32) -> (ret: &mut Self)
        ensures
            *ret == (ModifyOptions { mask: old(self).mask | IBV_QP_RQ_PSN, rq_psn: rq_psn, ..*old(self) }),
            *final(self) == *final(ret),
    {
        self.rq_psn = rq_psn;
        self.mask = self.mask | IBV_QP_RQ_PSN;
        self
    }

    /// Sets how many reads and atomics of the peer may be in flight.
    pub fn max_dest_rd_atomic(&mut self, max_dest_rd_atomic: u8) -> (ret: &mut Self)
        ensures
            *ret == (ModifyOptions {
                mask: old(self).mask | IBV_QP_MAX_DEST_RD_ATOMIC,
                max_dest_rd_atomic: max_dest_rd_atomic,
                ..*old(self)
            }),
            *final(self) == *final(ret),
    {
        self.max_dest_rd_atomic = max_dest_rd_atomic;
        self.mask = self.mask | IBV_QP_MAX_DEST_RD_ATOMIC;
        self
    }

    /// Sets the shortest wait after a receiver-not-ready answer.
    pub fn min_rnr_timer(&mut self, min_rnr_timer: u8) -> (ret: &mut Self)
        ensures
            *ret == (ModifyOptions {
                mask: old(self).mask | IBV_QP_MIN_RNR_TIMER,
                min_rnr_timer: min_rnr_timer,
                ..*old(self)
            }),
            *final(self) == *final(ret),
    {
        self.min_rnr_timer = min_rnr_timer;
        self.mask = self.mask | IBV_QP_MIN_RNR_TIMER;
        self
    }

    /// Sets the route to the peer.
    pub fn ah_attr(&mut self, ah_attr: AddressHandleOptions) -> (ret: &mut Self)
        ensures
            *ret == (ModifyOptions { mask: old(self).mask | IBV_QP_AV, ah_attr: ah_attr, ..*old(self) }),
            *final(self) == *final(ret),
    {
        self.ah_attr = ah_attr;
        self.mask = self.mask | IBV_QP_AV;
        self
    }

    /// Sets how long to wait for an acknowledgement before retransmitting.
    pub fn timeout(&mut self, timeout: u8) -> (ret: &mut Self)
        ensures
            *ret == (ModifyOptions { mask: old(self).mask | IBV_QP_TIMEOUT, timeout: timeout, ..*old(self) }),
            *final(self) == *final(ret),
    {
        self.timeout = timeout;
        self.mask = self.mask | IBV_QP_TIMEOUT;
        self
    }

    /// Sets how often to retransmit.
    pub fn retry_cnt(&mut self, retry_cnt: u8) -> (ret: &mut Self)
        ensures
            *ret == (ModifyOptions {
                mask: old(self).mask | IBV_QP_RETRY_CNT,
                retry_cnt: retry_cnt,
                ..*old(self)
            }),
            *final(self) == *final(ret),
    {
        self.retry_cnt = retry_cnt;
        self.mask = self.mask | IBV_QP_RETRY_CNT;
        self
    }

    /// Sets how often to retry after a receiver-not-ready answer.
    pub fn rnr_retry(&mut self, rnr_retry: u8) -> (ret: &mut Self)
        ensures
            *ret == (ModifyOptions {
                mask: old(self).mask | IBV_QP_RNR_RETRY,
                rnr_retry: rnr_retry,
                ..*old(self)
            }),
            *final(self) == *final(ret),
    {
        self.rnr_retry = rnr_retry;
        self.mask = self.mask | IBV_QP_RNR_RETRY;
        self
    }

    /// Sets the first packet sequence number to send.
    pub fn sq_psn(&mut self, sq_psn: u32) -> (ret: &mut Self)
        ensures
            *ret == (ModifyOptions { mask: old(self).mask | IBV_QP_SQ_PSN, sq_psn: sq_psn, ..*old(self) }),
            *final(self) == *final(ret),
    {
        self.sq_psn = sq_psn;
        self.mask = self.mask | IBV_QP_SQ_PSN;
        self
    }

    /// Sets how many own reads and atomics may be in flight.
    pub fn max_rd_atomic(&mut self, max_rd_atomic: u8) -> (ret: &mut Self)
        ensures
            *ret == (ModifyOptions {
                mask: old(self).mask | IBV_QP_MAX_QP_RD_ATOMIC,
                max_rd_atomic: max_rd_atomic,
                ..*old(self)
            }),
            *final(self) == *final(ret),
    {
        self.max_rd_atomic = max_rd_atomic;
        self.mask = self.mask | IBV_QP_MAX_QP_RD_ATOMIC;
        self
    }
}

/// Which attributes one `query` reads.
#[derive(Debug, Clone, Copy, PartialEq, Eq, Structural)]
pub struct QueryOptions {
    pub mask: u32,
}

impl Default for QueryOptions {
    fn default() -> (o: Self)
        ensures
            o.mask == 0,
    {
        QueryOptions { mask: 0 }
    }
}

impl QueryOptions {
    /// Asks for the capacity.
    pub fn cap(&mut self) -> (ret: &mut Self)
        ensures
            *ret == (QueryOptions { mask: old(self).mask | IBV_QP_CAP }),
            *final(self) == *final(ret),
    {
        self.mask = self.mask | IBV_QP_CAP;
        self
    }

    /// Asks for the connection state.
    pub fn qp_state(&mut self) -> (ret: &mut Self)
        ensures
            *ret == (QueryOptions { mask: old(self).mask | IBV_QP_STATE }),
            *final(self) == *final(ret),
    {
        self.mask = self.mask | IBV_QP_STATE;
        self
    }
}

/// What one `query` read: the attributes as the driver reported them, and
/// the mask that says which of them were asked for. An attribute that was
/// not asked for cannot be read.
#[derive(Debug, Clone, Copy, PartialEq, Eq, Structural)]
pub struct QueuePairAttr {
    pub mask: u32,
    pub qp_state: u32,
    pub cap: QueuePairCapacity,
}

impl QueuePairAttr {
    /// The capacity, if it was asked for.
    pub open spec fn cap_read(self) -> Option<QueuePairCapacity> {
        if selects(self.mask, IBV_QP_CAP) {
            Some(self.cap)
        } else {
            None
        }
    }

    /// The connection state, if it was asked for.
    pub open spec fn state_read(self) -> Option<QueuePairState> {
        if selects(self.mask, IBV_QP_STATE) {
            Some(QueuePairState::of_code(self.qp_state))
        } else {
            None
        }
    }

    /// Whether the state can be read: it was not asked for, or the driver
    /// reported a number that stands for a state.
    pub open spec fn state_readable(self) -> bool {
        selects(self.mask, IBV_QP_STATE) ==> self.qp_state <= IBV_QPS_UNKNOWN
    }

    /// Decides [`Self::state_readable`].
    pub fn has_readable_state(&self) -> (b: bool)
        ensures
            b == self.state_readable(),
    {
        self.mask & IBV_QP_STATE == 0 || self.qp_state <= IBV_QPS_UNKNOWN
    }

    /// The capacity, if it was asked for.
    pub fn cap(&self) -> (c: Option<&QueuePairCapacity>)
        ensures
            c == match self.cap_read() {
                Some(cap) => Some(&cap),
                None => None,
            },
    {
        if self.mask & IBV_QP_CAP != 0 {
            Some(&self.cap)
        } else {
            None
        }
    }

    /// The connection state, if it was asked for.
    pub fn qp_state(&self) -> (s: Option<QueuePairState>)
        requires
            self.state_readable(),
        ensures
            s == self.state_read(),
    {
        if self.mask & IBV_QP_STATE != 0 {
            Some(QueuePairState::from_c_uint(self.qp_state))
        } else {
            None
        }
    }
}

/// The mathematical content of a queue pair.
pub struct QueuePairView {
    pub id: usize,
    pub qp_num: u32,
    pub user_data: usize,
    pub state: QueuePairState,
    pub pd: Option<usize>,
    pub send_cq: Option<usize>,
    pub recv_cq: Option<usize>,
    pub srq: Option<usize>,
}

impl QueuePairView {
    /// The resources that the queue pair keeps alive.
    pub open spec fn dependencies(self) -> Seq<usize> {
        (QueuePairOptions {
            pd: self.pd,
            send_cq: self.send_cq,
            recv_cq: self.recv_cq,
            srq: self.srq,
            ..QueuePairOptions::blank()
        }).dependencies()
    }
}

/// The queue pair that the driver numbered `qp_num`, freshly created from
/// `options` in the slot `id`.
pub open spec fn created(id: nat, options: QueuePairOptions, qp_num: u32) -> QueuePairView {
    QueuePairView {
        id: id as usize,
        qp_num,
        user_data: options.user_data,
        state: QueuePairState::Reset,
        pd: options.pd,
        send_cq: options.send_cq,
        recv_cq: options.recv_cq,
        srq: options.srq,
    }
}

/// What `modify` does to a queue pair in `state` when the driver answers
/// `status`: the result, and the state afterwards.
///
/// A mask that does not go with the attributes, and a change of state that
/// the state machine does not allow, are refused before the driver sees
/// them. Otherwise the driver decides, and the state changes only if it
/// agrees.
pub open spec fn modify_outcome(state: QueuePairState, options: ModifyOptions, status: i32) -> (
    Result<(), Error>,
    QueuePairState,
) {
    if !options.allowed_in(state) {
        (Err(Error::InvalidArgument), state)
    } else if status != 0 {
        (Err(Error::OperationFailed { os_error_code: status }), state)
    } else {
        (
            Ok(()),
            match options.target() {
                Some(to) => to,
                None => state,
            },
        )
    }
}

/// Why a list of work requests was not taken as a whole.
#[derive(Debug, Clone, PartialEq, Eq)]
pub struct PostFailure {
    /// What the driver reported.
    pub error: Error,
    /// The place in the list of the first request that the hardware
    /// rejected, where the driver named one of the list.
    pub first_rejected: Option<usize>,
    /// The identifier of that request.
    pub wr_id: Option<u64>,
}

impl PostFailure {
    /// How many requests from the front of the list are reported as taken
    /// by the hardware: those before the rejected one.
    pub fn submitted(&self) -> (n: usize)
        ensures
            n == match self.first_rejected {
                Some(k) => k,
                None => 0usize,
            },
            forall|len: nat, i: int|
                #[trigger] reported_submitted(len, Err(*self), i) <==> 0 <= i < len && i < n,
    {
        match self.first_rejected {
            Some(k) => k,
            None => 0,
        }
    }
}

/// The place of the rejected request, where the driver named one of the `n`
/// requests of the list.
pub open spec fn rejected_index(n: nat, bad_wr: Option<usize>) -> Option<usize> {
    match bad_wr {
        Some(k) => if k < n {
            Some(k)
        } else {
            None
        },
        None => None,
    }
}

/// What posting the requests with identifiers `wr_ids` results in when the
/// driver returns `ret`, leaves `errno` as the thread-local code and names
/// `bad_wr` as the request that it stopped at.
pub open spec fn post_outcome(wr_ids: Seq<u64>, ret: i32, errno: i32, bad_wr: Option<usize>) -> Result<
    (),
    PostFailure,
> {
    if ret == 0 {
        Ok(())
    } else {
        let first_rejected = rejected_index(wr_ids.len(), bad_wr);
        Err(
            PostFailure {
                error: Error::OperationFailed { os_error_code: failure_code(ret, errno) },
                first_rejected,
                wr_id: match first_rejected {
                    Some(k) => Some(wr_ids[k as int]),
                    None => None,
                },
            },
        )
    }
}

/// Whether `r` reports the request at place `i` of a list of `n` as taken
/// by the hardware: all are taken on success, and on failure those before
/// the rejected one. Where the driver named none, nothing is reported as
/// taken.
pub open spec fn reported_submitted(n: nat, r: Result<(), PostFailure>, i: int) -> bool {
    0 <= i < n && match r {
        Ok(_) => true,
        Err(failure) => match failure.first_rejected {
            Some(k) => i < k,
            None => false,
        },
    }
}

/// The identifiers of a list of send requests.
pub open spec fn send_ids(requests: Seq<SendRequest>) -> Seq<u64> {
    Seq::new(requests.len(), |i: int| requests[i].wr_id)
}

/// The identifiers of a list of receive requests.
pub open spec fn recv_ids(requests: Seq<RecvRequest>) -> Seq<u64> {
    Seq::new(requests.len(), |i: int| requests[i].wr_id)
}

/// A transport endpoint, with the connection state that `modify` last gave
/// to it.
pub struct QueuePair {
    id: usize,
    qp_num: u32,
    user_data: usize,
    state: QueuePairState,
    pd: Option<usize>,
    send_cq: Option<usize>,
    recv_cq: Option<usize>,
    srq: Option<usize>,
}

impl QueuePair {
    pub closed spec fn view(&self) -> QueuePairView {
        QueuePairView {
            id: self.id,
            qp_num: self.qp_num,
            user_data: self.user_data,
            state: self.state,
            pd: self.pd,
            send_cq: self.send_cq,
            recv_cq: self.recv_cq,
            srq: self.srq,
        }
    }

    /// The options to start from.
    pub fn options() -> (o: QueuePairOptions)
        ensures
            o == QueuePairOptions::blank(),
    {
        QueuePairOptions::default()
    }

    /// Enters the queue pair that the driver created from `options` and
    /// numbered `qp_num`. It starts in `Reset` and keeps alive what the
    /// options name. A null token means that the creation failed.
    pub fn create(table: &mut ResourceTable, options: QueuePairOptions, token: usize, qp_num: u32) -> (r: Result<
        QueuePair,
        Error,
    >)
        requires
            old(table).wf(),
        ensures
            final(table).wf(),
            r is Ok <==> options.one_receive_path() && token != 0 && can_depend_on(
                old(table)@,
                options.dependencies(),
            ),
            r matches Ok(qp) ==> qp@ == created(old(table)@.len(), options, qp_num) && final(table)@ == old(
                table,
            )@.push(fresh(ResourceKind::QueuePair, token, options.dependencies())),
            r matches Err(e) ==> final(table)@ == old(table)@ && if options.one_receive_path() && token == 0 {
                e matches Error::ResourceCreationFailed { context } && context@ == "failed to create queue pair"@
            } else {
                e is InvalidArgument
            },
    {
        if options.recv_cq.is_some() && options.srq.is_some() {
            return Err(Error::InvalidArgument);
        }
        let deps = options.dependency_list();
        match table.create_resource(ResourceKind::QueuePair, token, deps, "failed to create queue pair") {
            Ok(id) => Ok(
                QueuePair {
                    id,
                    qp_num,
                    user_data: options.user_data,
                    state: QueuePairState::Reset,
                    pd: options.pd,
                    send_cq: options.send_cq,
                    recv_cq: options.recv_cq,
                    srq: options.srq,
                },
            ),
            Err(e) => Err(e),
        }
    }

    /// The slot of the resource table that the queue pair is in.
    pub fn id(&self) -> (id: usize)
        ensures
            id == self@.id,
    {
        self.id
    }

    /// The number that the device gave to the queue pair.
    pub fn qp_num(&self) -> (n: u32)
        ensures
            n == self@.qp_num,
    {
        self.qp_num
    }

    /// The opaque value that the application attached to the queue pair.
    pub fn user_data(&self) -> (n: usize)
        ensures
            n == self@.user_data,
    {
        self.user_data
    }

    /// The connection state that `modify` last gave to the queue pair.
    pub fn state(&self) -> (s: QueuePairState)
        ensures
            s == self@.state,
    {
        self.state
    }

    /// The queue that takes the send completions.
    pub fn send_cq(&self) -> (cq: Option<usize>)
        ensures
            cq == self@.send_cq,
    {
        self.send_cq
    }

    /// The queue that takes the receive completions.
    pub fn recv_cq(&self) -> (cq: Option<usize>)
        ensures
            cq == self@.recv_cq,
    {
        self.recv_cq
    }

    /// Says, before the driver is asked, whether `options` may be handed to
    /// it.
    pub fn check_modify(&self, options: &ModifyOptions) -> (r: Result<(), Error>)
        ensures
            r is Ok <==> options.allowed_in(self@.state),
            r is Err ==> r->Err_0 is InvalidArgument,
    {
        if options.mask & !IBV_QP_MODIFIABLE != 0 {
            return Err(Error::InvalidArgument);
        }
        if options.mask & IBV_QP_STATE != 0 && !self.state.can_become(options.qp_state) {
            return Err(Error::InvalidArgument);
        }
        Ok(())
    }

    /// Applies one `modify` that the driver answered with `status`.
    pub fn modify(&mut self, options: ModifyOptions, status: i32) -> (r: Result<(), Error>)
        ensures
            r == modify_outcome(old(self)@.state, options, status).0,
            final(self)@ == (QueuePairView {
                state: modify_outcome(old(self)@.state, options, status).1,
                ..old(self)@
            }),
    {
        if options.mask & !IBV_QP_MODIFIABLE != 0 {
            return Err(Error::InvalidArgument);
        }
        let to = if options.mask & IBV_QP_STATE != 0 {
            if !self.state.can_become(options.qp_state) {
                return Err(Error::InvalidArgument);
            }
            options.qp_state
        } else {
            self.state
        };
        if status != 0 {
            return Err(from_errno(status));
        }
        self.state = to;
        Ok(())
    }

    /// Hands out what one `query` read, where the driver answered with
    /// `status` and reported `qp_state` and `cap`.
    pub fn query(&self, options: QueryOptions, status: i32, qp_state: u32, cap: QueuePairCapacity) -> (r: Result<
        QueuePairAttr,
        Error,
    >)
        ensures
            r is Ok <==> status == 0,
            r matches Ok(attr) ==> attr == (QueuePairAttr { mask: options.mask, qp_state, cap }),
            r is Err ==> r->Err_0 == (Error::OperationFailed { os_error_code: status }),
    {
        if status != 0 {
            return Err(from_errno(status));
        }
        Ok(QueuePairAttr { mask: options.mask, qp_state, cap })
    }

    /// Reports how posting `requests` to the send queue went: the driver
    /// returned `ret`, left `errno` as the thread-local code, and named the
    /// request at place `bad_wr` as the one it stopped at.
    ///
    /// The hardware takes the requests in order and stops at the first that
    /// it rejects; what it took before stays taken.
    pub fn post_send(&self, requests: &Vec<SendRequest>, ret: i32, errno: i32, bad_wr: Option<usize>) -> (r: Result<
        (),
        PostFailure,
    >)
        ensures
            r == post_outcome(send_ids(requests@), ret, errno, bad_wr),
    {
        match check_post_status(ret, errno) {
            Ok(()) => Ok(()),
            Err(error) => {
                match bad_wr {
                    Some(k) => if k < requests.len() {
                        Err(PostFailure { error, first_rejected: Some(k), wr_id: Some(requests[k].wr_id) })
                    } else {
                        Err(PostFailure { error, first_rejected: None, wr_id: None })
                    },
                    None => Err(PostFailure { error, first_rejected: None, wr_id: None }),
                }
            },
        }
    }

    /// Reports how posting `requests` to the receive queue went; see
    /// [`Self::post_send`].
    pub fn post_recv(&self, requests: &Vec<RecvRequest>, ret: i32, errno: i32, bad_wr: Option<usize>) -> (r: Result<
        (),
        PostFailure,
    >)
        ensures
            r == post_outcome(recv_ids(requests@), ret, errno, bad_wr),
    {
        match check_post_status(ret, errno) {
            Ok(()) => Ok(()),
            Err(error) => {
                match bad_wr {
                    Some(k) => if k < requests.len() {
                        Err(PostFailure { error, first_rejected: Some(k), wr_id: Some(requests[k].wr_id) })
                    } else {
                        Err(PostFailure { error, first_rejected: None, wr_id: None })
                    },
                    None => Err(PostFailure { error, first_rejected: None, wr_id: None }),
                }
            },
        }
    }

    /// The resources that the queue pair keeps alive.
    pub fn dependency_list(&self) -> (deps: Vec<usize>)
        ensures
            deps@ == self@.dependencies(),
    {
        let mut deps: Vec<usize> = Vec::new();
        if let Some(id) = self.pd {
            deps.push(id);
        }
        if let Some(id) = self.send_cq {
            deps.push(id);
        }
        if let Some(id) = self.recv_cq {
            deps.push(id);
        }
        if let Some(id) = self.srq {
            deps.push(id);
        }
        deps
    }

    /// Enters the staged posting interface that the driver gave for this
    /// queue pair. It keeps alive the queue pair and what the queue pair
    /// keeps alive. A null token means that the device has no such
    /// interface for the queue pair.
    pub fn to_qp_ex(&self, table: &mut ResourceTable, token: usize) -> (r: Result<QueuePairEx, Error>)
        requires
            old(table).wf(),
        ensures
            final(table).wf(),
            r is Ok <==> token != 0 && can_depend_on(old(table)@, self@.dependencies().push(self@.id)),
            r matches Ok(qp_ex) ==> qp_ex@ == (QueuePairExView {
                id: old(table)@.len() as usize,
                session: Session::Idle,
                wr_id: 0,
                wr_flags: 0,
                staged: Seq::empty(),
            }) && final(table)@ == old(table)@.push(
                fresh(ResourceKind::QueuePairEx, token, self@.dependencies().push(self@.id)),
            ),
            r matches Err(e) ==> final(table)@ == old(table)@ && if token == 0 {
                e matches Error::ResourceCreationFailed { context } && context@ == "Failed to create qp_ex"@
            } else {
                e is InvalidArgument
            },
    {
        let mut deps = self.dependency_list();
        deps.push(self.id);
        match table.create_resource(ResourceKind::QueuePairEx, token, deps, "Failed to create qp_ex") {
            Ok(id) => Ok(QueuePairEx::new(id)),
            Err(e) => Err(e),
        }
    }
}

/// State machine legality. A change of state that the state machine does
/// not allow fails whatever the driver would have said, and any `modify`
/// that fails leaves the state of the queue pair as it was.
pub proof fn law_illegal_transition_rejected(state: QueuePairState, options: ModifyOptions, status: i32)
    ensures
        (options.target() matches Some(to) && !state.may_become(to)) ==> modify_outcome(state, options, status).0
            == Err::<(), Error>(Error::InvalidArgument),
        !options.matched() ==> modify_outcome(state, options, status).0 == Err::<(), Error>(
            Error::InvalidArgument,
        ),
        modify_outcome(state, options, status).0 is Err ==> modify_outcome(state, options, status).1 == state,
        modify_outcome(state, options, status).0 is Ok ==> status == 0 && modify_outcome(state, options, status).1
            == match options.target() {
            Some(to) => to,
            None => state,
        },
        !QueuePairState::Reset.may_become(QueuePairState::ReadyToSend),
{
}

/// Each bit that a setter of the options sets stands for an attribute that
/// the options carry, and the options that give nothing name nothing.
pub proof fn lemma_modifiable_bits()
    ensures
        ModifyOptions::blank().matched(),
        IBV_QP_STATE & !IBV_QP_MODIFIABLE == 0,
        IBV_QP_PKEY_INDEX & !IBV_QP_MODIFIABLE == 0,
        IBV_QP_PORT & !IBV_QP_MODIFIABLE == 0,
        IBV_QP_QKEY & !IBV_QP_MODIFIABLE == 0,
        IBV_QP_ACCESS_FLAGS & !IBV_QP_MODIFIABLE == 0,
        IBV_QP_PATH_MTU & !IBV_QP_MODIFIABLE == 0,
        IBV_QP_DEST_QPN & !IBV_QP_MODIFIABLE == 0,
        IBV_QP_RQ_PSN & !IBV_QP_MODIFIABLE == 0,
        IBV_QP_MAX_DEST_RD_ATOMIC & !IBV_QP_MODIFIABLE == 0,
        IBV_QP_MIN_RNR_TIMER & !IBV_QP_MODIFIABLE == 0,
        IBV_QP_AV & !IBV_QP_MODIFIABLE == 0,
        IBV_QP_TIMEOUT & !IBV_QP_MODIFIABLE == 0,
        IBV_QP_RETRY_CNT & !IBV_QP_MODIFIABLE == 0,
        IBV_QP_RNR_RETRY & !IBV_QP_MODIFIABLE == 0,
        IBV_QP_SQ_PSN & !IBV_QP_MODIFIABLE == 0,
        IBV_QP_MAX_QP_RD_ATOMIC & !IBV_QP_MODIFIABLE == 0,
{
    assert(0u32 & !IBV_QP_MODIFIABLE == 0) by (bit_vector);
    assert(IBV_QP_STATE & !IBV_QP_MODIFIABLE == 0 && IBV_QP_PKEY_INDEX & !IBV_QP_MODIFIABLE == 0 && IBV_QP_PORT
        & !IBV_QP_MODIFIABLE == 0 && IBV_QP_QKEY & !IBV_QP_MODIFIABLE == 0 && IBV_QP_ACCESS_FLAGS
        & !IBV_QP_MODIFIABLE == 0 && IBV_QP_PATH_MTU & !IBV_QP_MODIFIABLE == 0 && IBV_QP_DEST_QPN
        & !IBV_QP_MODIFIABLE == 0 && IBV_QP_RQ_PSN & !IBV_QP_MODIFIABLE == 0) by (bit_vector);
    assert(IBV_QP_MAX_DEST_RD_ATOMIC & !IBV_QP_MODIFIABLE == 0 && IBV_QP_MIN_RNR_TIMER & !IBV_QP_MODIFIABLE == 0
        && IBV_QP_AV & !IBV_QP_MODIFIABLE == 0 && IBV_QP_TIMEOUT & !IBV_QP_MODIFIABLE == 0 && IBV_QP_RETRY_CNT
        & !IBV_QP_MODIFIABLE == 0 && IBV_QP_RNR_RETRY & !IBV_QP_MODIFIABLE == 0 && IBV_QP_SQ_PSN
        & !IBV_QP_MODIFIABLE == 0 && IBV_QP_MAX_QP_RD_ATOMIC & !IBV_QP_MODIFIABLE == 0) by (bit_vector);
}

/// Setters keep the mask matched. Where the mask goes with the attributes,
/// it still does after a bit for an attribute that the options carry was
/// set.
pub proof fn law_setters_keep_mask_matched(options: ModifyOptions, bit: u32)
    requires
        options.matched(),
        bit & !IBV_QP_MODIFIABLE == 0,
    ensures
        (ModifyOptions { mask: options.mask | bit, ..options }).matched(),
{
    let m = options.mask;
    assert((m | bit) & !IBV_QP_MODIFIABLE == 0) by (bit_vector)
        requires
            m & !IBV_QP_MODIFIABLE == 0,
            bit & !IBV_QP_MODIFIABLE == 0,
    ;
}

/// Partial post failure. Where the hardware rejects the request at place
/// `k` of the list, the failure names that place and that request's
/// identifier, the requests before it are reported as taken, and no request
/// from `k` on is.
pub proof fn law_partial_post(wr_ids: Seq<u64>, k: usize, ret: i32, errno: i32)
    requires
        k < wr_ids.len(),
        ret != 0,
    ensures
        post_outcome(wr_ids, ret, errno, Some(k)) matches Err(failure) && failure.first_rejected == Some(k)
            && failure.wr_id == Some(wr_ids[k as int]) && failure.error == (Error::OperationFailed {
            os_error_code: failure_code(ret, errno),
        }),
        forall|i: int|
            0 <= i < k ==> reported_submitted(wr_ids.len(), post_outcome(wr_ids, ret, errno, Some(k)), i),
        forall|i: int| i >= k ==> !reported_submitted(wr_ids.len(), post_outcome(wr_ids, ret, errno, Some(k)), i),
{
}

/// Round trip of the state. After `modify` took a queue pair to the state
/// `to`, a `query` that asks for the state reads `to`, where the driver
/// reports the state that it was given.
pub proof fn law_state_round_trip(
    from: QueuePairState,
    written: ModifyOptions,
    asked: QueryOptions,
    to: QueuePairState,
    cap: QueuePairCapacity,
)
    requires
        from.may_become(to),
        written.matched(),
    ensures
        ({
            let options = ModifyOptions { mask: written.mask | IBV_QP_STATE, qp_state: to, ..written };
            let query = QueryOptions { mask: asked.mask | IBV_QP_STATE };
            let after = modify_outcome(from, options, 0).1;
            let attr = QueuePairAttr { mask: query.mask, qp_state: after.code(), cap };
            &&& modify_outcome(from, options, 0).0 is Ok
            &&& after == to
            &&& attr.state_readable()
            &&& attr.state_read() == Some(to)
        }),
{
    lemma_set_bit(written.mask, IBV_QP_STATE);
    lemma_set_bit(asked.mask, IBV_QP_STATE);
    lemma_modifiable_bits();
    law_setters_keep_mask_matched(written, IBV_QP_STATE);
}

/// Round trip of the capacity. A `query` that asks for the capacity reads
/// the capacity that the driver reports, and one that does not ask reads
/// none.
pub proof fn law_capacity_round_trip(asked: QueryOptions, qp_state: u32, cap: QueuePairCapacity)
    ensures
        (QueuePairAttr { mask: asked.mask | IBV_QP_CAP, qp_state, cap }).cap_read() == Some(cap),
        (QueuePairAttr { mask: 0, qp_state, cap }).cap_read() is None,
        (QueuePairAttr { mask: 0, qp_state, cap }).state_read() is None,
{
    lemma_set_bit(asked.mask, IBV_QP_CAP);
    assert(0u32 & IBV_QP_CAP == 0) by (bit_vector);
    assert(0u32 & IBV_QP_STATE == 0) by (bit_vector);
}

/// One receive path. The options to start from name no way to receive,
/// and naming one way drops the other: options that are built by the
/// setters alone never name both.
pub proof fn law_one_receive_path(options: QueuePairOptions, id: usize)
    ensures
        QueuePairOptions::blank().one_receive_path(),
        (QueuePairOptions { recv_cq: Some(id), srq: None, ..options }).one_receive_path(),
        (QueuePairOptions { srq: Some(id), recv_cq: None, ..options }).one_receive_path(),
        options.one_receive_path() ==> {
            &&& (QueuePairOptions { user_data: id, ..options }).one_receive_path()
            &&& (QueuePairOptions { send_cq: Some(id), ..options }).one_receive_path()
            &&& (QueuePairOptions { pd: Some(id), ..options }).one_receive_path()
        },
{
}

/// What a queue pair names, it depends on: its protection domain, its two
/// completion queues and its shared receive queue are among the
/// dependencies by which the resource table keeps them alive.
pub proof fn law_named_resources_are_dependencies(options: QueuePairOptions)
    ensures
        options.pd matches Some(id) ==> options.dependencies().contains(id),
        options.send_cq matches Some(id) ==> options.dependencies().contains(id),
        options.recv_cq matches Some(id) ==> options.dependencies().contains(id),
        options.srq matches Some(id) ==> options.dependencies().contains(id),
        forall|id: usize| #[trigger]
            options.dependencies().contains(id) ==> options.pd == Some(id) || options.send_cq == Some(id)
                || options.recv_cq == Some(id) || options.srq == Some(id),
{
    let a = match options.pd {
        Some(id) => seq![id],
        None => Seq::<usize>::empty(),
    };
    let b = match options.send_cq {
        Some(id) => a.push(id),
        None => a,
    };
    let c = match options.recv_cq {
        Some(id) => b.push(id),
        None => b,
    };
    let d = options.dependencies();
    if let Some(id) = options.pd {
        assert(a[0] == id);
        assert(d[0] == id);
    }
    if let Some(id) = options.send_cq {
        assert(b[b.len() - 1] == id);
        assert(d[b.len() - 1] == id);
    }
    if let Some(id) = options.recv_cq {
        assert(c[c.len() - 1] == id);
        assert(d[c.len() - 1] == id);
    }
    if let Some(id) = options.srq {
        assert(d[d.len() - 1] == id);
    }
}

/// Dependency keep-alive of a queue pair. After a queue pair was created,
/// giving up the application's handle on anything that its options named
/// retires nothing: the queue pair keeps it alive.
pub proof fn law_queue_pair_keeps_alive(
    before: Seq<ResourceView>,
    options: QueuePairOptions,
    token: usize,
    dep: usize,
)
    requires
        well_formed(before.push(fresh(ResourceKind::QueuePair, token, options.dependencies()))),
        options.pd == Some(dep) || options.send_cq == Some(dep) || options.recv_cq == Some(dep) || options.srq
            == Some(dep),
        holds_handle(before, dep as int),
    ensures
        ({
            let after = before.push(fresh(ResourceKind::QueuePair, token, options.dependencies()));
            &&& forall|x: int| !retires(after, dep as int, x)
            &&& after_release(after, dep as int)[dep as int].live
            &&& after_release(after, dep as int)[before.len() as int].live
        }),
{
    let after = before.push(fresh(ResourceKind::QueuePair, token, options.dependencies()));
    law_named_resources_are_dependencies(options);
    assert(options.dependencies().contains(dep));
    let k = choose|k: int| 0 <= k < options.dependencies().len() && options.dependencies()[k] == dep;
    assert(after[before.len() as int].deps[k] == dep);
    assert(names(after[before.len() as int], dep as int));
    law_dependency_kept_alive(after, before.len() as int, dep as int);
}

} // verus!
