//! A memory-safe object model over the RDMA verbs interface: the ownership
//! graph of device resources, the queue-pair state machine, and the staged
//! work-request posting protocol.
//!
//! The library decides; it never touches the device. Every operation takes
//! what the driver answered as plain values and returns what follows from it.

pub mod ah;
pub mod bindings;
pub mod cq;
pub mod ctx;
pub mod device;
pub mod error;
pub mod ibverbs;
pub mod mr;
pub mod mw;
pub mod pd;
pub mod poll_cq_attr;
pub mod qp;
pub mod qp_ex;
pub mod resource;
pub mod srq;
pub mod wr;
