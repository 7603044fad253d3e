use rdma::ah::AddressHandleOptions;
use rdma::bindings::{
    IBV_QP_ACCESS_FLAGS, IBV_QP_AV, IBV_QP_CAP, IBV_QP_DEST_QPN, IBV_QP_INIT_ATTR_PD,
    IBV_QP_MAX_DEST_RD_ATOMIC, IBV_QP_MAX_QP_RD_ATOMIC, IBV_QP_MIN_RNR_TIMER, IBV_QP_MODIFIABLE,
    IBV_QP_PATH_MTU,
    IBV_QP_PKEY_INDEX, IBV_QP_PORT, IBV_QP_QKEY, IBV_QP_RETRY_CNT, IBV_QP_RNR_RETRY,
    IBV_QP_RQ_PSN, IBV_QP_SQ_PSN, IBV_QP_STATE, IBV_QP_TIMEOUT,
};
use rdma::ctx::Context;
use rdma::device::Mtu;
use rdma::error::Error;
use rdma::mr::AccessFlags;
use rdma::qp::{
    ModifyOptions, PostFailure, QueryOptions, QueuePair, QueuePairAttr, QueuePairCapacity,
    QueuePairOptions, QueuePairState, QueuePairType,
};
use rdma::resource::{ResourceKind, ResourceTable};
use rdma::srq::SharedReceiveQueue;
use rdma::wr::{RecvRequest, SendRequest, Sge};

const STATES: [QueuePairState; 8] = [
    QueuePairState::Reset,
    QueuePairState::Initialize,
    QueuePairState::ReadyToReceive,
    QueuePairState::ReadyToSend,
    QueuePairState::SendQueueDrained,
    QueuePairState::SendQueueError,
    QueuePairState::Error,
    QueuePairState::Unknown,
];

fn fresh_qp() -> QueuePair {
    let mut table = ResourceTable::new();
    QueuePair::create(&mut table, QueuePair::options(), 0x10, 5).unwrap()
}

fn to_state(state: QueuePairState) -> ModifyOptions {
    let mut options = ModifyOptions::default();
    options.qp_state(state);
    options
}

fn connected_qp() -> QueuePair {
    let mut qp = fresh_qp();
    assert_eq!(qp.modify(to_state(QueuePairState::Initialize), 0), Ok(()));
    assert_eq!(qp.modify(to_state(QueuePairState::ReadyToReceive), 0), Ok(()));
    assert_eq!(qp.modify(to_state(QueuePairState::ReadyToSend), 0), Ok(()));
    qp
}

fn send(wr_id: u64) -> SendRequest {
    SendRequest {
        wr_id,
        sg_list: vec![Sge { addr: 0x1000, length: 64, lkey: 7 }],
        opcode: 0,
        send_flags: 0,
        imm_data: 0,
        remote_addr: 0,
        rkey: 0,
    }
}

#[test]
fn qp_cap_layout() {
    assert_eq!(std::mem::size_of::<QueuePairCapacity>(), std::mem::size_of::<[u32; 5]>());
    assert_eq!(std::mem::align_of::<QueuePairCapacity>(), std::mem::align_of::<[u32; 5]>());
    let cap = QueuePairCapacity {
        max_send_wr: 1,
        max_recv_wr: 2,
        max_send_sge: 3,
        max_recv_sge: 4,
        max_inline_data: 5,
    };
    assert_eq!(
        [cap.max_send_wr, cap.max_recv_wr, cap.max_send_sge, cap.max_recv_sge, cap.max_inline_data],
        [1, 2, 3, 4, 5]
    );
    assert_eq!(
        QueuePairCapacity::default(),
        QueuePairCapacity {
            max_send_wr: 0,
            max_recv_wr: 0,
            max_send_sge: 0,
            max_recv_sge: 0,
            max_inline_data: 0
        }
    );
}

#[test]
fn state_codes() {
    let codes: Vec<u32> = STATES.iter().map(|s| s.to_c_uint()).collect();
    assert_eq!(codes, vec![0, 1, 2, 3, 4, 5, 6, 7]);
    for (code, state) in STATES.iter().enumerate() {
        assert_eq!(QueuePairState::from_c_uint(code as u32), *state);
    }
}

#[test]
fn type_codes() {
    assert_eq!(QueuePairType::RC.to_c_uint(), 2);
    assert_eq!(QueuePairType::UC.to_c_uint(), 3);
    assert_eq!(QueuePairType::UD.to_c_uint(), 4);
    assert_eq!(QueuePairType::Driver.to_c_uint(), 0xff);
    assert_eq!(QueuePairType::XrcRecv.to_c_uint(), 10);
    assert_eq!(QueuePairType::XrcSend.to_c_uint(), 9);
}

#[test]
fn legal_transitions_are_the_chain_and_the_side_states() {
    for from in STATES {
        for to in STATES {
            let chain = matches!(
                (from, to),
                (QueuePairState::Reset, QueuePairState::Initialize)
                    | (QueuePairState::Initialize, QueuePairState::ReadyToReceive)
                    | (QueuePairState::ReadyToReceive, QueuePairState::ReadyToSend)
            );
            let active = matches!(
                from,
                QueuePairState::Initialize | QueuePairState::ReadyToReceive | QueuePairState::ReadyToSend
            );
            let aside = matches!(
                to,
                QueuePairState::SendQueueDrained | QueuePairState::SendQueueError | QueuePairState::Error
            );
            assert_eq!(from.can_become(to), chain || (active && aside), "{:?} -> {:?}", from, to);
        }
    }
}

#[test]
fn options_builder_sets_each_field() {
    let mut table = ResourceTable::new();
    let ctx = Context::open(&mut table, 1).unwrap();
    let pd = ctx.alloc_pd(&mut table, 2).unwrap();
    let send_cq = ctx.create_cq(&mut table, 8, 0, 3).unwrap();
    let recv_cq = ctx.create_cq(&mut table, 8, 0, 4).unwrap();
    let cap = QueuePairCapacity {
        max_send_wr: 16,
        max_recv_wr: 32,
        max_send_sge: 2,
        max_recv_sge: 3,
        max_inline_data: 64,
    };
    let mut options = QueuePair::options();
    assert_eq!(options, QueuePairOptions::default());
    options
        .user_data(0xfeed)
        .send_cq(&send_cq)
        .recv_cq(&recv_cq)
        .qp_type(QueuePairType::RC)
        .sq_sig_all(true)
        .cap(cap)
        .pd(&pd)
        .send_ops_flags(0x41);
    assert_eq!(
        options,
        QueuePairOptions {
            user_data: 0xfeed,
            send_cq: Some(send_cq.id()),
            recv_cq: Some(recv_cq.id()),
            pd: Some(pd.id()),
            srq: None,
            qp_type: 2,
            sq_sig_all: true,
            cap,
            comp_mask: IBV_QP_INIT_ATTR_PD,
            send_ops_flags: 0x41,
        }
    );
    assert_eq!(options.dependency_list(), vec![pd.id(), send_cq.id(), recv_cq.id()]);
    options.comp_mask(0x47);
    assert_eq!(options.comp_mask, 0x47);
    options.pd(&pd);
    assert_eq!(options.comp_mask, 0x47);
    options.comp_mask(0x40).pd(&pd);
    assert_eq!(options.comp_mask, 0x41);
}

#[test]
fn a_queue_pair_receives_one_way() {
    let mut table = ResourceTable::new();
    let ctx = Context::open(&mut table, 1).unwrap();
    let pd = ctx.alloc_pd(&mut table, 2).unwrap();
    let cq = ctx.create_cq(&mut table, 8, 0, 3).unwrap();
    let srq = SharedReceiveQueue::create(&mut table, &pd, 4).unwrap();
    let mut options = QueuePair::options();
    options.recv_cq(&cq);
    assert_eq!((options.recv_cq, options.srq), (Some(cq.id()), None));
    options.srq(&srq);
    assert_eq!((options.recv_cq, options.srq), (None, Some(srq.id())));
    options.recv_cq(&cq);
    assert_eq!((options.recv_cq, options.srq), (Some(cq.id()), None));
    options.srq(&srq).send_cq(&cq).pd(&pd);
    assert_eq!(options.dependency_list(), vec![pd.id(), cq.id(), srq.id()]);
}

#[test]
fn create_enters_the_queue_pair() {
    let mut table = ResourceTable::new();
    let ctx = Context::open(&mut table, 1).unwrap();
    let pd = ctx.alloc_pd(&mut table, 2).unwrap();
    let cq = ctx.create_cq(&mut table, 8, 0, 3).unwrap();
    let mut options = QueuePair::options();
    options.user_data(99).pd(&pd).send_cq(&cq).recv_cq(&cq);
    let qp = ctx.create_qp(&mut table, options, 0xabc, 1234).unwrap();
    assert_eq!(qp.id(), 3);
    assert_eq!(qp.qp_num(), 1234);
    assert_eq!(qp.user_data(), 99);
    assert_eq!(qp.state(), QueuePairState::Reset);
    assert_eq!(qp.send_cq(), Some(cq.id()));
    assert_eq!(qp.recv_cq(), Some(cq.id()));
    assert_eq!(qp.dependency_list(), vec![pd.id(), cq.id(), cq.id()]);
    assert_eq!(table.kind(qp.id()), Some(ResourceKind::QueuePair));
    assert_eq!(table.token(qp.id()), Some(0xabc));
    assert_eq!(table.dependents(cq.id()), 2);
    assert_eq!(table.dependents(pd.id()), 1);
}

#[test]
fn modify_options_set_value_and_mask() {
    let mut options = ModifyOptions::default();
    assert_eq!(options.mask, 0);
    let mut route = AddressHandleOptions::default();
    route.dest_lid(9).service_level(1).port_num(2);
    options
        .qp_state(QueuePairState::ReadyToReceive)
        .pkey_index(3)
        .port_num(1)
        .qkey(0x1234)
        .qp_access_flags(AccessFlags::remote_read().union(AccessFlags::remote_write()))
        .path_mtu(Mtu::Mtu1024)
        .dest_qp_num(55)
        .rq_psn(100)
        .max_dest_rd_atomic(4)
        .min_rnr_timer(12)
        .ah_attr(route)
        .timeout(14)
        .retry_cnt(7)
        .rnr_retry(6)
        .sq_psn(200)
        .max_rd_atomic(5);
    assert_eq!(
        options,
        ModifyOptions {
            mask: 0x13bff9,
            qp_state: QueuePairState::ReadyToReceive,
            pkey_index: 3,
            port_num: 1,
            qkey: 0x1234,
            qp_access_flags: 6,
            path_mtu: 3,
            dest_qp_num: 55,
            rq_psn: 100,
            max_dest_rd_atomic: 4,
            min_rnr_timer: 12,
            ah_attr: AddressHandleOptions { dlid: 9, sl: 1, port_num: 2 },
            timeout: 14,
            retry_cnt: 7,
            rnr_retry: 6,
            sq_psn: 200,
            max_rd_atomic: 5,
        }
    );
    assert_eq!(options.mask, IBV_QP_MODIFIABLE);
    assert_eq!(
        options.mask,
        IBV_QP_STATE | IBV_QP_PKEY_INDEX | IBV_QP_PORT | IBV_QP_QKEY | IBV_QP_ACCESS_FLAGS
            | IBV_QP_PATH_MTU | IBV_QP_DEST_QPN | IBV_QP_RQ_PSN | IBV_QP_MAX_DEST_RD_ATOMIC
            | IBV_QP_MIN_RNR_TIMER | IBV_QP_AV | IBV_QP_TIMEOUT | IBV_QP_RETRY_CNT
            | IBV_QP_RNR_RETRY | IBV_QP_SQ_PSN | IBV_QP_MAX_QP_RD_ATOMIC
    );
}

#[test]
fn each_modify_setter_sets_its_own_bit() {
    let bit = |set: fn(&mut ModifyOptions)| {
        let mut options = ModifyOptions::default();
        set(&mut options);
        options.mask
    };
    assert_eq!(bit(|o| { o.qp_state(QueuePairState::Error); }), 0x1);
    assert_eq!(bit(|o| { o.qp_access_flags(AccessFlags::empty()); }), 0x8);
    assert_eq!(bit(|o| { o.pkey_index(0); }), 0x10);
    assert_eq!(bit(|o| { o.port_num(0); }), 0x20);
    assert_eq!(bit(|o| { o.qkey(0); }), 0x40);
    assert_eq!(bit(|o| { o.ah_attr(AddressHandleOptions::default()); }), 0x80);
    assert_eq!(bit(|o| { o.path_mtu(Mtu::Mtu256); }), 0x100);
    assert_eq!(bit(|o| { o.timeout(0); }), 0x200);
    assert_eq!(bit(|o| { o.retry_cnt(0); }), 0x400);
    assert_eq!(bit(|o| { o.rnr_retry(0); }), 0x800);
    assert_eq!(bit(|o| { o.rq_psn(0); }), 0x1000);
    assert_eq!(bit(|o| { o.max_rd_atomic(0); }), 0x2000);
    assert_eq!(bit(|o| { o.min_rnr_timer(0); }), 0x8000);
    assert_eq!(bit(|o| { o.sq_psn(0); }), 0x10000);
    assert_eq!(bit(|o| { o.max_dest_rd_atomic(0); }), 0x20000);
    assert_eq!(bit(|o| { o.dest_qp_num(0); }), 0x100000);
}

#[test]
fn ready_to_send_from_reset_is_rejected() {
    let mut qp = fresh_qp();
    assert_eq!(qp.check_modify(&to_state(QueuePairState::ReadyToSend)), Err(Error::InvalidArgument));
    // Whatever the driver would have said.
    assert_eq!(qp.modify(to_state(QueuePairState::ReadyToSend), 0), Err(Error::InvalidArgument));
    assert_eq!(qp.state(), QueuePairState::Reset);
    assert_eq!(qp.modify(to_state(QueuePairState::ReadyToSend), 22), Err(Error::InvalidArgument));
    assert_eq!(qp.state(), QueuePairState::Reset);
}

#[test]
fn every_illegal_transition_leaves_the_state() {
    for from in [QueuePairState::Reset, QueuePairState::Initialize, QueuePairState::ReadyToReceive, QueuePairState::ReadyToSend] {
        for to in STATES {
            let mut qp = fresh_qp();
            for step in [QueuePairState::Initialize, QueuePairState::ReadyToReceive, QueuePairState::ReadyToSend] {
                if qp.state() == from {
                    break;
                }
                qp.modify(to_state(step), 0).unwrap();
            }
            assert_eq!(qp.state(), from);
            let legal = from.can_become(to);
            assert_eq!(qp.check_modify(&to_state(to)).is_ok(), legal);
            let result = qp.modify(to_state(to), 0);
            if legal {
                assert_eq!(result, Ok(()));
                assert_eq!(qp.state(), to);
            } else {
                assert_eq!(result, Err(Error::InvalidArgument));
                assert_eq!(qp.state(), from);
            }
        }
    }
}

#[test]
fn a_failed_modify_leaves_the_state() {
    let mut qp = fresh_qp();
    assert_eq!(
        qp.modify(to_state(QueuePairState::Initialize), 22),
        Err(Error::OperationFailed { os_error_code: 22 })
    );
    assert_eq!(qp.state(), QueuePairState::Reset);
    assert_eq!(qp.modify(to_state(QueuePairState::Initialize), 0), Ok(()));
    assert_eq!(qp.state(), QueuePairState::Initialize);
}

#[test]
fn modify_without_a_state_keeps_the_state() {
    let mut qp = connected_qp();
    let mut options = ModifyOptions::default();
    options.timeout(3).retry_cnt(2);
    assert_eq!(qp.check_modify(&options), Ok(()));
    assert_eq!(qp.modify(options, 0), Ok(()));
    assert_eq!(qp.state(), QueuePairState::ReadyToSend);
    assert_eq!(qp.modify(options, -5), Err(Error::OperationFailed { os_error_code: -5 }));
    assert_eq!(qp.state(), QueuePairState::ReadyToSend);
}

#[test]
fn side_states_are_final() {
    let mut qp = connected_qp();
    assert_eq!(qp.modify(to_state(QueuePairState::SendQueueDrained), 0), Ok(()));
    assert_eq!(qp.state(), QueuePairState::SendQueueDrained);
    for to in STATES {
        assert_eq!(qp.modify(to_state(to), 0), Err(Error::InvalidArgument));
    }
    assert_eq!(qp.state(), QueuePairState::SendQueueDrained);
}

#[test]
fn query_reads_what_was_asked_for() {
    let qp = fresh_qp();
    let cap = QueuePairCapacity {
        max_send_wr: 16,
        max_recv_wr: 32,
        max_send_sge: 2,
        max_recv_sge: 3,
        max_inline_data: 64,
    };
    let mut both = QueryOptions::default();
    both.cap().qp_state();
    assert_eq!(both.mask, IBV_QP_CAP | IBV_QP_STATE);
    let attr = qp.query(both, 0, 3, cap).unwrap();
    assert!(attr.has_readable_state());
    assert_eq!(attr.cap(), Some(&cap));
    assert_eq!(attr.qp_state(), Some(QueuePairState::ReadyToSend));

    let mut only_state = QueryOptions::default();
    only_state.qp_state();
    assert_eq!(only_state.mask, 1);
    let attr = qp.query(only_state, 0, 1, cap).unwrap();
    assert_eq!(attr.cap(), None);
    assert_eq!(attr.qp_state(), Some(QueuePairState::Initialize));

    let mut only_cap = QueryOptions::default();
    only_cap.cap();
    assert_eq!(only_cap.mask, 0x80000);
    let attr = qp.query(only_cap, 0, 99, cap).unwrap();
    assert!(attr.has_readable_state());
    assert_eq!(attr.cap(), Some(&cap));
    assert_eq!(attr.qp_state(), None);

    let attr = qp.query(QueryOptions::default(), 0, 2, cap).unwrap();
    assert_eq!(attr, QueuePairAttr { mask: 0, qp_state: 2, cap });
    assert_eq!(attr.cap(), None);
    assert_eq!(attr.qp_state(), None);
}

#[test]
fn query_failure_is_the_driver_status() {
    let qp = fresh_qp();
    let mut options = QueryOptions::default();
    options.qp_state();
    assert_eq!(
        qp.query(options, 9, 0, QueuePairCapacity::default()),
        Err(Error::OperationFailed { os_error_code: 9 })
    );
}

#[test]
fn an_unreadable_state_is_told_apart() {
    let attr = QueuePairAttr { mask: IBV_QP_STATE, qp_state: 8, cap: QueuePairCapacity::default() };
    assert!(!attr.has_readable_state());
    let attr = QueuePairAttr { mask: IBV_QP_STATE, qp_state: 7, cap: QueuePairCapacity::default() };
    assert!(attr.has_readable_state());
    assert_eq!(attr.qp_state(), Some(QueuePairState::Unknown));
}

#[test]
fn query_reads_back_what_modify_wrote() {
    let mut qp = fresh_qp();
    let cap = QueuePairCapacity::default();
    let mut ask = QueryOptions::default();
    ask.qp_state();
    for state in [QueuePairState::Initialize, QueuePairState::ReadyToReceive, QueuePairState::ReadyToSend, QueuePairState::Error] {
        assert_eq!(qp.modify(to_state(state), 0), Ok(()));
        // The driver reports the state that it was given.
        let attr = qp.query(ask, 0, qp.state().to_c_uint(), cap).unwrap();
        assert_eq!(attr.qp_state(), Some(state));
    }
}

#[test]
fn post_send_succeeds_when_all_are_taken() {
    let qp = connected_qp();
    let requests = vec![send(1), send(2), send(3)];
    assert_eq!(qp.post_send(&requests, 0, 0, None), Ok(()));
    // A stale thread-local code does not turn success into failure.
    assert_eq!(qp.post_send(&requests, 0, 11, None), Ok(()));
}

#[test]
fn post_send_names_the_rejected_request() {
    let qp = connected_qp();
    let requests: Vec<SendRequest> = (10..15).map(send).collect();
    for k in 0..requests.len() {
        let failure = qp.post_send(&requests, -1, 12, Some(k)).err().unwrap();
        // The requests before the rejected one are taken, none from it on.
        assert_eq!(failure.submitted(), k);
        assert_eq!(
            failure,
            PostFailure {
                error: Error::OperationFailed { os_error_code: 12 },
                first_rejected: Some(k),
                wr_id: Some(10 + k as u64),
            }
        );
    }
}

#[test]
fn post_failure_prefers_the_thread_local_code() {
    let qp = connected_qp();
    let requests = vec![send(1)];
    let code = |ret: i32, errno: i32| match qp.post_send(&requests, ret, errno, Some(0)).err().unwrap().error {
        Error::OperationFailed { os_error_code } => os_error_code,
        other => panic!("unexpected error {:?}", other),
    };
    assert_eq!(code(-1, 12), 12);
    assert_eq!(code(22, 12), 12);
    assert_eq!(code(22, 0), 22);
    assert_eq!(code(-22, 0), 22);
    assert_eq!(code(i32::MAX, 0), i32::MAX);
    assert_eq!(code(i32::MIN + 1, 0), i32::MAX);
    assert_eq!(code(i32::MIN, 0), i32::MIN);
}

#[test]
fn post_failure_without_a_named_request() {
    let qp = connected_qp();
    let requests = vec![send(1), send(2)];
    let unnamed = PostFailure { error: Error::OperationFailed { os_error_code: 5 }, first_rejected: None, wr_id: None };
    assert_eq!(unnamed.submitted(), 0);
    assert_eq!(qp.post_send(&requests, 5, 0, None), Err(unnamed.clone()));
    assert_eq!(qp.post_send(&requests, 5, 0, Some(2)), Err(unnamed.clone()));
    assert_eq!(qp.post_send(&Vec::new(), 5, 0, Some(0)), Err(unnamed));
}

#[test]
fn post_recv_names_the_rejected_request() {
    let qp = connected_qp();
    let requests: Vec<RecvRequest> =
        (0..4).map(|i| RecvRequest { wr_id: 100 + i, sg_list: vec![Sge { addr: 0x2000, length: 32, lkey: 1 }] }).collect();
    assert_eq!(qp.post_recv(&requests, 0, 0, None), Ok(()));
    assert_eq!(
        qp.post_recv(&requests, 12, 0, Some(2)),
        Err(PostFailure {
            error: Error::OperationFailed { os_error_code: 12 },
            first_rejected: Some(2),
            wr_id: Some(102),
        })
    );
}

#[test]
fn to_qp_ex_keeps_the_queue_pair_alive() {
    let mut table = ResourceTable::new();
    let ctx = Context::open(&mut table, 1).unwrap();
    let pd = ctx.alloc_pd(&mut table, 2).unwrap();
    let mut options = QueuePair::options();
    options.pd(&pd);
    let qp = QueuePair::create(&mut table, options, 3, 1).unwrap();
    assert_eq!(
        qp.to_qp_ex(&mut table, 0).err(),
        Some(Error::ResourceCreationFailed { context: "Failed to create qp_ex".to_string() })
    );
    let qp_ex = qp.to_qp_ex(&mut table, 3).unwrap();
    assert_eq!(table.kind(qp_ex.id()), Some(ResourceKind::QueuePairEx));
    assert_eq!(table.dependents(pd.id()), 2);
    assert_eq!(table.dependents(qp.id()), 1);
    assert_eq!(table.release(qp.id()).unwrap(), vec![]);
    assert_eq!(table.release(pd.id()).unwrap(), vec![]);
    let out: Vec<usize> = table.release(qp_ex.id()).unwrap().iter().map(|r| r.id).collect();
    assert_eq!(out, vec![qp_ex.id(), qp.id(), pd.id()]);
    assert!(table.is_live(ctx.id()));
}

#[test]
fn a_mask_without_its_attribute_is_rejected() {
    let mut qp = fresh_qp();
    // The capacity is no attribute that `modify` carries.
    let mut options = to_state(QueuePairState::Initialize);
    options.mask |= IBV_QP_CAP;
    assert_eq!(qp.check_modify(&options), Err(Error::InvalidArgument));
    assert_eq!(qp.modify(options, 0), Err(Error::InvalidArgument));
    assert_eq!(qp.state(), QueuePairState::Reset);
    for bit in [0x2, 0x4, 0x4000, 0x40000, 0x80000, 0x200000, 0x8000_0000] {
        let options = ModifyOptions { mask: bit, ..ModifyOptions::default() };
        assert_eq!(qp.modify(options, 0), Err(Error::InvalidArgument), "bit {:#x}", bit);
    }
    assert_eq!(qp.modify(ModifyOptions::default(), 0), Ok(()));
    assert_eq!(qp.state(), QueuePairState::Reset);
}

#[test]
fn two_ways_to_receive_are_rejected() {
    let mut table = ResourceTable::new();
    let ctx = Context::open(&mut table, 1).unwrap();
    let pd = ctx.alloc_pd(&mut table, 2).unwrap();
    let cq = ctx.create_cq(&mut table, 8, 0, 3).unwrap();
    let srq = SharedReceiveQueue::create(&mut table, &pd, 4).unwrap();
    let mut options = QueuePair::options();
    options.pd(&pd).send_cq(&cq).recv_cq(&cq);
    assert_eq!(options.check(), Ok(()));
    options.srq = Some(srq.id());
    assert_eq!(options.check(), Err(Error::InvalidArgument));
    assert_eq!(QueuePair::create(&mut table, options, 5, 1).err(), Some(Error::InvalidArgument));
    assert_eq!(QueuePair::create(&mut table, options, 0, 1).err(), Some(Error::InvalidArgument));
    assert_eq!(table.len(), 4);
    options.srq(&srq);
    assert_eq!(options.check(), Ok(()));
    assert!(QueuePair::create(&mut table, options, 5, 1).is_ok());
}
