use rdma::ah::{AddressHandle, AddressHandleOptions};
use rdma::bindings::{EINVAL, ENOSYS, EOPNOTSUPP, EPERM};
use rdma::cq::WorkCompletion;
use rdma::ctx::Context;
use rdma::device::Mtu;
use rdma::error::{check_post_status, check_status, custom_error, from_errno, Error};
use rdma::ibverbs::{
    ibv_alloc_dm, ibv_alloc_mw, ibv_bind_mw, ibv_create_cq_ex, ibv_create_qp_ex, ibv_free_dm,
    ibv_query_device_ex, ibv_query_port, ibv_reg_mr, query_device_falls_back, verbs_get_ctx_op,
    ExtendedContext, MwBind, Route,
};
use rdma::mr::{AccessFlags, MemoryRegion};
use rdma::mw::{MemoryWindow, MemoryWindowType};
use rdma::poll_cq_attr::PollCQAttr;
use rdma::resource::{ResourceKind, ResourceTable};

fn require_send_sync<T: Send + Sync>() {}

#[test]
fn context_marker() {
    require_send_sync::<Context>();
    require_send_sync::<ResourceTable>();
}

#[test]
fn ctx_marker() {
    require_send_sync::<Context>();
    require_send_sync::<ResourceTable>();
}

#[test]
fn address_handle_options_start_at_zero() {
    assert_eq!(AddressHandleOptions::default(), AddressHandleOptions { dlid: 0, sl: 0, port_num: 0 });
    let mut options = AddressHandleOptions::default();
    options.dest_lid(0x1234);
    assert_eq!(options, AddressHandleOptions { dlid: 0x1234, sl: 0, port_num: 0 });
    options.service_level(3);
    assert_eq!(options, AddressHandleOptions { dlid: 0x1234, sl: 3, port_num: 0 });
    options.port_num(2);
    assert_eq!(options, AddressHandleOptions { dlid: 0x1234, sl: 3, port_num: 2 });
    options.dest_lid(1).port_num(1).service_level(1);
    assert_eq!(options, AddressHandleOptions { dlid: 1, sl: 1, port_num: 1 });
}

#[test]
fn address_handle_keeps_its_attributes() {
    let mut table = ResourceTable::new();
    let ctx = Context::open(&mut table, 1).unwrap();
    let pd = ctx.alloc_pd(&mut table, 2).unwrap();
    let mut options = AddressHandleOptions::default();
    options.dest_lid(5).port_num(1);
    let ah = AddressHandle::create(&mut table, &pd, options, 3).unwrap();
    assert_eq!(ah.attr(), options);
    assert_eq!(table.kind(ah.id()), Some(ResourceKind::AddressHandle));
    assert_eq!(table.dependents(pd.id()), 1);
    assert_eq!(
        AddressHandle::create(&mut table, &pd, options, 0).err(),
        Some(Error::ResourceCreationFailed { context: "failed to create address handle".to_string() })
    );
}

#[test]
fn memory_window_keeps_its_type() {
    let mut table = ResourceTable::new();
    let ctx = Context::open(&mut table, 1).unwrap();
    let pd = ctx.alloc_pd(&mut table, 2).unwrap();
    let mw = MemoryWindow::allocate(&mut table, &pd, MemoryWindowType::Type2, 3).unwrap();
    assert_eq!(mw.mw_type(), MemoryWindowType::Type2);
    assert_eq!(MemoryWindowType::Type1.to_c_uint(), 1);
    assert_eq!(MemoryWindowType::Type2.to_c_uint(), 2);
    assert_eq!(
        MemoryWindow::allocate(&mut table, &pd, MemoryWindowType::Type1, 0).err(),
        Some(Error::ResourceCreationFailed { context: "failed to allocate memory window".to_string() })
    );
    // The window keeps its domain alive.
    assert_eq!(table.release(pd.id()).unwrap(), vec![]);
    let out: Vec<usize> = table.release(mw.id()).unwrap().iter().map(|r| r.id).collect();
    assert_eq!(out, vec![mw.id(), pd.id()]);
}

#[test]
fn memory_region_keeps_range_and_keys() {
    let mut table = ResourceTable::new();
    let ctx = Context::open(&mut table, 1).unwrap();
    let pd = ctx.alloc_pd(&mut table, 2).unwrap();
    let access = AccessFlags::local_write().union(AccessFlags::remote_read());
    let mr = MemoryRegion::register(&mut table, &pd, 0x10000, 4096, access, 3, 0x11, 0x22).unwrap();
    assert_eq!((mr.addr(), mr.length(), mr.lkey(), mr.rkey()), (0x10000, 4096, 0x11, 0x22));
    assert_eq!(mr.access(), access);
    assert_eq!(
        MemoryRegion::register(&mut table, &pd, 0x10000, 4096, access, 0, 0, 0).err(),
        Some(Error::ResourceCreationFailed { context: "failed to register memory region".to_string() })
    );
}

#[test]
fn access_flags_are_a_bit_set() {
    assert_eq!(AccessFlags::empty().to_c_uint(), 0);
    assert_eq!(AccessFlags::local_write().to_c_uint(), 1);
    assert_eq!(AccessFlags::remote_write().to_c_uint(), 2);
    assert_eq!(AccessFlags::remote_read().to_c_uint(), 4);
    assert_eq!(AccessFlags::remote_atomic().to_c_uint(), 8);
    assert_eq!(AccessFlags::mw_bind().to_c_uint(), 16);
    let set = AccessFlags::local_write().union(AccessFlags::mw_bind());
    assert_eq!(set.to_c_uint(), 17);
    assert!(set.contains(AccessFlags::mw_bind()));
    assert!(set.contains(AccessFlags::empty()));
    assert!(!set.contains(AccessFlags::remote_read()));
    assert!(!set.contains(AccessFlags::local_write().union(AccessFlags::remote_read())));
}

#[test]
fn mtu_codes_and_sizes() {
    let all = [Mtu::Mtu256, Mtu::Mtu512, Mtu::Mtu1024, Mtu::Mtu2048, Mtu::Mtu4096];
    assert_eq!(all.map(|m| m.to_c_uint()), [1, 2, 3, 4, 5]);
    assert_eq!(all.map(|m| m.size()), [256, 512, 1024, 2048, 4096]);
}

#[test]
fn poll_attributes_ask_for_nothing() {
    assert_eq!(PollCQAttr::new_empty().comp_mask, 0);
    assert_eq!(PollCQAttr::new_empty(), PollCQAttr::default());
}

#[test]
fn poll_hands_out_what_the_driver_wrote() {
    let mut table = ResourceTable::new();
    let ctx = Context::open(&mut table, 1).unwrap();
    let cq = ctx.create_cq(&mut table, 8, 0, 2).unwrap();
    let record = |wr_id: u64| WorkCompletion { wr_id, status: 0, opcode: 0, byte_len: 64, imm_data: 0, wc_flags: 0 };
    let buffer: Vec<WorkCompletion> = (1..=4).map(record).collect();
    assert_eq!(cq.poll(4, 0, buffer.clone()), Ok(vec![]));
    assert_eq!(cq.poll(4, 2, buffer.clone()), Ok(vec![record(1), record(2)]));
    assert_eq!(cq.poll(4, 4, buffer.clone()), Ok(buffer.clone()));
    // Never more than was asked for, nor than there is.
    assert_eq!(cq.poll(3, 4, buffer.clone()), Ok(vec![record(1), record(2), record(3)]));
    assert_eq!(cq.poll(9, 9, buffer.clone()), Ok(buffer.clone()));
    assert_eq!(cq.poll(4, -1, buffer), Err(Error::OperationFailed { os_error_code: -1 }));
}

#[test]
fn completion_status_and_immediate_data() {
    let ok = WorkCompletion { wr_id: 1, status: 0, opcode: 128, byte_len: 4, imm_data: 0xbeef, wc_flags: 2 };
    assert_eq!(ok.status(), Ok(()));
    assert_eq!(ok.imm_data(), Some(0xbeef));
    let plain = WorkCompletion { wc_flags: 1, ..ok };
    assert_eq!(plain.imm_data(), None);
    let failed = WorkCompletion { status: 12, ..ok };
    assert_eq!(failed.status(), Err(Error::OperationFailed { os_error_code: 12 }));
    let huge = WorkCompletion { status: u32::MAX, ..ok };
    assert_eq!(huge.status(), Err(Error::OperationFailed { os_error_code: i32::MAX }));
}

#[test]
fn status_translation() {
    assert_eq!(check_status(0), Ok(()));
    assert_eq!(check_status(22), Err(Error::OperationFailed { os_error_code: 22 }));
    assert_eq!(check_status(-3), Err(Error::OperationFailed { os_error_code: -3 }));
    assert_eq!(check_post_status(0, 5), Ok(()));
    assert_eq!(check_post_status(-1, 5), Err(Error::OperationFailed { os_error_code: 5 }));
    assert_eq!(check_post_status(-12, 0), Err(Error::OperationFailed { os_error_code: 12 }));
    assert_eq!(check_post_status(12, 0), Err(Error::OperationFailed { os_error_code: 12 }));
    assert_eq!(from_errno(95), Error::OperationFailed { os_error_code: 95 });
    assert_eq!(custom_error("failed"), Error::ResourceCreationFailed { context: "failed".to_string() });
}

#[test]
fn extended_operations_need_an_extended_context() {
    let ctx = ExtendedContext { marked: true, declared_size: 100, known_size: 400 };
    assert!(verbs_get_ctx_op(&ctx, 300, true));
    assert!(verbs_get_ctx_op(&ctx, 400, true));
    assert!(!verbs_get_ctx_op(&ctx, 299, true));
    assert!(!verbs_get_ctx_op(&ctx, 300, false));
    assert!(!verbs_get_ctx_op(&ExtendedContext { marked: false, ..ctx }, 300, true));
}

#[test]
fn entry_points_choose_their_route() {
    assert_eq!(ibv_create_cq_ex(true), Route::Extended);
    assert_eq!(ibv_create_cq_ex(false), Route::Refuse(EOPNOTSUPP));
    assert_eq!(ibv_query_port(true), Route::Extended);
    assert_eq!(ibv_query_port(false), Route::Legacy);
    assert_eq!(ibv_alloc_mw(true), Route::Legacy);
    assert_eq!(ibv_alloc_mw(false), Route::Refuse(95));
    assert_eq!(ibv_alloc_dm(true), Route::Extended);
    assert_eq!(ibv_alloc_dm(false), Route::Refuse(95));
    assert_eq!(ibv_free_dm(true), Route::Extended);
    assert_eq!(ibv_free_dm(false), Route::Refuse(95));
    assert_eq!(ibv_create_qp_ex(1, false), Route::Legacy);
    assert_eq!(ibv_create_qp_ex(1, true), Route::Legacy);
    assert_eq!(ibv_create_qp_ex(0x41, true), Route::Extended);
    assert_eq!(ibv_create_qp_ex(0x41, false), Route::Refuse(EOPNOTSUPP));
    assert_eq!(ibv_create_qp_ex(0, false), Route::Refuse(EOPNOTSUPP));
    assert_eq!(ibv_reg_mr(0x1f), Route::Legacy);
    assert_eq!(ibv_reg_mr(0x100000), Route::Extended);
    assert_eq!(ibv_reg_mr(0x20000007), Route::Extended);
    assert_eq!(ibv_reg_mr(0x40000000), Route::Legacy);
}

#[test]
fn device_query_routes() {
    assert_eq!(ibv_query_device_ex(None, true), Route::Extended);
    assert_eq!(ibv_query_device_ex(None, false), Route::Legacy);
    assert_eq!(ibv_query_device_ex(Some(0), true), Route::Extended);
    assert_eq!(ibv_query_device_ex(Some(0), false), Route::Legacy);
    assert_eq!(ibv_query_device_ex(Some(1), true), Route::Refuse(EINVAL));
    assert_eq!(ibv_query_device_ex(Some(1), false), Route::Refuse(22));
    assert!(query_device_falls_back(EOPNOTSUPP));
    assert!(query_device_falls_back(ENOSYS));
    assert!(!query_device_falls_back(0));
    assert!(!query_device_falls_back(EINVAL));
}

#[test]
fn bind_requests_are_checked() {
    let bind = MwBind { mw_type: 1, mw_pd: 7, mr_pd: Some(7), addr: 0x1000, length: 64 };
    assert_eq!(ibv_bind_mw(&bind), Route::Legacy);
    assert_eq!(ibv_bind_mw(&MwBind { mw_type: 2, ..bind }), Route::Refuse(EINVAL));
    assert_eq!(ibv_bind_mw(&MwBind { mr_pd: Some(8), ..bind }), Route::Refuse(EPERM));
    assert_eq!(ibv_bind_mw(&MwBind { mr_pd: None, ..bind }), Route::Refuse(EINVAL));
    assert_eq!(ibv_bind_mw(&MwBind { mr_pd: None, addr: 0, ..bind }), Route::Refuse(22));
    assert_eq!(ibv_bind_mw(&MwBind { mr_pd: None, length: 0, ..bind }), Route::Refuse(22));
    assert_eq!(ibv_bind_mw(&MwBind { mr_pd: None, addr: 0, length: 0, ..bind }), Route::Legacy);
    assert_eq!(ibv_bind_mw(&MwBind { mw_type: 2, mr_pd: Some(8), ..bind }), Route::Refuse(EINVAL));
    assert_eq!(EPERM, 1);
}
