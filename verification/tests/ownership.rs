use rdma::cq::{CompChannel, CompletionQueue};
use rdma::ctx::Context;
use rdma::error::Error;
use rdma::pd::ProtectionDomain;
use rdma::qp::QueuePair;
use rdma::resource::{ResourceKind, ResourceTable, Retired};
use rdma::srq::SharedReceiveQueue;

fn ids(out: &[Retired]) -> Vec<usize> {
    out.iter().map(|r| r.id).collect()
}

#[test]
fn empty_table_has_no_slots() {
    let table = ResourceTable::new();
    assert_eq!(table.len(), 0);
    assert!(!table.is_live(0));
    assert_eq!(table.handles(0), 0);
    assert_eq!(table.kind(0), None);
    assert_eq!(table.token(0), None);
}

#[test]
fn null_token_is_a_failed_creation() {
    let mut table = ResourceTable::new();
    let err = Context::open(&mut table, 0).err().unwrap();
    assert_eq!(err, Error::ResourceCreationFailed { context: "failed to open device".to_string() });
    assert_eq!(table.len(), 0);
}

#[test]
fn creation_messages_name_the_resource() {
    let mut table = ResourceTable::new();
    let ctx = Context::open(&mut table, 1).unwrap();
    let pd = ctx.alloc_pd(&mut table, 2).unwrap();
    let message = |e: Error| match e {
        Error::ResourceCreationFailed { context } => context,
        other => panic!("unexpected error {:?}", other),
    };
    assert_eq!(message(ctx.alloc_pd(&mut table, 0).err().unwrap()), "failed to allocate protection domain");
    assert_eq!(message(ctx.create_cc(&mut table, 0).err().unwrap()), "failed to create completion channel");
    assert_eq!(message(ctx.create_cq(&mut table, 8, 0, 0).err().unwrap()), "failed to create completion queue");
    assert_eq!(
        message(SharedReceiveQueue::create(&mut table, &pd, 0).err().unwrap()),
        "failed to create shared receive queue"
    );
    assert_eq!(
        message(QueuePair::create(&mut table, QueuePair::options(), 0, 1).err().unwrap()),
        "failed to create queue pair"
    );
    assert_eq!(table.len(), 2);
}

#[test]
fn dependency_is_kept_alive_until_the_dependent_goes() {
    let mut table = ResourceTable::new();
    let ctx = Context::open(&mut table, 0x1000).unwrap();
    let pd = ProtectionDomain::allocate(&mut table, &ctx, 0x2000).unwrap();
    let cq = CompletionQueue::create(&mut table, &ctx, 16, 0, 0x3000).unwrap();
    let mut options = QueuePair::options();
    options.pd(&pd).send_cq(&cq).recv_cq(&cq);
    let mut qp = QueuePair::create(&mut table, options, 0x4000, 77).unwrap();

    // The application lets go of the protection domain: nothing is destroyed.
    assert_eq!(table.release(pd.id()).unwrap(), vec![]);
    assert!(table.is_live(pd.id()));
    assert_eq!(table.handles(pd.id()), 0);
    assert_eq!(table.dependents(pd.id()), 1);
    assert_eq!(table.token(pd.id()), Some(0x2000));

    // The queue pair still works.
    let mut modify = rdma::qp::ModifyOptions::default();
    modify.qp_state(rdma::qp::QueuePairState::Initialize);
    assert_eq!(qp.modify(modify, 0), Ok(()));

    // The queue pair goes: now the protection domain goes with it, after it.
    let out = table.release(qp.id()).unwrap();
    assert_eq!(
        out,
        vec![
            Retired { id: qp.id(), kind: ResourceKind::QueuePair, token: 0x4000 },
            Retired { id: pd.id(), kind: ResourceKind::ProtectionDomain, token: 0x2000 },
        ]
    );
    assert!(!table.is_live(qp.id()));
    assert!(!table.is_live(pd.id()));
    assert!(table.is_live(cq.id()));
    assert!(table.is_live(ctx.id()));
    assert_eq!(table.token(pd.id()), None);
}

#[test]
fn clones_destroy_once() {
    let mut table = ResourceTable::new();
    let ctx = Context::open(&mut table, 9).unwrap();
    let clones: Vec<Context> = (0..5).map(|_| ctx.share(&mut table).unwrap()).collect();
    assert_eq!(table.handles(ctx.id()), 6);
    let mut destroyed = 0;
    for clone in clones.iter().rev() {
        destroyed += table.release(clone.id()).unwrap().len();
        assert!(table.is_live(ctx.id()));
    }
    assert_eq!(destroyed, 0);
    let out = table.release(ctx.id()).unwrap();
    assert_eq!(out, vec![Retired { id: 0, kind: ResourceKind::Context, token: 9 }]);
    assert!(!table.is_live(ctx.id()));
    // Nothing is left to give up, and nothing is destroyed again.
    assert_eq!(table.release(ctx.id()), Err(Error::InvalidArgument));
    assert_eq!(ctx.share(&mut table).err(), Some(Error::InvalidArgument));
}

#[test]
fn release_cascades_down_to_the_context() {
    let mut table = ResourceTable::new();
    let ctx = Context::open(&mut table, 1).unwrap();
    let cc = CompChannel::create(&mut table, &ctx, 2).unwrap();
    let cq = CompletionQueue::create_with_cc(&mut table, &ctx, 4, 11, &cc, 3).unwrap();
    assert_eq!(cq.capacity(), 4);
    assert_eq!(cq.user_data(), 11);
    assert_eq!(table.dependents(ctx.id()), 2);
    assert_eq!(table.release(ctx.id()).unwrap(), vec![]);
    assert_eq!(table.release(cc.id()).unwrap(), vec![]);
    let out = table.release(cq.id()).unwrap();
    assert_eq!(ids(&out), vec![2, 1, 0]);
    assert_eq!(out[0].kind, ResourceKind::CompletionQueue);
    assert_eq!(out[1].kind, ResourceKind::CompletionChannel);
    assert_eq!(out[2].kind, ResourceKind::Context);
    assert!(!table.is_live(0) && !table.is_live(1) && !table.is_live(2));
}

#[test]
fn release_keeps_what_others_hold() {
    let mut table = ResourceTable::new();
    let ctx = Context::open(&mut table, 1).unwrap();
    let pd_a = ctx.alloc_pd(&mut table, 2).unwrap();
    let pd_b = ctx.alloc_pd(&mut table, 3).unwrap();
    assert_eq!(table.release(ctx.id()).unwrap(), vec![]);
    // The context is still held by the second domain.
    assert_eq!(ids(&table.release(pd_a.id()).unwrap()), vec![1]);
    assert!(table.is_live(ctx.id()));
    assert_eq!(ids(&table.release(pd_b.id()).unwrap()), vec![2, 0]);
}

#[test]
fn a_dependency_named_twice_counts_twice() {
    let mut table = ResourceTable::new();
    let ctx = Context::open(&mut table, 1).unwrap();
    let cq = ctx.create_cq(&mut table, 8, 0, 2).unwrap();
    let mut options = QueuePair::options();
    options.send_cq(&cq).recv_cq(&cq);
    let qp = QueuePair::create(&mut table, options, 3, 1).unwrap();
    assert_eq!(table.dependents(cq.id()), 2);
    assert_eq!(table.release(cq.id()).unwrap(), vec![]);
    assert_eq!(ids(&table.release(qp.id()).unwrap()), vec![2, 1]);
    assert_eq!(table.dependents(cq.id()), 0);
}

#[test]
fn insert_refuses_a_dependency_that_is_gone() {
    let mut table = ResourceTable::new();
    let ctx = Context::open(&mut table, 1).unwrap();
    let pd = ctx.alloc_pd(&mut table, 2).unwrap();
    assert_eq!(ids(&table.release(pd.id()).unwrap()), vec![1]);
    assert!(!table.can_hold(&vec![pd.id()]));
    assert!(table.can_hold(&vec![ctx.id()]));
    assert!(!table.can_hold(&vec![17]));
    assert_eq!(SharedReceiveQueue::create(&mut table, &pd, 5).err(), Some(Error::InvalidArgument));
    assert_eq!(table.insert(ResourceKind::MemoryRegion, 5, vec![99]), Err(Error::InvalidArgument));
    assert_eq!(table.len(), 2);
    assert_eq!(table.acquire(pd.id()), Err(Error::InvalidArgument));
    assert_eq!(table.acquire(99), Err(Error::InvalidArgument));
    assert_eq!(table.release(99), Err(Error::InvalidArgument));
}

#[test]
fn acquire_counts_handles() {
    let mut table = ResourceTable::new();
    let id = table.insert(ResourceKind::Context, 42, vec![]).unwrap();
    assert_eq!(id, 0);
    assert_eq!(table.handles(id), 1);
    assert_eq!(table.acquire(id), Ok(()));
    assert_eq!(table.acquire(id), Ok(()));
    assert_eq!(table.handles(id), 3);
    assert_eq!(table.kind(id), Some(ResourceKind::Context));
    assert_eq!(table.token(id), Some(42));
}
