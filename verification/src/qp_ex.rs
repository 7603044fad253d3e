//! The staged posting interface of a queue pair.
//!
//! Work requests are staged one after the other between `start_wr` and
//! `wr_complete`, which hands the whole batch to the hardware, or `wr_abort`,
//! which throws it away. One session is open at a time, and one thread
//! drives it.

use vstd::prelude::*;
use crate::error::{check_status, Error};
use crate::mw::{MemoryWindow, MemoryWindowType};
use crate::wr::Sge;

verus! {

/// Whether a batch is being staged.
#[derive(Debug, Clone, Copy, PartialEq, Eq, Structural)]
pub enum Session {
    Idle,
    Posting,
}

/// What a caller can do to a session.
#[derive(Debug, Clone, Copy, PartialEq, Eq, Structural)]
pub enum SessionEvent {
    /// `start_wr`.
    Start,
    /// Staging a request, or setting a field of the request being built.
    Build,
    /// `wr_complete`.
    Complete,
    /// `wr_abort`.
    Abort,
}

/// The session after `event`, where the protocol allows the event: a
/// session starts only when none is open, and everything else needs an open
/// one.
pub open spec fn session_step(session: Session, event: SessionEvent) -> Option<Session> {
    match (session, event) {
        (Session::Idle, SessionEvent::Start) => Some(Session::Posting),
        (Session::Posting, SessionEvent::Build) => Some(Session::Posting),
        (Session::Posting, SessionEvent::Complete) => Some(Session::Idle),
        (Session::Posting, SessionEvent::Abort) => Some(Session::Idle),
        _ => None,
    }
}

/// The session after all of `events`, where the protocol allows each.
pub open spec fn session_run(session: Session, events: Seq<SessionEvent>) -> Option<Session>
    decreases events.len(),
{
    if events.len() == 0 {
        Some(session)
    } else {
        match session_step(session, events[0]) {
            Some(next) => session_run(next, events.skip(1)),
            None => None,
        }
    }
}

/// Whether the protocol allowed the call that returned `r`.
pub open spec fn accepted(r: Result<(), Error>) -> bool {
    !(r is Err && r->Err_0 is InvalidState)
}

/// What the protocol says of a call that stands for `event`, took the
/// session from `before` to `after` and returned `r`.
pub open spec fn follows_protocol(before: Session, event: SessionEvent, after: Session, r: Result<(), Error>) -> bool {
    session_step(before, event) == if accepted(r) {
        Some(after)
    } else {
        None
    }
}

/// One operation that a staged request asks for.
#[derive(Debug, Clone, Copy, PartialEq, Eq, Structural)]
pub enum Operation {
    Send,
    SendImm { imm_data: u32 },
    SendInv { invalidate_rkey: u32 },
    RdmaRead { rkey: u32, remote_addr: u64 },
    RdmaWrite { rkey: u32, remote_addr: u64 },
    RdmaWriteImm { rkey: u32, remote_addr: u64, imm_data: u32 },
    AtomicCmpSwp { rkey: u32, remote_addr: u64, compare: u64, swap: u64 },
    AtomicFetchAdd { rkey: u32, remote_addr: u64, add: u64 },
    BindMw { mw: usize, rkey: u32 },
    LocalInv { invalidate_rkey: u32 },
}

/// A request of the batch that is being staged.
#[derive(Debug, Clone)]
pub struct StagedRequest {
    pub wr_id: u64,
    pub wr_flags: u32,
    pub op: Operation,
    pub sg_list: Vec<Sge>,
    pub inline_data: Option<(usize, usize)>,
}

/// The mathematical content of a staged request.
pub struct StagedView {
    pub wr_id: u64,
    pub wr_flags: u32,
    pub op: Operation,
    pub sg_list: Seq<Sge>,
    pub inline_data: Option<(usize, usize)>,
}

impl StagedRequest {
    pub open spec fn view(&self) -> StagedView {
        StagedView {
            wr_id: self.wr_id,
            wr_flags: self.wr_flags,
            op: self.op,
            sg_list: self.sg_list@,
            inline_data: self.inline_data,
        }
    }
}

/// The mathematical content of the staged posting interface.
pub struct QueuePairExView {
    pub id: usize,
    pub session: Session,
    pub wr_id: u64,
    pub wr_flags: u32,
    pub staged: Seq<StagedView>,
}

impl QueuePairExView {
    /// The request that `op` stages: it takes the identifier and the flags
    /// that were set last, and carries no data yet.
    pub open spec fn request(self, op: Operation) -> StagedView {
        StagedView { wr_id: self.wr_id, wr_flags: self.wr_flags, op, sg_list: Seq::empty(), inline_data: None }
    }

    /// Whether a request is being built: a session is open and something
    /// was staged in it.
    pub open spec fn building(self) -> bool {
        self.session is Posting && self.staged.len() > 0
    }

    /// The batch with its last request replaced.
    pub open spec fn with_last(self, last: StagedView) -> Self {
        QueuePairExView { staged: self.staged.update(self.staged.len() - 1, last), ..self }
    }
}

/// The staged posting interface of one queue pair.
pub struct QueuePairEx {
    id: usize,
    session: Session,
    wr_id: u64,
    wr_flags: u32,
    staged: Vec<StagedRequest>,
}

impl QueuePairEx {
    pub closed spec fn view(&self) -> QueuePairExView {
        QueuePairExView {
            id: self.id,
            session: self.session,
            wr_id: self.wr_id,
            wr_flags: self.wr_flags,
            staged: Seq::new(self.staged@.len(), |i: int| self.staged@[i]@),
        }
    }

    /// The interface of the resource in slot `id`, with no session open.
    pub fn new(id: usize) -> (qp: Self)
        ensures
            qp@ == (QueuePairExView { id, session: Session::Idle, wr_id: 0, wr_flags: 0, staged: Seq::empty() }),
    {
        let qp = QueuePairEx { id, session: Session::Idle, wr_id: 0, wr_flags: 0, staged: Vec::new() };
        assert(qp@.staged =~= Seq::empty());
        qp
    }

    /// The slot of the resource table that the interface is in.
    pub fn id(&self) -> (id: usize)
        ensures
            id == self@.id,
    {
        self.id
    }

    /// Whether a batch is being staged.
    pub fn session(&self) -> (s: Session)
        ensures
            s == self@.session,
    {
        self.session
    }

    /// The number of requests staged in the open session.
    pub fn staged_len(&self) -> (n: usize)
        ensures
            n == self@.staged.len(),
    {
        self.staged.len()
    }

    /// The staged request at `index`.
    pub fn staged(&self, index: usize) -> (r: Option<&StagedRequest>)
        ensures
            r is Some <==> index < self@.staged.len(),
            r matches Some(request) ==> request@ == self@.staged[index as int],
    {
        if index < self.staged.len() {
            Some(&self.staged[index])
        } else {
            None
        }
    }

    /// Opens a session. A session that is open must be completed or aborted
    /// first.
    pub fn start_wr(&mut self) -> (r: Result<(), Error>)
        ensures
            follows_protocol(old(self)@.session, SessionEvent::Start, final(self)@.session, r),
            r is Ok <==> old(self)@.session is Idle,
            r is Ok ==> final(self)@ == (QueuePairExView {
                session: Session::Posting,
                staged: Seq::empty(),
                ..old(self)@
            }),
            r is Err ==> r->Err_0 is InvalidState && final(self)@ == old(self)@,
    {
        match self.session {
            Session::Posting => Err(Error::InvalidState),
            Session::Idle => {
                self.session = Session::Posting;
                self.staged = Vec::new();
                assert(self@.staged =~= Seq::empty());
                Ok(())
            },
        }
    }

    /// Stages a request for `op`, which becomes the request being built.
    pub fn append(&mut self, op: Operation) -> (r: Result<(), Error>)
        ensures
            follows_protocol(old(self)@.session, SessionEvent::Build, final(self)@.session, r),
            r is Ok <==> old(self)@.session is Posting,
            r is Ok ==> final(self)@ == (QueuePairExView {
                staged: old(self)@.staged.push(old(self)@.request(op)),
                ..old(self)@
            }),
            r is Err ==> r->Err_0 is InvalidState && final(self)@ == old(self)@,
    {
        match self.session {
            Session::Idle => Err(Error::InvalidState),
            Session::Posting => {
                self.staged.push(
                    StagedRequest {
                        wr_id: self.wr_id,
                        wr_flags: self.wr_flags,
                        op,
                        sg_list: Vec::new(),
                        inline_data: None,
                    },
                );
                assert(self@.staged =~= old(self)@.staged.push(old(self)@.request(op)));
                Ok(())
            },
        }
    }

    /// Stages a plain send.
    pub fn post_send(&mut self) -> (r: Result<(), Error>)
        ensures
            follows_protocol(old(self)@.session, SessionEvent::Build, final(self)@.session, r),
            r is Ok <==> old(self)@.session is Posting,
            r is Ok ==> final(self)@ == (QueuePairExView {
                staged: old(self)@.staged.push(old(self)@.request(Operation::Send)),
                ..old(self)@
            }),
            r is Err ==> r->Err_0 is InvalidState && final(self)@ == old(self)@,
    {
        self.append(Operation::Send)
    }

    /// Stages the binding of `mw` under the key `rkey`. Only a window of
    /// the second type is bound through this interface.
    pub fn bind_mw(&mut self, mw: &MemoryWindow, rkey: u32) -> (r: Result<(), Error>)
        ensures
            r is Ok <==> old(self)@.session is Posting && mw.mw_type() is Type2,
            r is Ok ==> final(self)@ == (QueuePairExView {
                staged: old(self)@.staged.push(old(self)@.request(Operation::BindMw { mw: mw@, rkey })),
                ..old(self)@
            }),
            r is Err ==> final(self)@ == old(self)@ && if old(self)@.session is Idle {
                r->Err_0 is InvalidState
            } else {
                r->Err_0 is InvalidArgument
            },
    {
        match self.session {
            Session::Idle => Err(Error::InvalidState),
            Session::Posting => match mw.mw_type() {
                MemoryWindowType::Type1 => Err(Error::InvalidArgument),
                MemoryWindowType::Type2 => self.append(Operation::BindMw { mw: mw.id(), rkey }),
            },
        }
    }

    /// Gives the request being built one piece of registered memory as its
    /// data.
    pub fn set_sge(&mut self, lkey: u32, addr: u64, length: u32) -> (r: Result<(), Error>)
        ensures
            r is Ok <==> old(self)@.building(),
            r is Ok ==> final(self)@ == old(self)@.with_last(
                StagedView { sg_list: seq![Sge { addr, length, lkey }], inline_data: None, ..old(self)@.staged.last() },
            ),
            r is Err ==> r->Err_0 is InvalidState && final(self)@ == old(self)@,
    {
        let mut list: Vec<Sge> = Vec::new();
        list.push(Sge { addr, length, lkey });
        assert(list@ =~= seq![Sge { addr, length, lkey }]);
        self.set_sge_list(list)
    }

    /// Gives the request being built a list of pieces of registered memory
    /// as its data.
    pub fn set_sge_list(&mut self, sg_list: Vec<Sge>) -> (r: Result<(), Error>)
        ensures
            r is Ok <==> old(self)@.building(),
            r is Ok ==> final(self)@ == old(self)@.with_last(
                StagedView { sg_list: sg_list@, inline_data: None, ..old(self)@.staged.last() },
            ),
            r is Err ==> r->Err_0 is InvalidState && final(self)@ == old(self)@,
    {
        let n = self.staged.len();
        match self.session {
            Session::Idle => Err(Error::InvalidState),
            Session::Posting => {
                if n == 0 {
                    return Err(Error::InvalidState);
                }
                self.staged[n - 1].sg_list = sg_list;
                self.staged[n - 1].inline_data = None;
                assert(self@.staged =~= old(self)@.with_last(
                    StagedView { sg_list: sg_list@, inline_data: None, ..old(self)@.staged.last() },
                ).staged);
                Ok(())
            },
        }
    }

    /// Gives the request being built the `length` bytes at `addr` as data
    /// to be copied into the request itself.
    pub fn set_inline_data(&mut self, addr: usize, length: usize) -> (r: Result<(), Error>)
        ensures
            r is Ok <==> old(self)@.building(),
            r is Ok ==> final(self)@ == old(self)@.with_last(
                StagedView { sg_list: Seq::empty(), inline_data: Some((addr, length)), ..old(self)@.staged.last() },
            ),
            r is Err ==> r->Err_0 is InvalidState && final(self)@ == old(self)@,
    {
        let n = self.staged.len();
        match self.session {
            Session::Idle => Err(Error::InvalidState),
            Session::Posting => {
                if n == 0 {
                    return Err(Error::InvalidState);
                }
                self.staged[n - 1].sg_list = Vec::new();
                self.staged[n - 1].inline_data = Some((addr, length));
                assert(self@.staged =~= old(self)@.with_last(
                    StagedView {
                        sg_list: Seq::empty(),
                        inline_data: Some((addr, length)),
                        ..old(self)@.staged.last()
                    },
                ).staged);
                Ok(())
            },
        }
    }

    /// Sets the identifier that the requests staged from now on carry.
    pub fn wr_id(&mut self, wr_id: u64) -> (r: Result<(), Error>)
        ensures
            follows_protocol(old(self)@.session, SessionEvent::Build, final(self)@.session, r),
            r is Ok <==> old(self)@.session is Posting,
            r is Ok ==> final(self)@ == (QueuePairExView { wr_id: wr_id, ..old(self)@ }),
            r is Err ==> r->Err_0 is InvalidState && final(self)@ == old(self)@,
    {
        match self.session {
            Session::Idle => Err(Error::InvalidState),
            Session::Posting => {
                self.wr_id = wr_id;
                Ok(())
            },
        }
    }

    /// Sets the flags that the requests staged from now on carry.
    pub fn wr_flags(&mut self, wr_flags: u32) -> (r: Result<(), Error>)
        ensures
            follows_protocol(old(self)@.session, SessionEvent::Build, final(self)@.session, r),
            r is Ok <==> old(self)@.session is Posting,
            r is Ok ==> final(self)@ == (QueuePairExView { wr_flags: wr_flags, ..old(self)@ }),
            r is Err ==> r->Err_0 is InvalidState && final(self)@ == old(self)@,
    {
        match self.session {
            Session::Idle => Err(Error::InvalidState),
            Session::Posting => {
                self.wr_flags = wr_flags;
                Ok(())
            },
        }
    }

    /// Says, before the hardware is asked to take or to drop the batch,
    /// whether there is a session to close.
    pub fn check_open(&self) -> (r: Result<(), Error>)
        ensures
            r is Ok <==> self@.session is Posting,
            r is Err ==> r->Err_0 is InvalidState,
    {
        match self.session {
            Session::Idle => Err(Error::InvalidState),
            Session::Posting => Ok(()),
        }
    }

    /// Closes the session after the batch was handed to the hardware, which
    /// answered with `status`. The session is closed whether the hardware
    /// took the batch or not.
    pub fn wr_complete(&mut self, status: i32) -> (r: Result<(), Error>)
        ensures
            follows_protocol(old(self)@.session, SessionEvent::Complete, final(self)@.session, r),
            old(self)@.session is Idle ==> r is Err && r->Err_0 is InvalidState && final(self)@ == old(self)@,
            old(self)@.session is Posting ==> {
                &&& final(self)@ == (QueuePairExView {
                    session: Session::Idle,
                    staged: Seq::empty(),
                    ..old(self)@
                })
                &&& r is Ok <==> status == 0
                &&& r is Err ==> r->Err_0 == (Error::OperationFailed { os_error_code: status })
            },
    {
        match self.session {
            Session::Idle => Err(Error::InvalidState),
            Session::Posting => {
                self.session = Session::Idle;
                self.staged = Vec::new();
                assert(self@.staged =~= Seq::empty());
                check_status(status)
            },
        }
    }

    /// Closes the session and throws the batch away.
    pub fn wr_abort(&mut self) -> (r: Result<(), Error>)
        ensures
            follows_protocol(old(self)@.session, SessionEvent::Abort, final(self)@.session, r),
            r is Ok <==> old(self)@.session is Posting,
            r is Ok ==> final(self)@ == (QueuePairExView {
                session: Session::Idle,
                staged: Seq::empty(),
                ..old(self)@
            }),
            r is Err ==> r->Err_0 is InvalidState && final(self)@ == old(self)@,
    {
        match self.session {
            Session::Idle => Err(Error::InvalidState),
            Session::Posting => {
                self.session = Session::Idle;
                self.staged = Vec::new();
                assert(self@.staged =~= Seq::empty());
                Ok(())
            },
        }
    }
}

/// Whether every one of `events` stages a request or sets a field of one.
pub open spec fn all_build(events: Seq<SessionEvent>) -> bool {
    forall|i: int| 0 <= i < events.len() ==> events[i] is Build
}

pub proof fn lemma_run_builds(builds: Seq<SessionEvent>, last: SessionEvent)
    requires
        all_build(builds),
    ensures
        session_run(Session::Posting, builds.push(last)) == session_run(Session::Posting, seq![last]),
    decreases builds.len(),
{
    if builds.len() > 0 {
        let all = builds.push(last);
        assert(all[0] is Build);
        assert(all.skip(1) =~= builds.skip(1).push(last));
        lemma_run_builds(builds.skip(1), last);
    } else {
        assert(builds.push(last) =~= seq![last]);
    }
}

/// Session discipline. Nothing can be staged, completed or aborted before
/// `start_wr`; a session cannot be started twice; and a session that is
/// started, staged into any number of times and then completed or aborted
/// is closed afterwards, whatever the hardware answered.
pub proof fn law_session_discipline(builds: Seq<SessionEvent>)
    requires
        all_build(builds),
    ensures
        session_step(Session::Idle, SessionEvent::Build) is None,
        session_step(Session::Idle, SessionEvent::Complete) is None,
        session_step(Session::Idle, SessionEvent::Abort) is None,
        session_step(Session::Posting, SessionEvent::Start) is None,
        session_run(Session::Idle, (seq![SessionEvent::Start] + builds).push(SessionEvent::Complete)) == Some(
            Session::Idle,
        ),
        session_run(Session::Idle, (seq![SessionEvent::Start] + builds).push(SessionEvent::Abort)) == Some(
            Session::Idle,
        ),
{
    let complete = (seq![SessionEvent::Start] + builds).push(SessionEvent::Complete);
    let abort = (seq![SessionEvent::Start] + builds).push(SessionEvent::Abort);
    assert(complete.skip(1) =~= builds.push(SessionEvent::Complete));
    assert(abort.skip(1) =~= builds.push(SessionEvent::Abort));
    assert(complete[0] == SessionEvent::Start);
    assert(abort[0] == SessionEvent::Start);
    lemma_run_builds(builds, SessionEvent::Complete);
    lemma_run_builds(builds, SessionEvent::Abort);
    assert(seq![SessionEvent::Complete].skip(1) =~= Seq::<SessionEvent>::empty());
    assert(seq![SessionEvent::Abort].skip(1) =~= Seq::<SessionEvent>::empty());
    assert(session_run(Session::Idle, Seq::<SessionEvent>::empty()) == Some(Session::Idle));
    assert(session_run(Session::Posting, seq![SessionEvent::Complete]) == Some(Session::Idle));
    assert(session_run(Session::Posting, seq![SessionEvent::Abort]) == Some(Session::Idle));
}

} // verus!
