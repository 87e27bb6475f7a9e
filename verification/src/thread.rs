//! Process and thread identity, and the request dispatch.
//!
//! Ids come from a pool that always hands out the lowest free multiple
//! of a fixed stride and compacts itself from the top when the topmost
//! id is returned, so the pool shrinks back instead of only growing.
//! One dispatch step maps a decoded request to its handler; the closed
//! opcode set is validated by the codec, and an opcode without a handler
//! is answered with an error reply, never dropped.

use vstd::prelude::*;
use crate::codec::{
    code_units, decode_init_first_thread_request, decode_open_mapping_request,
    encode_open_mapping_reply, spec_code_units, spec_init_first_thread_request,
};
use crate::fd::{FdPair, PendingFds};
use crate::ipc::{
    GenericReply, GenericRequest, InitFirstThreadReply, InitFirstThreadRequest, OpenMappingReply,
    OpenMappingRequest, ProcessId, ReplyHeader, RequestType, ThreadId, Timeout,
};
use crate::namespace::spec_lookup_path;
use crate::object::{HandleTable, ObjectKindView, ObjectStore};

verus! {

/// Stride between id values; the low bits are reserved tag space.
pub const TID_STRIDE: u32 = 4;

/// An allocated process or thread id: a multiple of [`TID_STRIDE`].
pub struct Tid(pub u32);

/// The pool of process and thread ids: a high-water mark and a sorted
/// free list below it, compacted so the topmost id below the mark is
/// always in use.
pub struct TidPool {
    next: u32,
    free: Vec<u32>,
}

impl TidPool {
    /// The high-water mark: every id index ever handed out is below it.
    pub closed spec fn spec_next(&self) -> u32 {
        self.next
    }

    /// The recycled id indices below the mark.
    pub closed spec fn spec_free(&self) -> Seq<u32> {
        self.free@
    }

    /// Whether the id index `idx` is currently in use.
    pub closed spec fn allocated(&self, idx: int) -> bool {
        0 <= idx < self.next && !self.free@.contains(idx as u32)
    }

    /// The free list is sorted, strictly below the mark, and compacted:
    /// the index just below the mark is never free.
    pub closed spec fn wf(&self) -> bool {
        &&& forall|j: int, k: int|
            0 <= j < k < self.free@.len() ==> (#[trigger] self.free@[j]) < (#[trigger] self.free@[k])
        &&& forall|j: int| 0 <= j < self.free@.len() ==> (#[trigger] self.free@[j]) < self.next
        &&& (self.next == 0 || !self.free@.contains((self.next - 1) as u32))
    }

    /// An empty pool: nothing allocated, mark at zero.
    pub fn new() -> (p: TidPool)
        ensures
            p.wf(),
            p.spec_next() == 0,
            p.spec_free() == Seq::<u32>::empty(),
            forall|j: int| !p.allocated(j),
    {
        TidPool { next: 0, free: Vec::new() }
    }

    /// The mark, for observation.
    pub fn high_water(&self) -> (n: u32)
        ensures
            n == self.spec_next(),
    {
        self.next
    }

    /// How many ids sit in the free list, for observation.
    pub fn free_count(&self) -> (n: usize)
        ensures
            n == self.spec_free().len(),
    {
        self.free.len()
    }

    /// A pool with nothing allocated has shrunk back to its initial
    /// state: mark zero and an empty free list.
    pub proof fn lemma_empty_pool(&self)
        requires
            self.wf(),
            forall|j: int| !self.allocated(j),
        ensures
            self.spec_next() == 0,
            self.spec_free() == Seq::<u32>::empty(),
    {
        if self.next > 0 {
            assert(!self.allocated(self.next - 1));
            assert(self.free@.contains((self.next - 1) as u32));
        }
        if self.free@.len() > 0 {
            assert(self.free@[0] < self.next);
        }
        assert(self.free@ =~= Seq::<u32>::empty());
    }

    /// Hand out the lowest id not in use.
    pub fn allocate(&mut self) -> (t: Tid)
        requires
            old(self).wf(),
            old(self).spec_next() < 0x4000_0000,
        ensures
            final(self).wf(),
            final(self).spec_next() <= old(self).spec_next() + 1,
            t.0 % TID_STRIDE == 0,
            ({
                let idx = t.0 as int / TID_STRIDE as int;
                &&& !old(self).allocated(idx)
                &&& forall|j: int| 0 <= j < idx ==> old(self).allocated(j)
                &&& forall|j: int|
                    final(self).allocated(j) == (old(self).allocated(j) || j == idx)
            }),
    {
        if self.free.len() > 0 {
            let idx = self.free.remove(0);
            let ghost pre = old(self).free@;
            proof {
                assert(forall|k: int| 0 <= k < self.free@.len() ==> #[trigger] self.free@[k] == pre[k + 1]);
                assert(pre.contains(idx)) by {
                    assert(pre[0] == idx);
                }
                assert forall|j: int| 0 <= j < idx as int implies old(self).allocated(j) by {
                    if pre.contains(j as u32) {
                        let k = choose|k: int| 0 <= k < pre.len() && pre[k] == j as u32;
                        if k > 0 {
                            assert(pre[0] < pre[k]);
                        }
                        assert(false);
                    }
                }
                assert forall|j: int|
                    final(self).allocated(j) == (old(self).allocated(j) || j == idx as int) by {
                    if 0 <= j < self.next {
                        if self.free@.contains(j as u32) {
                            let k = choose|k: int| 0 <= k < self.free@.len() && self.free@[k] == j as u32;
                            assert(pre[k + 1] == j as u32);
                        }
                        if pre.contains(j as u32) && j != idx as int {
                            let k = choose|k: int| 0 <= k < pre.len() && pre[k] == j as u32;
                            assert(k != 0);
                            assert(self.free@[k - 1] == j as u32);
                            assert(self.free@.contains(j as u32));
                        }
                        if j == idx as int && self.free@.contains(idx) {
                            let k = choose|k: int| 0 <= k < self.free@.len() && self.free@[k] == idx;
                            assert(pre[k + 1] == idx);
                            assert(pre[0] < pre[k + 1]);
                            assert(false);
                        }
                    }
                }
                assert((self.next == 0 || !self.free@.contains((self.next - 1) as u32))) by {
                    if self.next > 0 && self.free@.contains((self.next - 1) as u32) {
                        let k = choose|k: int|
                            0 <= k < self.free@.len() && self.free@[k] == (self.next - 1) as u32;
                        assert(pre[k + 1] == (self.next - 1) as u32);
                        assert(pre.contains((self.next - 1) as u32));
                        assert(false);
                    }
                }
            }
            Tid(idx * TID_STRIDE)
        } else {
            let idx = self.next;
            self.next = self.next + 1;
            proof {
                assert(forall|j: int| 0 <= j < idx as int ==> old(self).allocated(j));
            }
            Tid(idx * TID_STRIDE)
        }
    }

    /// Return an id to the pool; when the topmost id comes back the pool
    /// compacts every free index contiguous to the top away.
    pub fn free(&mut self, tid: &Tid)
        requires
            old(self).wf(),
            tid.0 % TID_STRIDE == 0,
            old(self).allocated(tid.0 as int / TID_STRIDE as int),
        ensures
            final(self).wf(),
            final(self).spec_next() <= old(self).spec_next(),
            forall|j: int|
                final(self).allocated(j) == (old(self).allocated(j) && j != tid.0 as int
                    / TID_STRIDE as int),
    {
        let idx = tid.0 / TID_STRIDE;
        let ghost gone = idx as int;
        if idx + 1 == self.next {
            self.next = self.next - 1;
            proof {
                assert forall|j: int|
                    (0 <= j < self.next && !self.free@.contains(j as u32)) == (old(
                        self,
                    ).allocated(j) && j != gone) by {}
            }
            while self.free.len() > 0 && self.free[self.free.len() - 1] == self.next - 1
                invariant
                    self.next <= old(self).next,
                    forall|j: int, k: int|
                        0 <= j < k < self.free@.len() ==> (#[trigger] self.free@[j]) < (
                        #[trigger] self.free@[k]),
                    forall|j: int| 0 <= j < self.free@.len() ==> (#[trigger] self.free@[j]) < self.next,
                    forall|j: int|
                        (0 <= j < self.next && !self.free@.contains(j as u32)) == (old(
                            self,
                        ).allocated(j) && j != gone),
                decreases self.free@.len(),
            {
                let ghost pre = self.free@;
                let ghost n0 = self.next;
                self.free.pop();
                self.next = self.next - 1;
                proof {
                    assert(pre.last() == (n0 - 1) as u32);
                    assert(forall|k: int| 0 <= k < self.free@.len() ==> #[trigger] self.free@[k] == pre[k]);
                    assert forall|j: int|
                        (0 <= j < self.next && !self.free@.contains(j as u32)) == (old(
                            self,
                        ).allocated(j) && j != gone) by {
                        if 0 <= j < self.next {
                            if pre.contains(j as u32) {
                                let k = choose|k: int| 0 <= k < pre.len() && pre[k] == j as u32;
                                assert(k < pre.len() - 1);
                                assert(self.free@[k] == j as u32);
                            }
                            if self.free@.contains(j as u32) {
                                let k = choose|k: int|
                                    0 <= k < self.free@.len() && self.free@[k] == j as u32;
                                assert(pre[k] == j as u32);
                            }
                        }
                        if j == self.next as int {
                            assert(pre.contains(j as u32)) by {
                                assert(pre[pre.len() - 1] == j as u32);
                            }
                        }
                    }
                }
            }
            proof {
                if self.next > 0 && self.free@.contains((self.next - 1) as u32) {
                    let k = choose|k: int|
                        0 <= k < self.free@.len() && self.free@[k] == (self.next - 1) as u32;
                    if k < self.free@.len() - 1 {
                        assert(self.free@[k] < self.free@[self.free@.len() - 1]);
                    }
                    assert(false);
                }
            }
        } else {
            // find the sorted position and slot the index in
            let n = self.free.len();
            let mut p: usize = 0;
            while p < n && self.free[p] < idx
                invariant
                    self.free@ == old(self).free@,
                    n == self.free@.len(),
                    0 <= p <= n,
                    forall|k: int| 0 <= k < p ==> (#[trigger] self.free@[k]) < idx,
                decreases n - p,
            {
                p = p + 1;
            }
            let ghost pre = self.free@;
            proof {
                if p < n && self.free@[p as int] == idx {
                    assert(pre.contains(idx));
                    assert(false);
                }
            }
            self.free.insert(p, idx);
            proof {
                assert(forall|k: int| 0 <= k < p ==> #[trigger] self.free@[k] == pre[k]);
                assert(forall|k: int|
                    p < k < self.free@.len() ==> #[trigger] self.free@[k] == pre[k - 1]);
                assert forall|j: int, k: int|
                    0 <= j < k < self.free@.len() implies (#[trigger] self.free@[j]) < (
                #[trigger] self.free@[k]) by {
                    if j < p as int && k == p as int {
                    } else if j == p as int && k > p as int {
                        assert(pre[k - 1] >= idx || pre[k - 1] < idx);
                        if pre[k - 1] < idx {
                            if k - 1 >= p as int {
                                assert(forall|q: int|
                                    p <= q < pre.len() ==> idx <= #[trigger] pre[q]);
                                assert(false);
                            }
                        }
                        if pre[k - 1] == idx {
                            assert(pre.contains(idx));
                            assert(false);
                        }
                    }
                }
                assert forall|j: int|
                    final(self).allocated(j) == (old(self).allocated(j) && j != gone) by {
                    if 0 <= j < self.next {
                        if self.free@.contains(j as u32) && j != gone {
                            let k = choose|k: int|
                                0 <= k < self.free@.len() && self.free@[k] == j as u32;
                            if k < p as int {
                                assert(pre[k] == j as u32);
                            } else if k > p as int {
                                assert(pre[k - 1] == j as u32);
                            } else {
                                assert(self.free@[p as int] == idx);
                                assert(false);
                            }
                            assert(pre.contains(j as u32));
                        }
                        if pre.contains(j as u32) {
                            let k = choose|k: int| 0 <= k < pre.len() && pre[k] == j as u32;
                            if k < p as int {
                                assert(self.free@[k] == j as u32);
                            } else {
                                assert(self.free@[k + 1] == j as u32);
                            }
                            assert(self.free@.contains(j as u32));
                        }
                        if j == gone {
                            assert(self.free@[p as int] == idx);
                            assert(self.free@.contains(idx));
                        }
                    }
                }
                assert(self.next == 0 || !self.free@.contains((self.next - 1) as u32)) by {
                    if self.next > 0 && self.free@.contains((self.next - 1) as u32) {
                        let k = choose|k: int|
                            0 <= k < self.free@.len() && self.free@[k] == (self.next - 1) as u32;
                        if k == p as int {
                            assert(idx + 1 != self.next);
                        } else if k < p as int {
                            assert(pre[k] == (self.next - 1) as u32);
                        } else {
                            assert(pre[k - 1] == (self.next - 1) as u32);
                        }
                        assert(false);
                    }
                }
            }
        }
    }
}

/// Machine tag of the 64-bit x86 architecture.
pub const IMAGE_FILE_MACHINE_AMD64: u16 = 0x8664;

/// Machine tag of the 32-bit x86 architecture.
pub const IMAGE_FILE_MACHINE_I386: u16 = 0x014c;

/// Error code answered for an opcode whose handler is not wired in.
pub const REQUEST_NOT_IMPLEMENTED: u32 = 0xdead_beef;

/// Error code answered when a named object has the wrong kind.
pub const STATUS_OBJECT_TYPE_MISMATCH: u32 = 0xc000_0024;

/// One connected client: its process id, its handle table, and the
/// descriptors received for its logical threads and not yet claimed.
pub struct Process {
    pub pid: u32,
    pub handles: HandleTable,
    pub fds: PendingFds,
}

impl Process {
    /// A fresh process with no handles and nothing pending.
    pub fn new(pid: u32) -> (p: Process)
        ensures
            p.pid == pid,
            p.handles.wf(),
            p.handles@ == Map::<int, int>::empty(),
            p.handles.size() == 0,
            p.fds@ == crate::fd::spec_no_pending(),
    {
        Process { pid, handles: HandleTable::new(), fds: PendingFds::new() }
    }
}

/// The private channels a first-thread handshake installed: the server
/// side descriptor for the thread's reply channel and for its wait
/// channel, where the received descriptors matched the request.
pub struct FdAssignment {
    pub reply_fd: Option<i32>,
    pub wait_fd: Option<i32>,
}

/// The supported-machine list sent with the handshake reply: each
/// machine tag as two little-endian bytes.
pub open spec fn spec_machines_payload() -> Seq<u8> {
    seq![0x64u8, 0x86u8, 0x4cu8, 0x01u8]
}

/// Which received descriptor serves which declared channel: each of the
/// two received pairs is matched by the descriptor number the client
/// declared, a later match replacing an earlier one.
pub open spec fn spec_assign_fds(req: InitFirstThreadRequest, first: FdPair, second: FdPair) -> FdAssignment {
    FdAssignment {
        reply_fd: if second.client == req.reply_fd {
            Some(second.server)
        } else if first.client == req.reply_fd {
            Some(first.server)
        } else {
            None
        },
        wait_fd: if second.client == req.wait_fd {
            Some(second.server)
        } else if first.client == req.wait_fd {
            Some(first.server)
        } else {
            None
        },
    }
}

/// Answer the first request of a new logical thread: match the two
/// descriptors received over the connection against the declared reply
/// and wait channels, and report the assigned ids and the supported
/// machines.
pub fn init_first_thread(
    pid: u32,
    tid: u32,
    req: &InitFirstThreadRequest,
    first: FdPair,
    second: FdPair,
) -> (r: (InitFirstThreadReply, Vec<u8>, FdAssignment))
    ensures
        r.0 == (InitFirstThreadReply {
            header: ReplyHeader { error: 0, reply_size: 0 },
            pid: pid as ProcessId,
            tid: tid as ThreadId,
            server_start: 0 as Timeout,
            session_id: 0,
            info_size: 0,
        }),
        r.1@ == spec_machines_payload(),
        r.2.reply_fd == spec_assign_fds(*req, first, second).reply_fd,
        r.2.wait_fd == spec_assign_fds(*req, first, second).wait_fd,
{
    let mut reply_fd: Option<i32> = None;
    let mut wait_fd: Option<i32> = None;
    if first.client == req.reply_fd {
        reply_fd = Some(first.server);
    }
    if first.client == req.wait_fd {
        wait_fd = Some(first.server);
    }
    if second.client == req.reply_fd {
        reply_fd = Some(second.server);
    }
    if second.client == req.wait_fd {
        wait_fd = Some(second.server);
    }
    let reply = InitFirstThreadReply {
        header: ReplyHeader { error: 0, reply_size: 0 },
        pid: pid as ProcessId,
        tid: tid as ThreadId,
        server_start: 0 as Timeout,
        session_id: 0,
        info_size: 0,
    };
    let mut machines: Vec<u8> = Vec::new();
    machines.push(0x64u8);
    machines.push(0x86u8);
    machines.push(0x4cu8);
    machines.push(0x01u8);
    proof {
        assert(machines@ =~= spec_machines_payload());
    }
    (reply, machines, FdAssignment { reply_fd, wait_fd })
}

/// Open a mapping by its path in the namespace: look the name up from
/// the root, and give the calling process a fresh handle to the mapping
/// found.  An absent name answers with a null handle, as the peer treats
/// that reply; a name bound to anything but a mapping is a semantic
/// fault, answered as a typed error code.
pub fn open_mapping(
    process: &mut Process,
    store: &mut ObjectStore,
    root: usize,
    req: &OpenMappingRequest,
    data: &Vec<u8>,
) -> (r: Result<(OpenMappingReply, Vec<u8>), u32>)
    requires
        old(store).wf(),
        old(process).handles.wf(),
        old(process).handles.size() < 0x3FFF_FFFE,
        forall|id: int|
            old(store)@.dom().contains(id) ==> (#[trigger] old(store)@[id].refs) < u64::MAX,
    ensures
        final(store).wf(),
        final(process).handles.wf(),
        final(process).pid == old(process).pid,
        final(process).fds@ == old(process).fds@,
        ({
            let path = spec_code_units(data@);
            match spec_lookup_path(old(store)@, root as int, path) {
                None => {
                    &&& r matches Ok(p) && p.0 == (OpenMappingReply {
                        header: ReplyHeader { error: 0, reply_size: 0 },
                        handle: 0,
                    }) && p.1@ == Seq::<u8>::empty()
                    &&& final(store)@ == old(store)@
                    &&& final(process).handles@ == old(process).handles@
                },
                Some(id) => match old(store)@[id].kind {
                    ObjectKindView::Mapping(_) => {
                        &&& r matches Ok(p) && {
                            let s = crate::object::spec_handle_slot(p.0.handle);
                            &&& p.0.header == (ReplyHeader { error: 0, reply_size: 0 })
                            &&& p.1@ == Seq::<u8>::empty()
                            &&& crate::object::spec_valid_handle(p.0.handle)
                            &&& !old(process).handles@.contains_key(s)
                            &&& forall|t: int| 0 <= t < s ==> old(process).handles@.contains_key(t)
                            &&& final(process).handles@ == old(process).handles@.insert(s, id)
                        }
                        &&& final(store)@ == ObjectStore::spec_grab(old(store)@, id)
                    },
                    ObjectKindView::Directory(_) => {
                        &&& r == Err::<(OpenMappingReply, Vec<u8>), u32>(STATUS_OBJECT_TYPE_MISMATCH)
                        &&& final(store)@ == old(store)@
                        &&& final(process).handles@ == old(process).handles@
                    },
                },
            }
        }),
{
    let path = code_units(data.as_slice());
    match store.lookup_path(root, path.as_slice()) {
        None => Ok((
            OpenMappingReply { header: ReplyHeader { error: 0, reply_size: 0 }, handle: 0 },
            Vec::new(),
        )),
        Some(id) => {
            proof {
                store.lemma_wf_model();
                crate::namespace::lemma_walk_live(
                    store@,
                    root as int,
                    crate::namespace::path_components(path@),
                    id as int,
                );
            }
            match store.as_mapping(id) {
                Some(_) => {
                    let h = store.open(&mut process.handles, id);
                    Ok((
                        OpenMappingReply {
                            header: ReplyHeader { error: 0, reply_size: 0 },
                            handle: h.0,
                        },
                        Vec::new(),
                    ))
                },
                None => Err(STATUS_OBJECT_TYPE_MISMATCH),
            }
        },
    }
}

/// What one dispatch step decides: answer with a reply frame, answer
/// with an error frame, or — for the first-thread handshake — wait for
/// the two descriptors the request announces before replying.
pub enum Outcome {
    Reply(GenericReply, Vec<u8>),
    Error(u32),
    AwaitFds(InitFirstThreadRequest),
}

/// Route one decoded request to its handler.  The opcode was already
/// validated by the codec's bounded-enum decoding; an opcode without a
/// handler is answered with an error reply.
pub fn dispatch(
    process: &mut Process,
    store: &mut ObjectStore,
    root: usize,
    req: &GenericRequest,
    data: &Vec<u8>,
) -> (r: Outcome)
    requires
        req.wf(),
        old(store).wf(),
        old(process).handles.wf(),
        old(process).handles.size() < 0x3FFF_FFFE,
        forall|id: int|
            old(store)@.dom().contains(id) ==> (#[trigger] old(store)@[id].refs) < u64::MAX,
    ensures
        final(store).wf(),
        final(process).handles.wf(),
        final(process).pid == old(process).pid,
        final(process).fds@ == old(process).fds@,
        req.header.req == RequestType::InitFirstThread ==> {
            &&& r == Outcome::AwaitFds(spec_init_first_thread_request(req.header, req.body@))
            &&& final(store)@ == old(store)@
            &&& final(process).handles@ == old(process).handles@
        },
        req.header.req == RequestType::OpenMapping ==> ({
            let path = spec_code_units(data@);
            match spec_lookup_path(old(store)@, root as int, path) {
                None => {
                    &&& r matches Outcome::Reply(g, p) && g.header == (ReplyHeader {
                        error: 0,
                        reply_size: 0,
                    }) && g.body@ == crate::codec::spec_open_mapping_reply_body(
                        OpenMappingReply {
                            header: ReplyHeader { error: 0, reply_size: 0 },
                            handle: 0,
                        },
                    ) && p@ == Seq::<u8>::empty()
                    &&& final(store)@ == old(store)@
                    &&& final(process).handles@ == old(process).handles@
                },
                Some(id) => match old(store)@[id].kind {
                    ObjectKindView::Mapping(_) => {
                        &&& r matches Outcome::Reply(g, p) && {
                            let rep = crate::codec::spec_open_mapping_reply(g.header, g.body@);
                            let s = crate::object::spec_handle_slot(rep.handle);
                            &&& g.header == (ReplyHeader { error: 0, reply_size: 0 })
                            &&& g.body@ == crate::codec::spec_open_mapping_reply_body(rep)
                            &&& p@ == Seq::<u8>::empty()
                            &&& crate::object::spec_valid_handle(rep.handle)
                            &&& !old(process).handles@.contains_key(s)
                            &&& forall|t: int| 0 <= t < s ==> old(process).handles@.contains_key(t)
                            &&& final(process).handles@ == old(process).handles@.insert(s, id)
                        }
                        &&& final(store)@ == ObjectStore::spec_grab(old(store)@, id)
                    },
                    ObjectKindView::Directory(_) => {
                        &&& r == Outcome::Error(STATUS_OBJECT_TYPE_MISMATCH)
                        &&& final(store)@ == old(store)@
                        &&& final(process).handles@ == old(process).handles@
                    },
                },
            }
        }),
        !(req.header.req == RequestType::InitFirstThread || req.header.req
            == RequestType::OpenMapping) ==> {
            &&& r == Outcome::Error(REQUEST_NOT_IMPLEMENTED)
            &&& final(store)@ == old(store)@
            &&& final(process).handles@ == old(process).handles@
        },
{
    match req.header.req {
        RequestType::InitFirstThread => {
            let q = decode_init_first_thread_request(req);
            Outcome::AwaitFds(q)
        },
        RequestType::OpenMapping => {
            let q = decode_open_mapping_request(req);
            match open_mapping(process, store, root, &q, data) {
                Ok((reply, payload)) => {
                    let g = encode_open_mapping_reply(&reply);
                    proof {
                        vstd::bytes::lemma_auto_spec_u32_to_from_le_bytes();
                        assert(g.body@.subrange(0, 4) =~= vstd::bytes::spec_u32_to_le_bytes(
                            reply.handle,
                        ));
                    }
                    Outcome::Reply(g, payload)
                },
                Err(code) => Outcome::Error(code),
            }
        },
        _ => Outcome::Error(REQUEST_NOT_IMPLEMENTED),
    }
}

} // verus!
