//! Byte-level framing of protocol records.
//!
//! Every frame is one 64-byte record followed by the variable payload the
//! record's header declares.  Numeric fields travel little-endian.  The
//! encoders stamp the header's size field from the payload actually
//! written, and the decoders refuse a frame whose length disagrees with
//! its header, so a well-formed frame survives a round trip byte for byte.

use vstd::prelude::*;
use vstd::bytes::*;
use vstd::slice::{slice_subrange, slice_to_vec};
use crate::ipc::{
    code_of_request, lemma_request_code_round_trip, request_code, request_from_code,
    spec_request_from_code, GenericReply, GenericRequest, InitFirstThreadReply,
    InitFirstThreadRequest, OpenMappingReply, OpenMappingRequest, ReplyHeader, RequestHeader,
    RECORD_SIZE, REPLY_BODY_SIZE, REPLY_HEADER_SIZE, REQUEST_BODY_SIZE, REQUEST_HEADER_SIZE,
};

verus! {

/// A sequence of `n` zero bytes, as written for reserved record space.
pub open spec fn spec_zero_bytes(n: nat) -> Seq<u8> {
    Seq::new(n, |i: int| 0u8)
}

/// Read the little-endian `u32` at byte offset `off`.
fn get_u32(b: &[u8], off: usize) -> (r: u32)
    requires
        off + 4 <= b@.len(),
    ensures
        r == spec_u32_from_le_bytes(b@.subrange(off as int, off as int + 4)),
{
    let n = b.len();
    assert(off + 4 <= n);
    u32_from_le_bytes(slice_subrange(b, off, off + 4))
}

/// Append the little-endian bytes of `x`.
fn put_u32(v: &mut Vec<u8>, x: u32)
    ensures
        final(v)@ == old(v)@ + spec_u32_to_le_bytes(x),
{
    let mut b = u32_to_le_bytes(x);
    v.append(&mut b);
}

/// The request header with its size field stamped from the payload written.
pub open spec fn stamped_request_header(h: RequestHeader, n: u32) -> RequestHeader {
    RequestHeader { req: h.req, request_size: n, reply_size: h.reply_size }
}

/// The reply header with its size field stamped from the payload written.
pub open spec fn stamped_reply_header(h: ReplyHeader, n: u32) -> ReplyHeader {
    ReplyHeader { error: h.error, reply_size: n }
}

/// The bytes of a request frame: opcode, sizes, record body, then payload.
pub open spec fn spec_encode_request(h: RequestHeader, body: Seq<u8>, payload: Seq<u8>) -> Seq<u8> {
    spec_u32_to_le_bytes(request_code(h.req)) + spec_u32_to_le_bytes(h.request_size)
        + spec_u32_to_le_bytes(h.reply_size) + body + payload
}

/// What a request frame's bytes mean: `None` for an unknown opcode or a
/// length that disagrees with the declared payload size.
pub open spec fn spec_decode_request(bytes: Seq<u8>) -> Option<(RequestHeader, Seq<u8>, Seq<u8>)> {
    if bytes.len() < RECORD_SIZE {
        None
    } else {
        let code = spec_u32_from_le_bytes(bytes.subrange(0, 4));
        let request_size = spec_u32_from_le_bytes(bytes.subrange(4, 8));
        let reply_size = spec_u32_from_le_bytes(bytes.subrange(8, 12));
        match spec_request_from_code(code) {
            Some(t) => if bytes.len() == RECORD_SIZE + request_size {
                Some((
                    RequestHeader { req: t, request_size, reply_size },
                    bytes.subrange(REQUEST_HEADER_SIZE as int, RECORD_SIZE as int),
                    bytes.subrange(RECORD_SIZE as int, bytes.len() as int),
                ))
            } else {
                None
            },
            None => None,
        }
    }
}

/// Encode one request frame, stamping the declared payload size.
pub fn encode_request(req: &GenericRequest, payload: &Vec<u8>) -> (out: Vec<u8>)
    requires
        req.wf(),
        payload@.len() <= u32::MAX,
    ensures
        out@ == spec_encode_request(
            stamped_request_header(req.header, payload@.len() as u32),
            req.body@,
            payload@,
        ),
{
    let mut out: Vec<u8> = Vec::new();
    put_u32(&mut out, code_of_request(req.header.req));
    put_u32(&mut out, payload.len() as u32);
    put_u32(&mut out, req.header.reply_size);
    let mut body = slice_to_vec(req.body.as_slice());
    out.append(&mut body);
    let mut data = slice_to_vec(payload.as_slice());
    out.append(&mut data);
    out
}

/// Decode one request frame; refuses unknown opcodes and bad lengths.
pub fn decode_request(bytes: &[u8]) -> (r: Option<(GenericRequest, Vec<u8>)>)
    ensures
        match r {
            Some(p) => {
                &&& p.0.wf()
                &&& spec_decode_request(bytes@) == Some((p.0.header, p.0.body@, p.1@))
            },
            None => spec_decode_request(bytes@) is None,
        },
{
    if bytes.len() < RECORD_SIZE {
        return None;
    }
    let code = get_u32(bytes, 0);
    let request_size = get_u32(bytes, 4);
    let reply_size = get_u32(bytes, 8);
    let req = match request_from_code(code) {
        Some(t) => t,
        None => {
            return None;
        },
    };
    if request_size as usize > usize::MAX - RECORD_SIZE
        || bytes.len() != RECORD_SIZE + request_size as usize {
        return None;
    }
    let body = slice_to_vec(slice_subrange(bytes, REQUEST_HEADER_SIZE, RECORD_SIZE));
    let payload = slice_to_vec(slice_subrange(bytes, RECORD_SIZE, bytes.len()));
    Some((
        GenericRequest { header: RequestHeader { req, request_size, reply_size }, body },
        payload,
    ))
}

/// A frame built by the encoder decodes to the same header, body and
/// payload, for every payload length the header can declare.
pub proof fn lemma_request_round_trip(h: RequestHeader, body: Seq<u8>, payload: Seq<u8>)
    requires
        body.len() == REQUEST_BODY_SIZE,
        payload.len() <= u32::MAX,
    ensures
        spec_decode_request(spec_encode_request(
            stamped_request_header(h, payload.len() as u32),
            body,
            payload,
        )) == Some((stamped_request_header(h, payload.len() as u32), body, payload)),
{
    lemma_auto_spec_u32_to_from_le_bytes();
    lemma_request_code_round_trip();
    let hs = stamped_request_header(h, payload.len() as u32);
    let bytes = spec_encode_request(hs, body, payload);
    assert(bytes.subrange(0, 4) =~= spec_u32_to_le_bytes(request_code(h.req)));
    assert(bytes.subrange(4, 8) =~= spec_u32_to_le_bytes(hs.request_size));
    assert(bytes.subrange(8, 12) =~= spec_u32_to_le_bytes(hs.reply_size));
    assert(bytes.subrange(REQUEST_HEADER_SIZE as int, RECORD_SIZE as int) =~= body);
    assert(bytes.subrange(RECORD_SIZE as int, bytes.len() as int) =~= payload);
}

/// The bytes of a reply frame: error code, payload size, record body, payload.
pub open spec fn spec_encode_reply(h: ReplyHeader, body: Seq<u8>, payload: Seq<u8>) -> Seq<u8> {
    spec_u32_to_le_bytes(h.error) + spec_u32_to_le_bytes(h.reply_size) + body + payload
}

/// What a reply frame's bytes mean: `None` when the length disagrees with
/// the declared payload size.
pub open spec fn spec_decode_reply(bytes: Seq<u8>) -> Option<(ReplyHeader, Seq<u8>, Seq<u8>)> {
    if bytes.len() < RECORD_SIZE {
        None
    } else {
        let error = spec_u32_from_le_bytes(bytes.subrange(0, 4));
        let reply_size = spec_u32_from_le_bytes(bytes.subrange(4, 8));
        if bytes.len() == RECORD_SIZE + reply_size {
            Some((
                ReplyHeader { error, reply_size },
                bytes.subrange(REPLY_HEADER_SIZE as int, RECORD_SIZE as int),
                bytes.subrange(RECORD_SIZE as int, bytes.len() as int),
            ))
        } else {
            None
        }
    }
}

/// Encode one reply frame, stamping the declared payload size.
pub fn encode_reply(reply: &GenericReply, payload: &Vec<u8>) -> (out: Vec<u8>)
    requires
        reply.wf(),
        payload@.len() <= u32::MAX,
    ensures
        out@ == spec_encode_reply(
            stamped_reply_header(reply.header, payload@.len() as u32),
            reply.body@,
            payload@,
        ),
{
    let mut out: Vec<u8> = Vec::new();
    put_u32(&mut out, reply.header.error);
    put_u32(&mut out, payload.len() as u32);
    let mut body = slice_to_vec(reply.body.as_slice());
    out.append(&mut body);
    let mut data = slice_to_vec(payload.as_slice());
    out.append(&mut data);
    out
}

/// Encode the reply frame for a failed request: the error code, no payload,
/// and an all-zero record body.
pub fn encode_error_reply(error: u32) -> (out: Vec<u8>)
    ensures
        out@ == spec_encode_reply(
            ReplyHeader { error, reply_size: 0 },
            spec_zero_bytes(REPLY_BODY_SIZE as nat),
            Seq::<u8>::empty(),
        ),
{
    let body: Vec<u8> = vec![0u8; REPLY_BODY_SIZE];
    let reply = GenericReply { header: ReplyHeader { error, reply_size: 0 }, body };
    let payload: Vec<u8> = Vec::new();
    let out = encode_reply(&reply, &payload);
    proof {
        assert(reply.body@ =~= spec_zero_bytes(REPLY_BODY_SIZE as nat));
        assert(payload@ =~= Seq::<u8>::empty());
    }
    out
}

/// Decode one reply frame; refuses bad lengths.
pub fn decode_reply(bytes: &[u8]) -> (r: Option<(GenericReply, Vec<u8>)>)
    ensures
        match r {
            Some(p) => {
                &&& p.0.wf()
                &&& spec_decode_reply(bytes@) == Some((p.0.header, p.0.body@, p.1@))
            },
            None => spec_decode_reply(bytes@) is None,
        },
{
    if bytes.len() < RECORD_SIZE {
        return None;
    }
    let error = get_u32(bytes, 0);
    let reply_size = get_u32(bytes, 4);
    if reply_size as usize > usize::MAX - RECORD_SIZE
        || bytes.len() != RECORD_SIZE + reply_size as usize {
        return None;
    }
    let body = slice_to_vec(slice_subrange(bytes, REPLY_HEADER_SIZE, RECORD_SIZE));
    let payload = slice_to_vec(slice_subrange(bytes, RECORD_SIZE, bytes.len()));
    Some((GenericReply { header: ReplyHeader { error, reply_size }, body }, payload))
}

/// A reply frame built by the encoder decodes to the same header, body and
/// payload, for every payload length the header can declare.
pub proof fn lemma_reply_round_trip(h: ReplyHeader, body: Seq<u8>, payload: Seq<u8>)
    requires
        body.len() == REPLY_BODY_SIZE,
        payload.len() <= u32::MAX,
    ensures
        spec_decode_reply(spec_encode_reply(
            stamped_reply_header(h, payload.len() as u32),
            body,
            payload,
        )) == Some((stamped_reply_header(h, payload.len() as u32), body, payload)),
{
    lemma_auto_spec_u32_to_from_le_bytes();
    let hs = stamped_reply_header(h, payload.len() as u32);
    let bytes = spec_encode_reply(hs, body, payload);
    assert(bytes.subrange(0, 4) =~= spec_u32_to_le_bytes(hs.error));
    assert(bytes.subrange(4, 8) =~= spec_u32_to_le_bytes(hs.reply_size));
    assert(bytes.subrange(REPLY_HEADER_SIZE as int, RECORD_SIZE as int) =~= body);
    assert(bytes.subrange(RECORD_SIZE as int, bytes.len() as int) =~= payload);
}

/// Read the little-endian `i32` at byte offset `off`.
fn get_i32(b: &[u8], off: usize) -> (r: i32)
    requires
        off + 4 <= b@.len(),
    ensures
        r == spec_u32_from_le_bytes(b@.subrange(off as int, off as int + 4)) as i32,
{
    get_u32(b, off) as i32
}

/// Append the little-endian bytes of `x`.
fn put_i32(v: &mut Vec<u8>, x: i32)
    ensures
        final(v)@ == old(v)@ + spec_u32_to_le_bytes(x as u32),
{
    put_u32(v, x as u32);
}

/// Read the little-endian `u64` at byte offset `off`.
fn get_u64(b: &[u8], off: usize) -> (r: u64)
    requires
        off + 8 <= b@.len(),
    ensures
        r == spec_u64_from_le_bytes(b@.subrange(off as int, off as int + 8)),
{
    let n = b.len();
    assert(off + 8 <= n);
    u64_from_le_bytes(slice_subrange(b, off, off + 8))
}

/// Append the little-endian bytes of `x`.
fn put_u64(v: &mut Vec<u8>, x: u64)
    ensures
        final(v)@ == old(v)@ + spec_u64_to_le_bytes(x),
{
    let mut b = u64_to_le_bytes(x);
    v.append(&mut b);
}

/// Append `n` zero bytes of reserved record space.
fn put_zero_bytes(v: &mut Vec<u8>, n: usize)
    ensures
        final(v)@ == old(v)@ + spec_zero_bytes(n as nat),
{
    let mut z: Vec<u8> = vec![0u8; n];
    proof {
        assert(z@ =~= spec_zero_bytes(n as nat));
    }
    v.append(&mut z);
}

/// The typed fields a first-thread handshake record's body carries.
pub open spec fn spec_init_first_thread_request(h: RequestHeader, body: Seq<u8>) -> InitFirstThreadRequest {
    InitFirstThreadRequest {
        header: h,
        unix_pid: spec_u32_from_le_bytes(body.subrange(0, 4)) as i32,
        unix_tid: spec_u32_from_le_bytes(body.subrange(4, 8)) as i32,
        debug_level: spec_u32_from_le_bytes(body.subrange(8, 12)) as i32,
        reply_fd: spec_u32_from_le_bytes(body.subrange(12, 16)) as i32,
        wait_fd: spec_u32_from_le_bytes(body.subrange(16, 20)) as i32,
    }
}

/// Read the first-thread handshake record out of a generic request.
pub fn decode_init_first_thread_request(g: &GenericRequest) -> (r: InitFirstThreadRequest)
    requires
        g.wf(),
    ensures
        r == spec_init_first_thread_request(g.header, g.body@),
{
    let b = g.body.as_slice();
    InitFirstThreadRequest {
        header: g.header,
        unix_pid: get_i32(b, 0),
        unix_tid: get_i32(b, 4),
        debug_level: get_i32(b, 8),
        reply_fd: get_i32(b, 12),
        wait_fd: get_i32(b, 16),
    }
}

/// The record body of a first-thread handshake request.
pub open spec fn spec_init_first_thread_request_body(r: InitFirstThreadRequest) -> Seq<u8> {
    spec_u32_to_le_bytes(r.unix_pid as u32) + spec_u32_to_le_bytes(r.unix_tid as u32)
        + spec_u32_to_le_bytes(r.debug_level as u32) + spec_u32_to_le_bytes(r.reply_fd as u32)
        + spec_u32_to_le_bytes(r.wait_fd as u32) + spec_zero_bytes((REQUEST_BODY_SIZE - 20) as nat)
}

/// Write the first-thread handshake record into a generic request.
pub fn encode_init_first_thread_request(r: &InitFirstThreadRequest) -> (g: GenericRequest)
    ensures
        g.wf(),
        g.header == r.header,
        g.body@ == spec_init_first_thread_request_body(*r),
{
    let mut body: Vec<u8> = Vec::new();
    put_i32(&mut body, r.unix_pid);
    put_i32(&mut body, r.unix_tid);
    put_i32(&mut body, r.debug_level);
    put_i32(&mut body, r.reply_fd);
    put_i32(&mut body, r.wait_fd);
    put_zero_bytes(&mut body, REQUEST_BODY_SIZE - 20);
    proof {
        lemma_auto_spec_u32_to_from_le_bytes();
        lemma_auto_spec_u64_to_from_le_bytes();
    }
    GenericRequest { header: r.header, body }
}

/// The record body of a first-thread handshake reply.
pub open spec fn spec_init_first_thread_reply_body(r: InitFirstThreadReply) -> Seq<u8> {
    spec_u32_to_le_bytes(r.pid) + spec_u32_to_le_bytes(r.tid)
        + spec_u64_to_le_bytes(r.server_start as u64) + spec_u32_to_le_bytes(r.session_id)
        + spec_u32_to_le_bytes(r.info_size) + spec_zero_bytes((REPLY_BODY_SIZE - 24) as nat)
}

/// Write the first-thread handshake reply into a generic reply.
pub fn encode_init_first_thread_reply(r: &InitFirstThreadReply) -> (g: GenericReply)
    ensures
        g.wf(),
        g.header == r.header,
        g.body@ == spec_init_first_thread_reply_body(*r),
{
    let mut body: Vec<u8> = Vec::new();
    put_u32(&mut body, r.pid);
    put_u32(&mut body, r.tid);
    put_u64(&mut body, r.server_start as u64);
    put_u32(&mut body, r.session_id);
    put_u32(&mut body, r.info_size);
    put_zero_bytes(&mut body, REPLY_BODY_SIZE - 24);
    proof {
        lemma_auto_spec_u32_to_from_le_bytes();
        lemma_auto_spec_u64_to_from_le_bytes();
    }
    GenericReply { header: r.header, body }
}

/// The typed fields a first-thread handshake reply's body carries.
pub open spec fn spec_init_first_thread_reply(h: ReplyHeader, body: Seq<u8>) -> InitFirstThreadReply {
    InitFirstThreadReply {
        header: h,
        pid: spec_u32_from_le_bytes(body.subrange(0, 4)),
        tid: spec_u32_from_le_bytes(body.subrange(4, 8)),
        server_start: spec_u64_from_le_bytes(body.subrange(8, 16)) as i64,
        session_id: spec_u32_from_le_bytes(body.subrange(16, 20)),
        info_size: spec_u32_from_le_bytes(body.subrange(20, 24)),
    }
}

/// Read the first-thread handshake reply out of a generic reply.
pub fn decode_init_first_thread_reply(g: &GenericReply) -> (r: InitFirstThreadReply)
    requires
        g.wf(),
    ensures
        r == spec_init_first_thread_reply(g.header, g.body@),
{
    let b = g.body.as_slice();
    InitFirstThreadReply {
        header: g.header,
        pid: get_u32(b, 0),
        tid: get_u32(b, 4),
        server_start: get_u64(b, 8) as i64,
        session_id: get_u32(b, 16),
        info_size: get_u32(b, 20),
    }
}

/// The typed fields a mapping-open record's body carries.
pub open spec fn spec_open_mapping_request(h: RequestHeader, body: Seq<u8>) -> OpenMappingRequest {
    OpenMappingRequest {
        header: h,
        access: spec_u32_from_le_bytes(body.subrange(0, 4)),
        attributes: spec_u32_from_le_bytes(body.subrange(4, 8)),
        rootdir: spec_u32_from_le_bytes(body.subrange(8, 12)),
    }
}

/// Read the mapping-open record out of a generic request.
pub fn decode_open_mapping_request(g: &GenericRequest) -> (r: OpenMappingRequest)
    requires
        g.wf(),
    ensures
        r == spec_open_mapping_request(g.header, g.body@),
{
    let b = g.body.as_slice();
    OpenMappingRequest {
        header: g.header,
        access: get_u32(b, 0),
        attributes: get_u32(b, 4),
        rootdir: get_u32(b, 8),
    }
}

/// The record body of a mapping-open request.
pub open spec fn spec_open_mapping_request_body(r: OpenMappingRequest) -> Seq<u8> {
    spec_u32_to_le_bytes(r.access) + spec_u32_to_le_bytes(r.attributes)
        + spec_u32_to_le_bytes(r.rootdir) + spec_zero_bytes((REQUEST_BODY_SIZE - 12) as nat)
}

/// Write the mapping-open record into a generic request.
pub fn encode_open_mapping_request(r: &OpenMappingRequest) -> (g: GenericRequest)
    ensures
        g.wf(),
        g.header == r.header,
        g.body@ == spec_open_mapping_request_body(*r),
{
    let mut body: Vec<u8> = Vec::new();
    put_u32(&mut body, r.access);
    put_u32(&mut body, r.attributes);
    put_u32(&mut body, r.rootdir);
    put_zero_bytes(&mut body, REQUEST_BODY_SIZE - 12);
    proof {
        lemma_auto_spec_u32_to_from_le_bytes();
        lemma_auto_spec_u64_to_from_le_bytes();
    }
    GenericRequest { header: r.header, body }
}

/// The record body of a mapping-open reply.
pub open spec fn spec_open_mapping_reply_body(r: OpenMappingReply) -> Seq<u8> {
    spec_u32_to_le_bytes(r.handle) + spec_zero_bytes((REPLY_BODY_SIZE - 4) as nat)
}

/// Write the mapping-open reply into a generic reply.
pub fn encode_open_mapping_reply(r: &OpenMappingReply) -> (g: GenericReply)
    ensures
        g.wf(),
        g.header == r.header,
        g.body@ == spec_open_mapping_reply_body(*r),
{
    let mut body: Vec<u8> = Vec::new();
    put_u32(&mut body, r.handle);
    put_zero_bytes(&mut body, REPLY_BODY_SIZE - 4);
    proof {
        lemma_auto_spec_u32_to_from_le_bytes();
        lemma_auto_spec_u64_to_from_le_bytes();
    }
    GenericReply { header: r.header, body }
}

/// The typed fields a mapping-open reply's body carries.
pub open spec fn spec_open_mapping_reply(h: ReplyHeader, body: Seq<u8>) -> OpenMappingReply {
    OpenMappingReply { header: h, handle: spec_u32_from_le_bytes(body.subrange(0, 4)) }
}

/// Read the mapping-open reply out of a generic reply.
pub fn decode_open_mapping_reply(g: &GenericReply) -> (r: OpenMappingReply)
    requires
        g.wf(),
    ensures
        r == spec_open_mapping_reply(g.header, g.body@),
{
    OpenMappingReply { header: g.header, handle: get_u32(g.body.as_slice(), 0) }
}

/// The UTF-16 code units carried little-endian in a payload's bytes; a
/// trailing odd byte is not a code unit and is ignored.
pub open spec fn spec_code_units(bytes: Seq<u8>) -> Seq<u16> {
    Seq::new(
        (bytes.len() / 2) as nat,
        |i: int| spec_u16_from_le_bytes(bytes.subrange(2 * i, 2 * i + 2)),
    )
}

/// Decode a payload's bytes into the UTF-16 code units they carry.
pub fn code_units(bytes: &[u8]) -> (r: Vec<u16>)
    ensures
        r@ == spec_code_units(bytes@),
{
    let n = bytes.len();
    let mut r: Vec<u16> = Vec::new();
    let mut i: usize = 0;
    while i < n / 2
        invariant
            0 <= i <= n / 2,
            n == bytes@.len(),
            r@.len() == i,
            forall|j: int| 0 <= j < i ==> r@[j] == spec_code_units(bytes@)[j],
        decreases n / 2 - i,
    {
        let u = u16_from_le_bytes(slice_subrange(bytes, 2 * i, 2 * i + 2));
        r.push(u);
        i = i + 1;
    }
    proof {
        assert(r@ =~= spec_code_units(bytes@));
    }
    r
}

} // verus!
