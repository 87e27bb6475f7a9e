use sommelier::codec::{
    code_units, decode_init_first_thread_reply, decode_init_first_thread_request, decode_open_mapping_reply,
    decode_open_mapping_request, decode_reply, decode_request, encode_error_reply,
    encode_init_first_thread_reply, encode_init_first_thread_request, encode_open_mapping_reply,
    encode_open_mapping_request, encode_reply, encode_request,
};
use sommelier::ipc::{
    code_of_request, request_from_code, GenericReply, GenericRequest, InitFirstThreadReply,
    InitFirstThreadRequest, OpenMappingReply, OpenMappingRequest, ReplyHeader, RequestHeader,
    RequestType, RECORD_SIZE, REPLY_BODY_SIZE, REQUEST_BODY_SIZE,
};

fn request_with_body(req: RequestType, fill: u8) -> GenericRequest {
    GenericRequest {
        header: RequestHeader { req, request_size: 0, reply_size: 24 },
        body: vec![fill; REQUEST_BODY_SIZE],
    }
}

fn round_trip_request(payload_len: usize) {
    let req = request_with_body(RequestType::GetThreadInfo, 0xab);
    let payload: Vec<u8> = (0..payload_len).map(|i| (i % 251) as u8).collect();
    let bytes = encode_request(&req, &payload);
    assert_eq!(bytes.len(), RECORD_SIZE + payload_len);
    let (back, data) = decode_request(&bytes).expect("frame must decode");
    assert_eq!(back.header.req, RequestType::GetThreadInfo);
    assert_eq!(back.header.request_size as usize, payload_len);
    assert_eq!(back.header.reply_size, 24);
    assert_eq!(back.body, req.body);
    assert_eq!(data, payload);
}

#[test]
fn frame_round_trip_empty_payload() {
    round_trip_request(0);
}

#[test]
fn frame_round_trip_one_byte() {
    round_trip_request(1);
}

#[test]
fn frame_round_trip_large_payload() {
    round_trip_request(4096);
}

#[test]
fn reply_frame_round_trip() {
    let reply = GenericReply {
        header: ReplyHeader { error: 0xc0000005, reply_size: 0 },
        body: vec![0x5a; REPLY_BODY_SIZE],
    };
    let payload = vec![1u8, 2, 3];
    let bytes = encode_reply(&reply, &payload);
    assert_eq!(bytes.len(), RECORD_SIZE + 3);
    let (back, data) = decode_reply(&bytes).expect("frame must decode");
    assert_eq!(back.header.error, 0xc0000005);
    assert_eq!(back.header.reply_size, 3);
    assert_eq!(back.body, reply.body);
    assert_eq!(data, payload);
}

#[test]
fn decode_rejects_unknown_opcode() {
    let mut bytes = vec![0u8; RECORD_SIZE];
    // opcode 284 is just past the last member of the closed enumeration
    bytes[0] = 0x1c;
    bytes[1] = 0x01;
    assert!(decode_request(&bytes).is_none());
}

#[test]
fn decode_rejects_length_mismatch() {
    let req = request_with_body(RequestType::NewProcess, 0);
    let payload = vec![9u8; 8];
    let mut bytes = encode_request(&req, &payload);
    // one byte short of what the header declares
    bytes.pop();
    assert!(decode_request(&bytes).is_none());
    assert!(decode_request(&bytes[..10]).is_none());
}

#[test]
fn error_reply_frame() {
    let bytes = encode_error_reply(0xdeadbeef);
    assert_eq!(bytes.len(), RECORD_SIZE);
    let (reply, data) = decode_reply(&bytes).expect("error frame must decode");
    assert_eq!(reply.header.error, 0xdeadbeef);
    assert_eq!(reply.header.reply_size, 0);
    assert!(reply.body.iter().all(|&b| b == 0));
    assert!(data.is_empty());
}

#[test]
fn opcode_map_round_trip() {
    assert_eq!(code_of_request(RequestType::NewProcess), 0);
    assert_eq!(code_of_request(RequestType::InitFirstThread), 5);
    assert_eq!(code_of_request(RequestType::OpenMapping), 63);
    assert_eq!(code_of_request(RequestType::GetNextThread), 283);
    assert_eq!(request_from_code(5), Some(RequestType::InitFirstThread));
    assert_eq!(request_from_code(283), Some(RequestType::GetNextThread));
    assert_eq!(request_from_code(284), None);
    for code in 0..284u32 {
        let t = request_from_code(code).expect("every code below the count is an opcode");
        assert_eq!(code_of_request(t), code);
    }
}

#[test]
fn init_first_thread_record_round_trip() {
    let rec = InitFirstThreadRequest {
        header: RequestHeader { req: RequestType::InitFirstThread, request_size: 0, reply_size: 0 },
        unix_pid: 1234,
        unix_tid: -7,
        debug_level: 2,
        reply_fd: 5,
        wait_fd: 6,
    };
    let g = encode_init_first_thread_request(&rec);
    let back = decode_init_first_thread_request(&g);
    assert_eq!(back, rec);

    let rep = InitFirstThreadReply {
        header: ReplyHeader { error: 0, reply_size: 0 },
        pid: 8,
        tid: 12,
        server_start: -1,
        session_id: 1,
        info_size: 0,
    };
    let g = encode_init_first_thread_reply(&rep);
    let back = decode_init_first_thread_reply(&g);
    assert_eq!(back, rep);
}

#[test]
fn open_mapping_record_round_trip() {
    let rec = OpenMappingRequest {
        header: RequestHeader { req: RequestType::OpenMapping, request_size: 12, reply_size: 0 },
        access: 0xf003f,
        attributes: 0x40,
        rootdir: 0,
    };
    let g = encode_open_mapping_request(&rec);
    let back = decode_open_mapping_request(&g);
    assert_eq!(back, rec);

    let rep = OpenMappingReply { header: ReplyHeader { error: 0, reply_size: 0 }, handle: 4 };
    let g = encode_open_mapping_reply(&rep);
    let back = decode_open_mapping_reply(&g);
    assert_eq!(back, rep);
}

#[test]
fn code_units_little_endian() {
    let bytes = [0x41u8, 0x00, 0x5c, 0x00, 0x42, 0x30];
    assert_eq!(code_units(&bytes), vec![0x0041u16, 0x005c, 0x3042]);
}

#[test]
fn code_units_ignores_odd_trailing_byte() {
    let bytes = [0x41u8, 0x00, 0x7f];
    assert_eq!(code_units(&bytes), vec![0x0041u16]);
}
