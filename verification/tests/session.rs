use sommelier::codec::{
    decode_init_first_thread_reply, decode_open_mapping_reply, decode_reply, decode_request,
    encode_init_first_thread_reply, encode_init_first_thread_request, encode_open_mapping_request,
    encode_reply, encode_request,
};
use sommelier::fd::FdPair;
use sommelier::ipc::{
    GenericRequest, InitFirstThreadRequest, OpenMappingRequest, ReplyHeader, RequestHeader,
    RequestType, SERVER_PROTOCOL_VERSION, REQUEST_BODY_SIZE,
};
use sommelier::object::{Handle, ObjectStore};
use sommelier::thread::{
    dispatch, init_first_thread, open_mapping, Outcome, Process, TidPool,
    REQUEST_NOT_IMPLEMENTED, STATUS_OBJECT_TYPE_MISMATCH,
};

fn utf16_bytes(s: &str) -> Vec<u8> {
    s.encode_utf16().flat_map(|u| u.to_le_bytes()).collect()
}

#[test]
fn end_to_end_first_thread_handshake() {
    // the server side of a fresh connection: a pid and a tid from the pool
    let mut pool = TidPool::new();
    let pid = pool.allocate();
    let tid = pool.allocate();
    let mut process = Process::new(pid.0);
    let mut store = ObjectStore::new();
    let root = store.add_directory();

    // the client frames its first request, declaring its channel fds
    let record = InitFirstThreadRequest {
        header: RequestHeader { req: RequestType::InitFirstThread, request_size: 0, reply_size: 0 },
        unix_pid: 4321,
        unix_tid: 4321,
        debug_level: 0,
        reply_fd: 5,
        wait_fd: 6,
    };
    let frame = encode_request(&encode_init_first_thread_request(&record), &Vec::new());

    // the server decodes and dispatches: the handshake must wait for the
    // two descriptors announced out of band
    let (req, payload) = decode_request(&frame).expect("handshake frame decodes");
    assert!(payload.is_empty());
    let outcome = dispatch(&mut process, &mut store, root, &req, &payload);
    let parsed = match outcome {
        Outcome::AwaitFds(p) => p,
        _ => panic!("the handshake must await its descriptors"),
    };
    assert_eq!(parsed.reply_fd, 5);
    assert_eq!(parsed.wait_fd, 6);

    // two descriptors arrive, carrying the client's numbers 5 and 6;
    // in this process they became 10 and 11
    let first = FdPair { client: 5, server: 10 };
    let second = FdPair { client: 6, server: 11 };
    let (reply, machines, assign) = init_first_thread(pid.0, tid.0, &parsed, first, second);
    assert_eq!(assign.reply_fd, Some(10));
    assert_eq!(assign.wait_fd, Some(11));
    assert_eq!(reply.pid, pid.0);
    assert_eq!(reply.tid, tid.0);
    assert_eq!(reply.server_start, 0);
    // the supported machines travel as the variable payload
    assert_eq!(machines, vec![0x64, 0x86, 0x4c, 0x01]);

    // the reply frame the client reads on its private channel
    let bytes = encode_reply(&encode_init_first_thread_reply(&reply), &machines);
    let (greply, data) = decode_reply(&bytes).expect("handshake reply decodes");
    let typed = decode_init_first_thread_reply(&greply);
    assert_eq!(typed.pid, pid.0);
    assert_eq!(typed.tid, tid.0);
    assert_eq!(greply.header.error, 0);
    assert_eq!(data, vec![0x64, 0x86, 0x4c, 0x01]);

    // both ids were freshly allocated for this connection
    assert_eq!((pid.0, tid.0), (0, 4));
    let _ = SERVER_PROTOCOL_VERSION;
}

#[test]
fn dispatch_answers_unhandled_opcodes_with_an_error() {
    let mut process = Process::new(0);
    let mut store = ObjectStore::new();
    let root = store.add_directory();
    let req = GenericRequest {
        header: RequestHeader { req: RequestType::CloseHandle, request_size: 0, reply_size: 0 },
        body: vec![0u8; REQUEST_BODY_SIZE],
    };
    match dispatch(&mut process, &mut store, root, &req, &Vec::new()) {
        Outcome::Error(code) => assert_eq!(code, REQUEST_NOT_IMPLEMENTED),
        _ => panic!("an unhandled opcode must answer with an error"),
    }
}

fn open_mapping_request(payload_len: usize) -> OpenMappingRequest {
    OpenMappingRequest {
        header: RequestHeader {
            req: RequestType::OpenMapping,
            request_size: payload_len as u32,
            reply_size: 0,
        },
        access: 0xf001f,
        attributes: 0,
        rootdir: 0,
    }
}

#[test]
fn dispatch_open_mapping_found() {
    let mut process = Process::new(0);
    let mut store = ObjectStore::new();
    let root = store.add_directory();
    let name: Vec<u16> = "\\KernelObjects\\Shared".encode_utf16().collect();
    let mapping = store.add_mapping(17, 0x1000);
    assert_eq!(store.insert_path(root, &name, mapping), Some(mapping));

    let payload = utf16_bytes("\\KernelObjects\\Shared");
    let req = encode_open_mapping_request(&open_mapping_request(payload.len()));
    match dispatch(&mut process, &mut store, root, &req, &payload) {
        Outcome::Reply(g, data) => {
            assert!(data.is_empty());
            let typed = decode_open_mapping_reply(&g);
            assert_eq!(typed.header.error, 0);
            // the first handle of this process
            assert_eq!(typed.handle, 4);
            assert_eq!(process.handles.get(&Handle(typed.handle)), Some(mapping));
        },
        _ => panic!("an existing mapping must be opened"),
    }
    // the handle owns a reference of its own
    assert_eq!(store.ref_count(mapping), 2);
}

#[test]
fn dispatch_open_mapping_not_found() {
    let mut process = Process::new(0);
    let mut store = ObjectStore::new();
    let root = store.add_directory();
    let payload = utf16_bytes("\\No\\Such\\Name");
    let req = encode_open_mapping_request(&open_mapping_request(payload.len()));
    match dispatch(&mut process, &mut store, root, &req, &payload) {
        Outcome::Reply(g, data) => {
            assert!(data.is_empty());
            let typed = decode_open_mapping_reply(&g);
            assert_eq!(typed.header.error, 0);
            assert_eq!(typed.handle, 0);
        },
        _ => panic!("an absent name answers with a null handle"),
    }
    assert_eq!(process.handles.count(), 0);
}

#[test]
fn open_mapping_rejects_wrong_kind() {
    let mut process = Process::new(0);
    let mut store = ObjectStore::new();
    let root = store.add_directory();
    let dir = store.add_directory();
    let name: Vec<u16> = "\\OnlyADirectory".encode_utf16().collect();
    assert_eq!(store.insert_path(root, &name, dir), Some(dir));
    let payload = utf16_bytes("\\OnlyADirectory");
    let rec = open_mapping_request(payload.len());
    let r = open_mapping(&mut process, &mut store, root, &rec, &payload);
    assert_eq!(r, Err(STATUS_OBJECT_TYPE_MISMATCH));
    assert_eq!(process.handles.count(), 0);
}
