use glenda::align::{align_up, page_count, PGSIZE};
use glenda::bytes::{copy_prefix, fixed_1024, fixed_256, sub_vec};
use glenda::cap::{Badge, CapPtr, Console, Endpoint, Frame};
use glenda::error::Error;
use glenda::heap::{expand_size, extension};
use glenda::ipc::{piece_requests, MsgFlags, MsgTag, Utcb, IPC_BUFFER_SIZE, MR_COUNT};
use glenda::shm::{SharedMemory, ShmParams};
use glenda::uring::{wait_step, IoUringClient, IoUringCqe, IoUringSqe, RingParams};
use glenda::wire::{push_u32_le, read_u32_le, read_u64_le};

#[test]
fn error_codes_are_fixed() {
    assert_eq!(Error::Success.code(), 0);
    assert_eq!(Error::Generic.code(), 1);
    assert_eq!(Error::NotInitialized.code(), 9);
    assert_eq!(Error::InvalidCapability.code(), 20);
    assert_eq!(Error::OutOfMemory.code(), 40);
    assert_eq!(Error::MessageTooLong.code(), 62);
    assert_eq!(Error::NotFound.code(), 80);
    assert_eq!(Error::InvalidConfig.code(), 102);
    assert_eq!(Error::Unknown.code(), 255);
    let as_usize: usize = Error::PermissionDenied.into();
    assert_eq!(as_usize, 21);
}

#[test]
fn error_code_round_trip() {
    let all = [
        Error::Success, Error::Generic, Error::InvalidArgs, Error::NotSupported, Error::NotImplemented,
        Error::InternalError, Error::Timeout, Error::Interrupted, Error::WouldBlock, Error::NotInitialized,
        Error::InvalidCapability, Error::PermissionDenied, Error::InvalidType, Error::InvalidSlot,
        Error::CNodeFull, Error::SlotNotEmpty, Error::InvalidMethod, Error::OutOfMemory,
        Error::MappingFailed, Error::UnmappingFailed, Error::InvalidAddress, Error::InvalidEndpoint,
        Error::InvalidProtocol, Error::MessageTooLong, Error::ReplyFailed, Error::NotFound,
        Error::AlreadyExists, Error::ResourceBusy, Error::IoError, Error::DeviceError,
        Error::InvalidConfig, Error::Unknown,
    ];
    for e in all {
        assert_eq!(Error::from_code(e.code()), e);
    }
    for i in 0..all.len() {
        for j in 0..all.len() {
            if i != j {
                assert_ne!(all[i].code(), all[j].code());
            }
        }
    }
}

#[test]
fn unknown_codes_decode_to_unknown() {
    assert_eq!(Error::from_code(10), Error::Unknown);
    assert_eq!(Error::from_code(19), Error::Unknown);
    assert_eq!(Error::from_code(254), Error::Unknown);
    assert_eq!(Error::from_code(1000), Error::Unknown);
    assert_eq!(Error::from_code(61), Error::InvalidProtocol);
}

#[test]
fn flags_union_and_contains() {
    let both = MsgFlags::has_buffer().union(MsgFlags::has_cap());
    assert_eq!(both.bits, 6);
    assert!(both.contains(MsgFlags::has_cap()));
    assert!(both.contains(MsgFlags::has_buffer()));
    assert!(!both.contains(MsgFlags::ok()));
    assert!(MsgFlags::ok().contains(MsgFlags::none()));
    let t = MsgTag::new(0x100, 3, MsgFlags::ok());
    assert_eq!(t.flags(), MsgFlags::ok());
    assert_eq!(t.proto, 0x100);
    assert_eq!(t.label, 3);
}

#[test]
fn utcb_new_is_cleared() {
    let u = Utcb::new();
    assert_eq!(u.mrs.len(), MR_COUNT);
    assert!(u.mrs.iter().all(|&r| r == 0));
    assert_eq!(u.get_size(), 0);
    assert_eq!(u.cap_transfer, None);
    assert_eq!(u.recv_window, None);
    assert_eq!(u.get_msg_tag(), MsgTag::new(0, 0, MsgFlags::none()));
}

#[test]
fn utcb_request_fills_registers() {
    let mut u = Utcb::request(7, 9, MsgFlags::ok(), vec![1, 2, 3]);
    assert_eq!(u.mrs, vec![1, 2, 3, 0, 0, 0, 0, 0]);
    assert_eq!(u.get_mr(2), 3);
    assert_eq!(u.get_mr(100), 0);
    u.set_mr(5, 42);
    assert_eq!(u.get_mr(5), 42);
    u.set_cap_transfer(CapPtr::from(3));
    u.set_recv_window(CapPtr::from(4));
    assert_eq!(u.cap_transfer, Some(CapPtr(3)));
    assert_eq!(u.recv_window, Some(CapPtr(4)));
    u.set_msg_tag(MsgTag::new(1, 2, MsgFlags::has_cap()));
    assert_eq!(u.tag.label, 2);
}

#[test]
fn utcb_write_truncates_and_read_copies() {
    let mut u = Utcb::new();
    let big = vec![7u8; IPC_BUFFER_SIZE + 10];
    assert_eq!(u.write(&big), IPC_BUFFER_SIZE);
    assert_eq!(u.get_size(), IPC_BUFFER_SIZE);
    assert_eq!(u.write(b"hello"), 5);
    assert_eq!(u.buffer, b"hello".to_vec());
    let mut dst = [9u8; 3];
    assert_eq!(u.read(&mut dst), 3);
    assert_eq!(&dst, b"hel");
    let mut wide = [9u8; 8];
    assert_eq!(u.read(&mut wide), 5);
    assert_eq!(&wide, b"hello\x09\x09\x09");
}

#[test]
fn utcb_write_str_refuses_long_text() {
    let mut u = Utcb::new();
    assert_eq!(u.write_str("abc"), Ok(()));
    assert_eq!(u.buffer, b"abc".to_vec());
    let long = "x".repeat(IPC_BUFFER_SIZE + 1);
    assert_eq!(u.write_str(&long), Err(Error::MessageTooLong));
    assert_eq!(u.buffer, b"abc".to_vec());
    let exact = "y".repeat(IPC_BUFFER_SIZE);
    assert_eq!(u.write_str(&exact), Ok(()));
    assert_eq!(u.get_size(), IPC_BUFFER_SIZE);
}

#[test]
fn request_with_data_and_str() {
    let r = Utcb::request_with_data(1, 2, MsgFlags::has_buffer(), vec![5], b"xyz").unwrap();
    assert_eq!(r.buffer, b"xyz".to_vec());
    assert_eq!(r.get_mr(0), 5);
    assert_eq!(r.tag.flags.bits, 4);
    let too_long = vec![0u8; IPC_BUFFER_SIZE + 1];
    assert!(matches!(Utcb::request_with_data(1, 2, MsgFlags::none(), vec![], &too_long), Err(Error::MessageTooLong)));
    let s = Utcb::request_with_str(1, 3, MsgFlags::none(), vec![], "name").unwrap();
    assert_eq!(s.buffer, b"name".to_vec());
}

#[test]
fn pieces_cover_the_data_in_order() {
    let data: Vec<u8> = (0..(2 * IPC_BUFFER_SIZE + 5)).map(|i| (i % 251) as u8).collect();
    let reqs = piece_requests(9, 4, &data);
    assert_eq!(reqs.len(), 3);
    assert_eq!(reqs[0].buffer.len(), IPC_BUFFER_SIZE);
    assert_eq!(reqs[2].buffer.len(), 5);
    let joined: Vec<u8> = reqs.iter().flat_map(|r| r.buffer.clone()).collect();
    assert_eq!(joined, data);
    assert!(reqs.iter().all(|r| r.tag.proto == 9 && r.tag.label == 4));
    assert_eq!(piece_requests(9, 4, &[]).len(), 0);
    assert_eq!(piece_requests(9, 4, &vec![1u8; IPC_BUFFER_SIZE]).len(), 1);
}

#[test]
fn align_and_page_count() {
    assert_eq!(align_up(0, 8), 0);
    assert_eq!(align_up(1, 8), 8);
    assert_eq!(align_up(8, 8), 8);
    assert_eq!(align_up(4097, PGSIZE), 8192);
    assert_eq!(page_count(0), 0);
    assert_eq!(page_count(1), 1);
    assert_eq!(page_count(4096), 1);
    assert_eq!(page_count(4097), 2);
    assert_eq!(page_count(3 * 4096), 3);
}

#[test]
fn byte_helpers() {
    let mut dst = [0u8; 5];
    copy_prefix(&mut dst, b"abcdef", 3);
    assert_eq!(&dst, b"abc\0\0");
    assert_eq!(sub_vec(b"abcdef", 1, 4), b"bcd".to_vec());
    let f = fixed_256(b"hi");
    assert_eq!(f[0], b'h');
    assert_eq!(f[1], b'i');
    assert!(f[2..].iter().all(|&b| b == 0));
    let long = vec![3u8; 2000];
    let g = fixed_1024(&long);
    assert!(g.iter().all(|&b| b == 3));
    let h = fixed_256(&long);
    assert!(h.iter().all(|&b| b == 3));
}

#[test]
fn little_endian_words() {
    let b = [0x78, 0x56, 0x34, 0x12, 0xef, 0xcd, 0xab, 0x90, 0x01];
    assert_eq!(read_u32_le(&b, 0), 0x1234_5678);
    assert_eq!(read_u64_le(&b, 0), 0x90ab_cdef_1234_5678);
    assert_eq!(read_u32_le(&b, 1), 0xef12_3456);
    let mut out = vec![0xaa];
    push_u32_le(&mut out, 0xdead_beef);
    assert_eq!(out, vec![0xaa, 0xef, 0xbe, 0xad, 0xde]);
    assert_eq!(read_u32_le(&out, 1), 0xdead_beef);
}

#[test]
fn wait_step_outcomes() {
    let own_ok = IoUringCqe { user_data: 5, res: 12, flags: 0 };
    let own_err = IoUringCqe { user_data: 5, res: -1, flags: 0 };
    let other = IoUringCqe { user_data: 6, res: 0, flags: 0 };
    assert_eq!(wait_step(5, Some(own_ok)), Some(Ok(())));
    assert_eq!(wait_step(5, Some(own_err)), Some(Err(Error::Generic)));
    assert_eq!(wait_step(5, Some(other)), None);
    assert_eq!(wait_step(5, None), None);
}

#[test]
fn ring_and_shared_memory_descriptors() {
    let mut c = IoUringClient::new(0x1000, 0x2000, 16, 32);
    assert_eq!(c.vaddr, 0x1000);
    assert_eq!(c.sq_entries, 16);
    assert_eq!(c.server_notify, None);
    c.set_server_notify(Endpoint::from(CapPtr::from(8)));
    assert_eq!(c.server_notify, Some(Endpoint(CapPtr(8))));
    let sqe = IoUringSqe::default();
    assert_eq!(sqe.opcode, 0);
    assert_eq!(sqe.user_data, 0);
    let p = RingParams::empty();
    assert_eq!(p.sq_entries, 0);
    let s = ShmParams::empty();
    assert_eq!(s.size, 0);
    let mut shm = SharedMemory::new(Frame::from(CapPtr::from(2)), 0x5000, 0x3000);
    assert_eq!(shm.client_vaddr(), 0x5000);
    assert_eq!(shm.paddr, 0);
    shm.set_client_vaddr(0x9000);
    shm.set_paddr(0x8000_0000);
    assert_eq!(shm.client_vaddr(), 0x9000);
    assert_eq!(shm.vaddr(), 0x5000);
    assert_eq!(shm.size(), 0x3000);
    assert_eq!(shm.paddr, 0x8000_0000);
}

#[test]
fn capabilities() {
    assert!(CapPtr::null().is_null());
    assert!(!CapPtr::from(3).is_null());
    assert_eq!(CapPtr::from(3).bits(), 3);
    assert_eq!(Badge::null().bits(), 0);
    assert_eq!(Endpoint::from(CapPtr(4)).cap(), CapPtr(4));
    assert_eq!(Console::null(), Console(CapPtr(0)));
}

#[test]
fn heap_growth() {
    assert_eq!(expand_size(10), PGSIZE);
    assert_eq!(expand_size(PGSIZE), PGSIZE);
    assert_eq!(expand_size(3 * PGSIZE + 1), 3 * PGSIZE + 1);
    let ok: Result<usize, Error> = Ok(0x1000);
    assert_eq!(extension(ok, 0x2000), Ok((0x1000, 0x3000)));
    let err: Result<usize, Error> = Err(Error::OutOfMemory);
    assert_eq!(extension(err, 0x2000), Err(()));
}
