use glenda::cap::{Badge, CapPtr, CNode, Endpoint, Page, RECV_SLOT};
use glenda::client::auth::AuthClient;
use glenda::client::fs::{FsClient, OpenFlags};
use glenda::client::generic::GeneralClient;
use glenda::client::init::InitClient;
use glenda::client::network::NetworkClient;
use glenda::client::process::ProcessClient;
use glenda::client::resource::ResourceClient;
use glenda::client::time::TimeClient;
use glenda::error::Error;
use glenda::ipc::{MsgFlags, Utcb, IPC_BUFFER_SIZE};
use glenda::protocol::auth::{IdentityInfo, PolicyRule, GET_TICKET, SET_IDENTITY, SET_POLICY_BACKEND};
use glenda::protocol::fs::{IOCTL_EX, MAP_PAGE, MOUNT, OPEN, READ_SYNC, SETUP_IOURING, UNMAP_PAGE, WRITE_SYNC};
use glenda::protocol::init::{ServiceState, REPORT, START};
use glenda::protocol::network::{BIND, SEND, SOCKET};
use glenda::protocol::process::{GET_CNODE, SPAWN, THREAD_CREATE};
use glenda::protocol::resource::{CapType, MemoryStatus, ResourceType, WarrenStatus, ALLOC, GET_CONFIG, REGISTER_CAP, SBRK};
use glenda::protocol::time::{ADJ_TIME, SLEEP};
use glenda::protocol::{AUTH_PROTO, FS_PROTO, INIT_PROTO, RESOURCE_PROTO};
use glenda::uring::{IoUringClient, IOURING_OP_READ, IOURING_OP_WRITE};

fn reply_with(flags: usize, regs: Vec<usize>, data: &[u8]) -> Utcb {
    let mut u = Utcb::request(0, 0, MsgFlags { bits: flags }, regs);
    u.write(data);
    u
}

#[test]
fn version_packing_round_trips() {
    assert_eq!(AuthClient::pack_version(1, 2), 0x10002);
    assert_eq!(AuthClient::unpack_version(0x10002), (1, 2));
    for (ma, mi) in [(0u16, 0u16), (0xffff, 0xffff), (3, 0x8000), (0x1234, 1)] {
        assert_eq!(AuthClient::unpack_version(AuthClient::pack_version(ma, mi)), (ma, mi));
    }
    let a = AuthClient::new(Endpoint(CapPtr(3)));
    let n = a.negotiate_request(2, 5, 7);
    assert_eq!((n.get_mr(0), n.get_mr(1)), (0x20005, 7));
    assert_eq!(AuthClient::negotiate_reply(&reply_with(0, vec![0x30004, 9], &[])), (3, 4, 9));
}

#[test]
fn identity_round_trips() {
    let a = AuthClient::new(Endpoint(CapPtr(3)));
    let id = IdentityInfo { uid: 1000, gid: 100, euid: 0, egid: 0xdead_beef };
    let u = a.set_identity_request(42, id);
    assert_eq!((u.tag.proto, u.tag.label, u.tag.flags.bits, u.get_mr(0)), (AUTH_PROTO, SET_IDENTITY, 4, 42));
    assert_eq!(u.buffer, AuthClient::encode_identity(&id));
    assert_eq!(u.buffer.len(), 16);
    assert_eq!(AuthClient::get_identity_reply(&u), id);
    let regs = reply_with(0, vec![5, 6, 7, 8], &[]);
    assert_eq!(AuthClient::get_identity_reply(&regs), IdentityInfo { uid: 5, gid: 6, euid: 7, egid: 8 });
}

#[test]
fn decisions_from_buffer_or_registers() {
    let from_buf = reply_with(0, vec![], &[1, 9, 9, 9, 0x10, 0, 0, 0]);
    let d = AuthClient::check_permission_reply(&from_buf);
    assert_eq!((d.allowed, d.reserved, d.ttl_ms), (1, [9, 9, 9], 16));
    let from_regs = reply_with(0, vec![5, 300], &[]);
    let e = AuthClient::check_permission_reply(&from_regs);
    assert_eq!((e.allowed, e.reserved, e.ttl_ms), (1, [0, 0, 0], 300));
    let denied = AuthClient::check_permission_reply(&reply_with(0, vec![0, 0], &[]));
    assert_eq!(denied.allowed, 0);
    let s = AuthClient::get_policy_backend_status_reply(&reply_with(0, vec![1, 77], &[]));
    assert_eq!((s.external_attached, s.generation), (1, 77));
}

#[test]
fn auth_requests() {
    let a = AuthClient::new(Endpoint(CapPtr(3)));
    assert_eq!(a.endpoint(), Endpoint(CapPtr(3)));
    let t = a.get_ticket_request("fs").unwrap();
    assert_eq!((t.tag.label, t.get_mr(0), t.buffer.clone()), (GET_TICKET, 2, b"fs".to_vec()));
    assert!(matches!(a.get_ticket_request(&"s".repeat(IPC_BUFFER_SIZE + 1)), Err(Error::MessageTooLong)));
    let tk = AuthClient::get_ticket_reply(&reply_with(0, vec![], b"tok"));
    assert_eq!(&tk[..3], b"tok");
    assert!(tk[3..].iter().all(|&b| b == 0));
    assert!(AuthClient::validate_ticket_reply(&reply_with(0, vec![1], &[])));
    assert!(!AuthClient::validate_ticket_reply(&reply_with(0, vec![0], &[])));
    let b = a.set_policy_backend_request();
    assert_eq!((b.tag.label, b.cap_transfer, b.recv_window), (SET_POLICY_BACKEND, Some(CapPtr(RECV_SLOT)), Some(CapPtr(RECV_SLOT))));
    let p = a.upsert_policy_request(PolicyRule { subject: 4, effect: 1, ttl_ms: 60 }, "res", "rw").unwrap();
    assert_eq!((p.get_mr(0), p.get_mr(1), p.get_mr(2), p.buffer.clone()), (4, 1, 60, b"\x03res\x02rw".to_vec()));
    assert!(matches!(a.delete_policy_request(4, &"r".repeat(IPC_BUFFER_SIZE), "x"), Err(Error::MessageTooLong)));
    let d = a.delete_policy_request(4, "res", "rw").unwrap();
    assert_eq!((d.get_mr(0), d.buffer.clone()), (4, postcard::to_allocvec(&("res", "rw")).unwrap()));
    let c = a.check_permission_request(7, "/dev/uart", "open").unwrap();
    assert_eq!((c.get_mr(0), c.buffer.clone()), (7, b"\x09/dev/uart\x04open".to_vec()));
    let long_name = "n".repeat(200);
    let c2 = a.check_permission_request(7, &long_name, "").unwrap();
    assert_eq!(&c2.buffer[..2], &[0xc8, 0x01]);
    assert_eq!(c2.buffer.len(), 2 + 200 + 1);
    let rpc = a.auth_rpc_request(&vec![1u8; IPC_BUFFER_SIZE + 3]);
    assert_eq!((rpc.get_mr(0), rpc.buffer.len()), (IPC_BUFFER_SIZE + 3, IPC_BUFFER_SIZE));
    let block = AuthClient::response_block(&reply_with(0, vec![], b"ok"));
    assert_eq!(&block[..2], b"ok");
    let px = a.proxy_call_request(11, 12, 13, b"pl");
    assert_eq!((px.get_mr(0), px.get_mr(1), px.get_mr(2), px.buffer.clone()), (11, 12, 13, b"pl".to_vec()));
}

#[test]
fn fs_path_requests() {
    let f = FsClient::new(Endpoint(CapPtr(6)));
    let mut g = f;
    assert_eq!(g.pipe(Badge(0)), Err(Error::NotImplemented));
    let o = f.open_request(Badge(0), "/etc/motd", OpenFlags(0o2), 0o644, CapPtr(20)).unwrap();
    assert_eq!((o.tag.proto, o.tag.label, o.tag.flags.bits), (FS_PROTO, OPEN, 4));
    assert_eq!((o.get_mr(0), o.get_mr(1), o.recv_window), (2, 0o644, Some(CapPtr(20))));
    assert_eq!(o.buffer, b"/etc/motd".to_vec());
    let long = "p".repeat(IPC_BUFFER_SIZE + 1);
    assert!(matches!(f.open_request(Badge(0), &long, OpenFlags(0), 0, CapPtr(20)), Err(Error::MessageTooLong)));
    assert!(matches!(f.mkdir_request(Badge(0), &long, 0), Err(Error::MessageTooLong)));
    let m = f.mount_request(Badge(0), "/mnt").unwrap();
    assert_eq!((m.tag.label, m.tag.flags.bits, m.cap_transfer), (MOUNT, 6, Some(CapPtr(RECV_SLOT))));
    assert!(f.unlink_request(Badge(0), "/x").is_ok());
    let rn = f.rename_request(Badge(0), "/a", "/b").unwrap();
    assert_eq!(rn.buffer, b"\x02/a\x02/b".to_vec());
    let ln = f.link_request(Badge(0), "/a", "/é").unwrap();
    assert_eq!(ln.buffer, postcard::to_allocvec(&("/a", "/é")).unwrap());
}

#[test]
fn fs_read_and_write() {
    let f = FsClient::new(Endpoint(CapPtr(6)));
    let r = f.read_request(Badge(0), 100, 64);
    assert_eq!((r.tag.label, r.get_mr(0), r.get_mr(1)), (READ_SYNC, 64, 100));
    let mut buf = [0u8; 6];
    assert_eq!(FsClient::read_reply(&reply_with(0, vec![4], b"data!!"), &mut buf), Ok(4));
    assert_eq!(&buf, b"data\0\0");
    let mut small = [7u8; 2];
    assert_eq!(FsClient::read_reply(&reply_with(0, vec![4], b"data"), &mut small), Err(Error::InvalidArgs));
    assert_eq!(small, [7, 7]);
    let w = f.write_request(Badge(0), 8, &vec![1u8; IPC_BUFFER_SIZE + 5]);
    assert_eq!((w.tag.label, w.get_mr(0), w.buffer.len()), (WRITE_SYNC, 8, IPC_BUFFER_SIZE));
    assert_eq!(FsClient::poll_reply(&reply_with(0, vec![5], &[])), 5);
}

#[test]
fn fs_ioctl() {
    let f = FsClient::new(Endpoint(CapPtr(6)));
    let plain = f.ioctl_ex_request(Badge(0), 3, 9, None, 16).unwrap();
    assert_eq!((plain.tag.label, plain.tag.flags.bits), (IOCTL_EX, 0));
    assert_eq!(plain.mrs[..5].to_vec(), vec![0, 3, 9, 0, 16]);
    let with_in = f.ioctl_ex_request(Badge(0), 3, 9, Some(b"in"), 0).unwrap();
    assert_eq!((with_in.tag.flags.bits, with_in.get_mr(3), with_in.buffer.clone()), (4, 2, b"in".to_vec()));
    let empty_in = f.ioctl_ex_request(Badge(0), 3, 9, Some(&[]), 0).unwrap();
    assert_eq!(empty_in.tag.flags.bits, 0);
    assert!(matches!(f.ioctl_ex_request(Badge(0), 3, 9, None, IPC_BUFFER_SIZE + 1), Err(Error::InvalidArgs)));
    assert!(matches!(f.ioctl_ex_request(Badge(0), 3, 9, Some(&vec![0u8; IPC_BUFFER_SIZE + 1]), 0), Err(Error::InvalidArgs)));
    let i = f.ioctl_request(Badge(0), 5, 6);
    assert_eq!(i.mrs[..5].to_vec(), vec![0, 5, 6, 0, 0]);

    let out = FsClient::ioctl_ex_reply(&reply_with(4, vec![7, 3], b"abcdef"), 8).unwrap();
    assert_eq!(out, (7, b"abc".to_vec()));
    assert_eq!(FsClient::ioctl_ex_reply(&reply_with(0, vec![7, 0], &[]), 8).unwrap(), (7, vec![]));
    assert_eq!(FsClient::ioctl_ex_reply(&reply_with(4, vec![7, 9], b"abcdefghij"), 8), Err(Error::InvalidArgs));
    assert_eq!(FsClient::ioctl_ex_reply(&reply_with(0, vec![7, 3], b"abc"), 8), Err(Error::Unknown));
}

#[test]
fn fs_pages_and_ring() {
    let f = FsClient::new(Endpoint(CapPtr(6)));
    assert!(matches!(f.map_pages_request(Badge(0), 0, 0, CapPtr(21)), Err(Error::InvalidArgs)));
    let m = f.map_pages_request(Badge(0), 4096, 3, CapPtr(21)).unwrap();
    assert_eq!((m.tag.label, m.get_mr(0), m.get_mr(1), m.recv_window), (MAP_PAGE, 4096, 3, Some(CapPtr(21))));
    let one = f.map_page_request(Badge(0), 8192, CapPtr(21));
    assert_eq!((one.get_mr(0), one.get_mr(1)), (8192, 1));
    let un = f.unmap_page_request(Badge(0));
    assert_eq!((un.tag.label, un.tag.flags.bits), (UNMAP_PAGE, 2));
    let s = f.setup_iouring_request(Badge(0), 0x1000, 0x2000, Some(Page(CapPtr(5))));
    assert_eq!((s.tag.label, s.tag.flags.bits, s.get_mr(0), s.get_mr(1)), (SETUP_IOURING, 2, 0x2000, 0x1000));
    let n = f.setup_iouring_request(Badge(0), 0x1000, 0x2000, None);
    assert_eq!((n.tag.flags.bits, n.cap_transfer), (0, None));
}

#[test]
fn resource_requests() {
    let r = ResourceClient::new(Endpoint(CapPtr(2)));
    assert_eq!(r.endpoint(), Endpoint(CapPtr(2)));
    let b = r.brk_request(-4096);
    assert_eq!((b.tag.proto, b.tag.label, b.get_mr(0)), (RESOURCE_PROTO, SBRK, (-4096isize) as usize));
    let a = r.alloc_request(Badge(0), CapType::Page, 1, CapPtr(40));
    assert_eq!((a.tag.label, a.get_mr(0), a.get_mr(1), a.get_mr(2)), (ALLOC, 3, 1, 40));
    assert_eq!(r.alloc_cnode_request(CapPtr(41)).get_mr(0), 1);
    assert_eq!(r.alloc_pagetable_request(CapPtr(41)).get_mr(0), 2);
    assert_eq!(ResourceClient::dma_alloc_reply(&reply_with(0, vec![0x8000], &[]), CapPtr(42)), (0x8000, Page(CapPtr(42))));
    assert_eq!(ResourceClient::get_cap_reply(&reply_with(0, vec![17], &[])), CapPtr(17));
    let reg = r.register_cap_request(Badge(0), ResourceType(3), 8, CapPtr(43));
    assert_eq!((reg.tag.label, reg.tag.flags.bits, reg.cap_transfer), (REGISTER_CAP, 2, Some(CapPtr(43))));
    let c = r.get_config_request(Badge(0), "dtb", CapPtr(44)).unwrap();
    assert_eq!((c.tag.label, c.get_mr(0), c.buffer.clone()), (GET_CONFIG, 44, b"dtb".to_vec()));
    assert!(matches!(r.get_config_request(Badge(0), &"c".repeat(IPC_BUFFER_SIZE + 1), CapPtr(44)), Err(Error::MessageTooLong)));
    assert_eq!(ResourceClient::get_config_reply(&reply_with(0, vec![999], &[]), CapPtr(44)), (Page(CapPtr(44)), 999));
    assert_eq!(
        ResourceClient::status_reply(&reply_with(0, vec![10, 20], &[])),
        WarrenStatus { memory: MemoryStatus { available_bytes: 10, total_bytes: 20 } }
    );
}

#[test]
fn page_levels() {
    assert_eq!(CapType::page_pages_to_level(0), None);
    assert_eq!(CapType::page_pages_to_level(1), Some(0));
    assert_eq!(CapType::page_pages_to_level(2), Some(1));
    assert_eq!(CapType::page_pages_to_level(512), Some(1));
    assert_eq!(CapType::page_pages_to_level(513), Some(2));
    assert_eq!(CapType::page_pages_to_level(512 * 512), Some(2));
    assert_eq!(CapType::page_pages_to_level(512 * 512 + 1), None);
}

#[test]
fn network_requests() {
    let mut n = NetworkClient::new(Endpoint(CapPtr(7)));
    assert_eq!(n.read_uring(0x1000, 10, 1), Err(Error::InvalidArgs));
    n.setup_uring(IoUringClient::new(0x9000, 0x1000, 8, 8));
    assert!(n.uring().is_some());
    let r = n.read_uring(0x1000, 10, 1).unwrap();
    assert_eq!((r.opcode, r.addr, r.len, r.user_data), (IOURING_OP_READ, 0x1000, 10, 1));
    let w = n.write_uring(0x2000, 20, 2).unwrap();
    assert_eq!((w.opcode, w.addr, w.len, w.user_data), (IOURING_OP_WRITE, 0x2000, 20, 2));
    let s = n.socket_request(2, 1, 0);
    assert_eq!((s.tag.label, s.get_mr(0), s.get_mr(1), s.get_mr(2)), (SOCKET, 2, 1, 0));
    let b = n.bind_request(b"addr");
    assert_eq!((b.tag.label, b.buffer.clone()), (BIND, b"addr".to_vec()));
    let snd = n.send_request(&vec![9u8; IPC_BUFFER_SIZE + 1], 0);
    assert_eq!((snd.tag.label, snd.get_mr(0), snd.buffer.len()), (SEND, IPC_BUFFER_SIZE, IPC_BUFFER_SIZE));
    let mut dst = [0u8; 4];
    assert_eq!(NetworkClient::copy_reply(&reply_with(0, vec![3], b"xyz"), &mut dst), 3);
    assert_eq!(&dst, b"xyz\0");
    let o = n.setsockopt_request(1, 2, b"v");
    assert_eq!((o.get_mr(0), o.get_mr(1), o.get_mr(2), o.buffer.clone()), (1, 2, 1, b"v".to_vec()));
}

#[test]
fn process_init_time_generic_requests() {
    let p = ProcessClient::new(Endpoint(CapPtr(8)));
    let s = p.spawn_request(Badge(0), "shell").unwrap();
    assert_eq!((s.tag.label, s.buffer.clone()), (SPAWN, b"shell".to_vec()));
    assert!(matches!(p.create_request(Badge(0), &"n".repeat(IPC_BUFFER_SIZE + 1)), Err(Error::MessageTooLong)));
    let c = p.get_cnode_request(Badge(0), 4, CapPtr(50));
    assert_eq!((c.tag.label, c.get_mr(0), c.recv_window), (GET_CNODE, 4, Some(CapPtr(50))));
    assert_eq!(ProcessClient::get_cnode_reply(CapPtr(50)), CNode(CapPtr(50)));
    let t = p.thread_create_request(Badge(0), 1, 2, 3, 4);
    assert_eq!((t.tag.label, t.mrs[..4].to_vec()), (THREAD_CREATE, vec![1, 2, 3, 4]));

    let i = InitClient::new(Endpoint(CapPtr(9)));
    let st = i.start_service_request("net").unwrap();
    assert_eq!((st.tag.proto, st.tag.label, st.buffer.clone()), (INIT_PROTO, START, b"net".to_vec()));
    assert!(matches!(i.stop_service_request(&"n".repeat(IPC_BUFFER_SIZE + 1)), Err(Error::MessageTooLong)));
    let rep = i.report_service_request(Badge(0), ServiceState(4));
    assert_eq!((rep.tag.label, rep.get_mr(0)), (REPORT, 4));

    let tm = TimeClient::new(Endpoint(CapPtr(10)));
    assert_eq!(tm.sleep_request(Badge(0), 250).get_mr(0), 250);
    assert_eq!(tm.sleep_request(Badge(0), 250).tag.label, SLEEP);
    let adj = tm.adj_time_request(Badge(0), 5_000_000_000, -3);
    assert_eq!((adj.tag.label, adj.get_mr(0), adj.get_mr(1)), (ADJ_TIME, 5_000_000_000, (-3i64) as usize));
    assert_eq!(TimeClient::time_reply(&reply_with(0, vec![123], &[])), 123);

    let g = GeneralClient::new(Endpoint(CapPtr(11)));
    assert_eq!(g.ping_request(77).get_mr(0), 77);
    assert_eq!(g.share_memory_request(CapPtr(5)).cap_transfer, Some(CapPtr(5)));
    assert_eq!(g.send_message_request("hi").unwrap().buffer, b"hi".to_vec());
}

#[test]
fn decision_keeps_reserved_bytes() {
    let d = AuthClient::check_permission_reply(&reply_with(0, vec![], &[0, 4, 5, 6, 1, 0, 0, 0]));
    assert_eq!((d.allowed, d.reserved, d.ttl_ms), (0, [4, 5, 6], 1));
    let s = AuthClient::get_policy_backend_status_reply(&reply_with(0, vec![], &[1, 7, 8, 9, 2, 0, 0, 0]));
    assert_eq!((s.external_attached, s.reserved, s.generation), (1, [7, 8, 9], 2));
}

#[test]
fn replies_read_past_their_data_as_zero() {
    let mut buf = [9u8; 6];
    assert_eq!(FsClient::read_reply(&reply_with(0, vec![5], b"ab"), &mut buf), Ok(5));
    assert_eq!(&buf, b"ab\0\0\0\x09");
    assert_eq!(FsClient::ioctl_ex_reply(&reply_with(4, vec![1, 4], b"xy"), 8).unwrap(), (1, b"xy\0\0".to_vec()));
    let mut dst = [7u8; 4];
    assert_eq!(NetworkClient::copy_reply(&reply_with(0, vec![3], b"q"), &mut dst), 3);
    assert_eq!(&dst, b"q\0\0\x07");
}
