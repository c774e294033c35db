use glenda::cap::{Badge, CapPtr, Endpoint, Frame};
use glenda::client::resource::ResourceClient;
use glenda::client::volume::{FrameMapping, ShmGrant, VolumeClient};
use glenda::error::Error;
use glenda::ipc::{MsgFlags, MsgTag, Utcb, IPC_BUFFER_SIZE};
use glenda::protocol::init::ServiceState;
use glenda::protocol::volume::{ACQUIRE_SHM, GET_DEVICE, GET_INFO, MOUNT_PARTITION, PROBE_DEVICE, REGISTER_SHM, REPORT_STATE, SETUP_RING};
use glenda::protocol::VOLUME_PROTO;
use glenda::shm::ShmParams;
use glenda::uring::{RingParams, IOURING_OP_READ, IOURING_OP_WRITE};

fn params() -> (RingParams, ShmParams) {
    let ring = RingParams {
        sq_entries: 16,
        cq_entries: 32,
        notify_ep: Endpoint(CapPtr(30)),
        recv_slot: CapPtr(31),
        vaddr: 0x7000_0000,
        size: 5000,
    };
    let shm = ShmParams { frame: Frame(CapPtr(0)), vaddr: 0, paddr: 0, size: 0, recv_slot: CapPtr(32) };
    (ring, shm)
}

fn reply(flags: usize, regs: Vec<usize>) -> Utcb {
    let mut u = Utcb::request(0, 0, MsgFlags { bits: flags }, regs);
    u.set_msg_tag(MsgTag::new(0, 0, MsgFlags { bits: flags }));
    u
}

fn connected() -> VolumeClient {
    let res = ResourceClient::new(Endpoint(CapPtr(2)));
    let (ring, shm) = params();
    let mut v = VolumeClient::new(Endpoint(CapPtr(9)), &res, ring, shm);
    assert_eq!(v.apply_info(&reply(1, vec![512, 2048])), Ok(()));
    let _ = v.begin_ring_setup();
    v.complete_ring_setup();
    let grant = v.shm_grant(&reply(3, vec![0x6000_0000, 8192])).unwrap();
    v.complete_shm_setup(&grant);
    v
}

#[test]
fn fresh_client_is_not_connected() {
    let res = ResourceClient::new(Endpoint(CapPtr(2)));
    let v = VolumeClient::new_simple(Endpoint(CapPtr(9)), &res);
    assert_eq!(v.endpoint(), Endpoint(CapPtr(9)));
    assert_eq!(v.capacity(), 0);
    assert_eq!(v.block_size(), 0);
    assert!(v.ring().is_none());
    assert_eq!(v.wait_endpoint(), Endpoint(CapPtr(9)));
    assert_eq!(v.prepare_read_at(0, 512), Err(Error::NotInitialized));
    assert_eq!(v.prepare_write_at(0, 512), Err(Error::NotInitialized));
    let c = v.connect_request();
    assert_eq!((c.tag.proto, c.tag.label), (VOLUME_PROTO, GET_INFO));
}

#[test]
fn geometry_reply_needs_ok_flag() {
    let res = ResourceClient::new(Endpoint(CapPtr(2)));
    let (ring, shm) = params();
    let mut v = VolumeClient::new(Endpoint(CapPtr(9)), &res, ring, shm);
    assert_eq!(v.apply_info(&reply(0, vec![512, 100])), Err(Error::Generic));
    assert_eq!(v.block_size(), 0);
    assert_eq!(v.apply_info(&reply(1, vec![4096, 100])), Ok(()));
    assert_eq!(v.block_size(), 4096);
    assert_eq!(v.capacity(), 100);
}

#[test]
fn ring_setup_steps() {
    let res = ResourceClient::new(Endpoint(CapPtr(2)));
    let (ring, shm) = params();
    let mut v = VolumeClient::new(Endpoint(CapPtr(9)), &res, ring, shm);
    let u = v.begin_ring_setup();
    assert_eq!((u.tag.proto, u.tag.label, u.tag.flags.bits), (VOLUME_PROTO, SETUP_RING, 2));
    assert_eq!(u.get_mr(0), 16);
    assert_eq!(u.get_mr(1), 32);
    assert_eq!(u.cap_transfer, Some(CapPtr(30)));
    assert_eq!(u.recv_window, Some(CapPtr(31)));
    assert_eq!(v.wait_endpoint(), Endpoint(CapPtr(30)));
    assert_eq!(v.ring_mapping(), FrameMapping { frame: Frame(CapPtr(31)), vaddr: 0x7000_0000, pages: 2 });
    v.complete_ring_setup();
    let r = v.ring().unwrap();
    assert_eq!(r.vaddr, 0x7000_0000);
    assert_eq!(r.sq_entries, 16);
    assert_eq!(r.cq_entries, 32);
    assert_eq!(r.server_notify, Some(Endpoint(CapPtr(9))));
}

#[test]
fn shm_setup_steps() {
    let res = ResourceClient::new(Endpoint(CapPtr(2)));
    let (ring, shm) = params();
    let v = VolumeClient::new(Endpoint(CapPtr(9)), &res, ring, shm);
    let u = v.begin_shm_setup().unwrap();
    assert_eq!((u.tag.label, u.get_mr(0), u.recv_window), (ACQUIRE_SHM, 0, Some(CapPtr(32))));
    assert_eq!(v.shm_grant(&reply(1, vec![1, 2])), Err(Error::Generic));
    let g = v.shm_grant(&reply(3, vec![0x6000_0000, 8193])).unwrap();
    assert_eq!(g, ShmGrant { frame: Frame(CapPtr(32)), local_vaddr: 0x6000_0000, size: 8193 });
    assert_eq!(VolumeClient::shm_mapping(&g).pages, 3);
    let reg = VolumeClient::shm_register_request(&g);
    assert_eq!((reg.tag.label, reg.get_mr(0), reg.get_mr(1)), (REGISTER_SHM, 0x6000_0000, 8193));

    let no_slot = ShmParams::empty();
    let w = VolumeClient::new(Endpoint(CapPtr(9)), &res, ring, no_slot);
    assert!(matches!(w.begin_shm_setup(), Err(Error::InvalidArgs)));
    let fixed = ShmParams { frame: Frame(CapPtr(0)), vaddr: 0x5000_0000, paddr: 0, size: 0, recv_slot: CapPtr(32) };
    let x = VolumeClient::new(Endpoint(CapPtr(9)), &res, ring, fixed);
    assert_eq!(x.shm_grant(&reply(3, vec![0x6000_0000, 4096])).unwrap().local_vaddr, 0x5000_0000);
}

#[test]
fn transfers_are_checked() {
    let v = connected();
    assert_eq!(v.prepare_read_at(3, 100), Err(Error::InvalidArgs));
    assert_eq!(v.prepare_read_at(3, 16384), Err(Error::InvalidArgs));
    assert_eq!(v.prepare_write_at(3, 1000), Err(Error::InvalidArgs));
    let r = v.prepare_read_at(3, 1024).unwrap();
    assert_eq!((r.opcode, r.off, r.addr, r.len), (IOURING_OP_READ, 3, 0x6000_0000, 1024));
    let w = v.prepare_write_at(4, 512).unwrap();
    assert_eq!((w.opcode, w.off, w.len), (IOURING_OP_WRITE, 4, 512));
    assert_ne!(r.user_data, w.user_data);
    let s = v.prepare_read_shm(5, 16384, 0x6000_1000).unwrap();
    assert_eq!((s.addr, s.len), (0x6000_1000, 16384));
    assert_eq!(v.blocks_len(3), 1536);
    let b = v.prepare_read_blocks(7, 2).unwrap();
    assert_eq!((b.off, b.len), (7, 1024));
    let wb = v.prepare_write_blocks(7, 2).unwrap();
    assert_eq!((wb.opcode, wb.len), (IOURING_OP_WRITE, 1024));
    assert_eq!(v.prepare_read_blocks(7, 17), Err(Error::InvalidArgs));
}

#[test]
fn request_ids_are_shared_between_clones() {
    let v = connected();
    let w = v.clone();
    let a = v.prepare_read_at(0, 512).unwrap().user_data;
    let b = w.prepare_read_at(0, 512).unwrap().user_data;
    let c = v.prepare_read_at(0, 512).unwrap().user_data;
    assert_eq!(a, 0x1000);
    assert_eq!(b, a + 1);
    assert_eq!(c, a + 2);
}

#[test]
fn staging_copies_what_fits() {
    assert_eq!(VolumeClient::staged_len(512, 100), 100);
    assert_eq!(VolumeClient::staged_len(512, 1000), 512);
    let shm = vec![5u8; 512];
    let mut buf = vec![0u8; 600];
    VolumeClient::finish_read_at(512, &shm, &mut buf);
    assert!(buf[..512].iter().all(|&b| b == 5));
    assert!(buf[512..].iter().all(|&b| b == 0));
    let mut area = vec![0u8; 8];
    VolumeClient::stage_write_at(4, b"abcdefgh", &mut area);
    assert_eq!(&area, b"abcd\0\0\0\0");
}

#[test]
fn volume_requests() {
    let v = connected();
    let d = v.get_device_request(Badge(7), CapPtr(40));
    assert_eq!((d.tag.label, d.get_mr(0), d.recv_window), (GET_DEVICE, 7, Some(CapPtr(40))));
    assert_eq!(VolumeClient::endpoint_reply(&reply(2, vec![]), CapPtr(40)), Ok(Endpoint(CapPtr(40))));
    assert_eq!(VolumeClient::endpoint_reply(&reply(1, vec![]), CapPtr(40)), Err(Error::Generic));
    let p = v.probe_device_request(Badge(0), "sda").unwrap();
    assert_eq!((p.tag.label, p.tag.flags.bits, p.buffer.clone()), (PROBE_DEVICE, 4, b"sda".to_vec()));
    let long = "d".repeat(IPC_BUFFER_SIZE + 1);
    assert!(matches!(v.probe_device_request(Badge(0), &long), Err(Error::MessageTooLong)));
    let s = v.report_state_request(Badge(0), ServiceState(2), Some(CapPtr(12)));
    assert_eq!((s.tag.label, s.tag.flags.bits, s.get_mr(0), s.cap_transfer), (REPORT_STATE, 2, 2, Some(CapPtr(12))));
    let n = v.report_state_request(Badge(0), ServiceState(3), None);
    assert_eq!((n.tag.flags.bits, n.cap_transfer), (0, None));
    let m = v.mount_partition_request(Badge(0), "sda1", CapPtr(41)).unwrap();
    assert_eq!((m.tag.label, m.recv_window, m.buffer.clone()), (MOUNT_PARTITION, Some(CapPtr(41)), b"sda1".to_vec()));
}

#[test]
fn disconnect_is_harmless() {
    let mut v = connected();
    assert_eq!(v.disconnect(), Ok(()));
}

#[test]
fn block_submissions_match_byte_submissions() {
    let v = connected();
    let b = v.prepare_read_blocks(7, 2).unwrap();
    let a = v.prepare_read_at(7, 1024).unwrap();
    assert_eq!((b.opcode, b.flags, b.off, b.addr, b.len), (a.opcode, a.flags, a.off, a.addr, a.len));
    assert_eq!(b.addr, 0x6000_0000);
    let wb = v.prepare_write_blocks(7, 2).unwrap();
    let wa = v.prepare_write_at(7, 1024).unwrap();
    assert_eq!((wb.opcode, wb.flags, wb.off, wb.addr, wb.len), (wa.opcode, wa.flags, wa.off, wa.addr, wa.len));
}

#[test]
fn geometry_survives_setup() {
    let v = connected();
    assert_eq!(v.capacity(), 2048);
    assert_eq!(v.block_size(), 512);
    let shm = v.shm().unwrap();
    assert_eq!((shm.vaddr(), shm.size()), (0x6000_0000, 8192));
    let mut w = v.clone();
    w.set_shm(glenda::shm::SharedMemory::new(Frame(CapPtr(1)), 0x10, 0x20));
    w.set_ring(glenda::uring::IoUringClient::new(1, 2, 3, 4));
    assert_eq!(w.capacity(), 2048);
}
