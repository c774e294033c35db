use glenda::cap::{CapPtr, Endpoint, Frame, Page};
use glenda::client::drivers::input::InputClient;
use glenda::client::drivers::timer::TimerClient;
use glenda::client::resource::ResourceClient;
use glenda::client::volume::FrameMapping;
use glenda::drivers::client::acpi::AcpiClient;
use glenda::drivers::client::fb::{FbClient, FlushPlan, PageMapping, FLUSH_ID};
use glenda::drivers::client::thermal::ThermalClient;
use glenda::drivers::client::uart::UartClient;
use glenda::drivers::protocol::fb::{sqe_flush, FbInfo, IOURING_OP_FB_FLUSH, SETUP_RING as FB_SETUP_RING};
use glenda::drivers::protocol::uart::{sqe_read, sqe_read_multishot, sqe_write, UartConfig, PUT_CHAR, PUT_STR, SETUP_BUFFER, SET_BAUD_RATE};
use glenda::error::Error;
use glenda::ipc::{MsgFlags, Utcb, IPC_BUFFER_SIZE};
use glenda::protocol::timer::{GET_TIME, SET_ALARM};
use glenda::protocol::{ACPI_PROTO, DRIVER_INPUT_PROTO, FB_PROTO, THERMAL_PROTO, TIMER_PROTO, UART_PROTO};
use glenda::shm::{SharedMemory, ShmParams};
use glenda::uring::{IoUringClient, RingParams, IOSQE_MULTISHOT, IOURING_OP_READ, IOURING_OP_WRITE};

fn reply_with(flags: usize, regs: Vec<usize>, data: &[u8]) -> Utcb {
    let mut u = Utcb::request(0, 0, MsgFlags { bits: flags }, regs);
    u.write(data);
    u
}

fn ring_params() -> RingParams {
    RingParams { sq_entries: 4, cq_entries: 8, notify_ep: Endpoint(CapPtr(70)), recv_slot: CapPtr(71), vaddr: 0x3000_0000, size: 4096 }
}

#[test]
fn timer_split_and_join() {
    let t = TimerClient::new(Endpoint(CapPtr(3)));
    assert_eq!(t.get_time_request().tag.label, GET_TIME);
    assert_eq!(TimerClient::get_time_reply(Ok(()), &reply_with(0, vec![0x89ab_cdef, 0x0123_4567], &[])), 0x0123_4567_89ab_cdef);
    assert_eq!(TimerClient::get_time_reply(Err(Error::Timeout), &reply_with(0, vec![1, 1], &[])), 0);
    let a = t.set_alarm_request(0x0000_0002_0000_0003);
    assert_eq!((a.tag.proto, a.tag.label, a.get_mr(0), a.get_mr(1)), (TIMER_PROTO, SET_ALARM, 3, 2));
    let ts = 0xfedc_ba98_7654_3210u64;
    let s = t.set_alarm_request(ts);
    assert_eq!(TimerClient::get_time_reply(Ok(()), &s), ts);
    assert_eq!(t.stop_alarm_request().tag.proto, TIMER_PROTO);
}

#[test]
fn driver_input() {
    let i = InputClient::new(Endpoint(CapPtr(4)));
    assert_eq!(i.poll_event_request().tag.proto, DRIVER_INPUT_PROTO);
}

#[test]
fn uart_submissions() {
    assert_eq!(sqe_read(0x100, 16, 7).opcode, IOURING_OP_READ);
    let m = sqe_read_multishot(0x100, 16, 7);
    assert_eq!((m.flags, m.addr, m.len, m.user_data), (IOSQE_MULTISHOT, 0x100, 16, 7));
    assert_eq!(sqe_write(0x200, 3, 8).opcode, IOURING_OP_WRITE);
    assert_eq!(UartConfig::default(), UartConfig { baud_rate: 0, data_bits: 0, stop_bits: 0, parity: 0 });
}

#[test]
fn uart_client_setup() {
    let mut res = ResourceClient::new(Endpoint(CapPtr(2)));
    let shm = ShmParams { frame: Frame(CapPtr(72)), vaddr: 0x3100_0000, paddr: 0x9000_0000, size: 8192, recv_slot: CapPtr(0) };
    let mut u = UartClient::new(Endpoint(CapPtr(5)), &mut res, ring_params(), shm);
    assert_eq!(u.endpoint(), Endpoint(CapPtr(5)));
    assert!(matches!(u.read_async_sqe(0x100, 4, 1), Err(Error::NotInitialized)));
    assert!(matches!(u.wait_endpoint(), Err(Error::NotInitialized)));
    let b = u.begin_ring_setup();
    assert_eq!((b.get_mr(0), b.get_mr(1), b.cap_transfer, b.recv_window), (4, 8, Some(CapPtr(70)), Some(CapPtr(71))));
    assert_eq!(u.ring_mapping(), FrameMapping { frame: Frame(CapPtr(71)), vaddr: 0x3000_0000, pages: 1 });
    u.complete_ring_setup();
    assert_eq!(u.ring().unwrap().sq_entries, 4);
    assert_eq!(u.wait_endpoint(), Ok(Endpoint(CapPtr(70))));
    let r = u.read_async_sqe(0x100, 4, 1).unwrap();
    assert_eq!((r.opcode, r.addr, r.len, r.user_data), (IOURING_OP_READ, 0x100, 4, 1));
    let w = u.write_async_sqe(0x200, 5, 2).unwrap();
    assert_eq!((w.opcode, w.addr, w.len, w.user_data), (IOURING_OP_WRITE, 0x200, 5, 2));
    let s = u.shm_setup_request();
    assert_eq!((s.tag.label, s.mrs[..3].to_vec(), s.cap_transfer), (SETUP_BUFFER, vec![0x3100_0000, 8192, 0x9000_0000], Some(CapPtr(72))));
    u.complete_shm_setup();
    assert_eq!(u.shm_params().size, 8192);
    let a = u.next_user_data();
    let b2 = u.next_user_data();
    assert_eq!(b2, a + 1);
    u.set_ring(IoUringClient::new(1, 2, 3, 4));
    assert_eq!(u.ring().unwrap().server_notify, Some(Endpoint(CapPtr(5))));
    u.set_shm(SharedMemory::new(Frame(CapPtr(1)), 2, 3));
    assert_eq!(u.disconnect(), Ok(()));
}

#[test]
fn uart_client_requests() {
    let mut res = ResourceClient::new(Endpoint(CapPtr(2)));
    let u = UartClient::new(Endpoint(CapPtr(5)), &mut res, ring_params(), ShmParams::empty());
    let c = u.put_char_request(b'A');
    assert_eq!((c.tag.proto, c.tag.label, c.get_mr(0)), (UART_PROTO, PUT_CHAR, 65));
    assert_eq!(UartClient::get_char_reply(Ok(()), &reply_with(0, vec![0x42], &[])), Some(b'B'));
    assert_eq!(UartClient::get_char_reply(Err(Error::IoError), &reply_with(0, vec![0x42], &[])), None);
    let text = "hello ".repeat(400);
    let reqs = u.put_str_requests(&text);
    assert_eq!(reqs.len(), 2);
    assert!(reqs.iter().all(|r| r.tag.label == PUT_STR));
    let joined: Vec<u8> = reqs.iter().flat_map(|r| r.buffer.clone()).collect();
    assert_eq!(joined, text.as_bytes().to_vec());
    assert_eq!(u.set_baud_rate_request(115200).tag.label, SET_BAUD_RATE);
    assert_eq!(u.set_baud_rate_request(115200).get_mr(0), 115200);
}

#[test]
fn framebuffer_driver() {
    let s = sqe_flush(1, 2, 3, 4, 9);
    assert_eq!((s.opcode, s.off, s.addr, s.len, s.user_data), (IOURING_OP_FB_FLUSH, (1u64 << 32) | 2, (3u64 << 32) | 4, 0, 9));
    let res = ResourceClient::new(Endpoint(CapPtr(2)));
    let shm = ShmParams::empty();
    let mut f = FbClient::with_params(Endpoint(CapPtr(6)), res, ring_params(), shm);
    assert_eq!(f.get_info().width, 0);
    let mut bytes = Vec::new();
    for v in [1024u64, 768, 4096, 2, 32, 0, 0] {
        bytes.extend_from_slice(&v.to_le_bytes());
    }
    let next = f.apply_info(&reply_with(0, vec![], &bytes));
    assert_eq!(next, Some(ring_params()));
    assert_eq!((f.info().width, f.info().height, f.info().pitch), (1024, 768, 4096));
    let rs = f.ring_setup_request(&ring_params());
    assert_eq!((rs.tag.proto, rs.tag.label, rs.tag.flags.bits), (FB_PROTO, FB_SETUP_RING, 2));
    assert_eq!(f.ring_mapping(&ring_params()), Ok(PageMapping { page: Page(CapPtr(71)), vaddr: 0x3000_0000, pages: 1 }));
    match f.flush_plan(0, 0, 10, 10) {
        FlushPlan::Call(u) => assert_eq!(u.mrs[..4].to_vec(), vec![0, 0, 10, 10]),
        FlushPlan::Ring(_) => panic!("no ring yet"),
    }
    f.complete_ring_setup(&ring_params());
    match f.flush_plan(5, 6, 7, 8) {
        FlushPlan::Ring(s) => assert_eq!((s.off, s.addr, s.user_data), ((5u64 << 32) | 6, (7u64 << 32) | 8, FLUSH_ID as u64)),
        FlushPlan::Call(_) => panic!("ring is set up"),
    }
    assert_eq!(FbClient::shm_mapping(&reply_with(0, vec![0x9000_0000, 3_145_728], &[]), 0x4000_0000, CapPtr(73)), Err(Error::Generic));
    let m = FbClient::shm_mapping(&reply_with(1, vec![0x9000_0000, 3_145_728], &[]), 0x4000_0000, CapPtr(73)).unwrap();
    assert_eq!(m.pages, 768);
    let shm = f.complete_shm_setup(&reply_with(1, vec![0x9000_0000, 3_145_728], &[]), 0x4000_0000, CapPtr(73));
    assert_eq!((shm.paddr, shm.size, shm.client_vaddr), (0x9000_0000, 3_145_728, 0x4000_0000));
    assert_eq!((f.get_info().paddr, f.get_info().size, f.get_info().width), (0x9000_0000, 3_145_728, 1024));
    assert!(f.shm().is_some());
    assert_eq!(f.set_scanout_request(0x9000_0000).get_mr(0), 0x9000_0000);
    let bare = FbClient::new(Endpoint(CapPtr(6)));
    assert_eq!(bare.ring_mapping(&ring_params()), Err(Error::InvalidArgs));
    let short = FbClient::new(Endpoint(CapPtr(6)));
    let mut short = short;
    short.apply_info(&reply_with(0, vec![], &bytes[..10]));
    assert_eq!(*short.info(), FbInfo { width: 0, height: 0, pitch: 0, format: 0, bpp: 0, paddr: 0, size: 0 });
    assert_eq!(f.disconnect(), Ok(()));
}

#[test]
fn acpi_and_thermal() {
    let mut a = AcpiClient::new(Endpoint(CapPtr(7)));
    assert_eq!(a.connect(), Ok(()));
    let e = a.evaluate_method_request("\\_SB.PCI0", &[1, 300]).unwrap();
    assert_eq!((e.tag.proto, e.tag.flags.bits), (ACPI_PROTO, 4));
    let mut expected = vec![9u8];
    expected.extend_from_slice(b"\\_SB.PCI0");
    expected.extend_from_slice(&[2, 1, 0xac, 0x02]);
    assert_eq!(e.buffer, expected);
    assert_eq!(e.buffer, postcard::to_allocvec(&("\\_SB.PCI0".to_string(), vec![1u64, 300])).unwrap());
    assert!(matches!(a.evaluate_method_request(&"p".repeat(IPC_BUFFER_SIZE), &[]), Err(Error::MessageTooLong)));
    let mut words = Vec::new();
    words.extend_from_slice(&7u64.to_le_bytes());
    words.extend_from_slice(&u64::MAX.to_le_bytes());
    words.extend_from_slice(&[1, 2, 3]);
    assert_eq!(AcpiClient::evaluate_method_reply(&reply_with(0, vec![], &words)), vec![7, u64::MAX]);
    assert_eq!(AcpiClient::evaluate_method_reply(&reply_with(0, vec![], &[1, 2])), Vec::<u64>::new());
    assert_eq!(a.disconnect(), Ok(()));
    let mut t = ThermalClient::new(Endpoint(CapPtr(8)));
    assert_eq!(t.connect(), Ok(()));
    let r = t.get_temperature_request(2);
    assert_eq!((r.tag.proto, r.get_mr(0)), (THERMAL_PROTO, 2));
    assert_eq!(ThermalClient::get_temperature_reply(&reply_with(0, vec![45_000], &[])), 45_000);
    assert_eq!(t.disconnect(), Ok(()));
}

#[test]
fn uart_buffer_parameters_never_change() {
    let mut res = ResourceClient::new(Endpoint(CapPtr(2)));
    let shm = ShmParams { frame: Frame(CapPtr(72)), vaddr: 0x3100_0000, paddr: 0x9000_0000, size: 8192, recv_slot: CapPtr(0) };
    let mut u = UartClient::new(Endpoint(CapPtr(5)), &mut res, ring_params(), shm);
    u.set_shm(SharedMemory::new(Frame(CapPtr(1)), 2, 3));
    u.set_ring(IoUringClient::new(1, 2, 3, 4));
    let _ = u.begin_ring_setup();
    u.complete_ring_setup();
    u.complete_shm_setup();
    assert_eq!(*u.shm_params(), shm);
}
