use glenda::cap::{CapPtr, Endpoint, IrqHandler, Page, RECV_SLOT};
use glenda::client::device::block::{BlockChunk, BlockClient, BlockTransfer};
use glenda::client::device::fb::FbClient as DeviceFbClient;
use glenda::client::device::input::InputClient as DeviceInputClient;
use glenda::client::device::manager::{DeviceClient as ManagerClient, FrameReportPlan};
use glenda::client::device::net::NetClient;
use glenda::client::device::pci::PciClient;
use glenda::client::device::uart::UartClient as DeviceUartClient;
use glenda::client::device::DeviceClient;
use glenda::drivers::protocol::fb::FbInfo;
use glenda::error::Error;
use glenda::ipc::{MsgFlags, Utcb, IPC_BUFFER_SIZE};
use glenda::protocol::block::{READ_BLOCKS, WRITE_BLOCKS};
use glenda::protocol::device::{ALLOC_DMA, ALLOC_LOGIC, FIND_COMPATIBLE, GET_IRQ, GET_MMIO, HOOK, REGISTER_LOGIC, REPORT, REPORT_FRAME, UNHOOK};
use glenda::protocol::init::ServiceState;
use glenda::protocol::input::InputEvent;
use glenda::protocol::pci::{PciAddress, ENABLE_MSI, WRITE_CONFIG};
use glenda::protocol::{BLOCK_PROTO, DEVICE_PROTO, DEV_FB_PROTO, DEV_UART_PROTO, NET_PROTO, PCI_PROTO};

fn reply_with(regs: Vec<usize>, data: &[u8]) -> Utcb {
    let mut u = Utcb::request(0, 0, MsgFlags::none(), regs);
    u.write(data);
    u
}

#[test]
fn block_queries() {
    let b = BlockClient::new(Endpoint(CapPtr(3)));
    assert_eq!(b.capacity_request().tag.proto, BLOCK_PROTO);
    assert_eq!(BlockClient::capacity_reply(Ok(()), &reply_with(vec![1 << 20], &[])), 1 << 20);
    assert_eq!(BlockClient::capacity_reply(Err(Error::Timeout), &reply_with(vec![1 << 20], &[])), 0);
    assert_eq!(BlockClient::block_size_reply(Ok(()), &reply_with(vec![4096], &[])), 4096);
    assert_eq!(BlockClient::block_size_reply(Err(Error::IoError), &reply_with(vec![4096], &[])), 512);
    let chunk = BlockChunk { sector: 10, offset: 0, len: 1024, num_blocks: 2 };
    let r = b.read_chunk_request(&chunk);
    assert_eq!((r.tag.label, r.get_mr(0), r.get_mr(1)), (READ_BLOCKS, 10, 2));
    let w = b.write_chunk_request(&chunk, b"blk");
    assert_eq!((w.tag.label, w.buffer.clone()), (WRITE_BLOCKS, b"blk".to_vec()));
    let mut part = [0u8; 5];
    assert_eq!(BlockClient::read_chunk_reply(&reply_with(vec![], b"abc"), &mut part), 3);
    assert_eq!(&part, b"abc\0\0");
}

#[test]
fn block_transfer_splits_into_requests() {
    let mut t = BlockTransfer::new(100, 5000, 512).unwrap();
    let mut chunks = Vec::new();
    while let Some(c) = t.next_chunk() {
        chunks.push(c);
        t.complete_chunk(c.len);
    }
    assert_eq!(
        chunks,
        vec![
            BlockChunk { sector: 100, offset: 0, len: 2048, num_blocks: 4 },
            BlockChunk { sector: 104, offset: 2048, len: 2048, num_blocks: 4 },
            BlockChunk { sector: 108, offset: 4096, len: 904, num_blocks: 1 },
        ]
    );
    assert_eq!(t.total(), 5000);
}

#[test]
fn block_transfer_stops_on_short_read() {
    let mut t = BlockTransfer::new(0, 4096, 512).unwrap();
    let first = t.next_chunk().unwrap();
    t.complete_chunk(100);
    assert_eq!(first.len, 2048);
    assert_eq!(t.next_chunk(), None);
    assert_eq!(t.total(), 100);
}

#[test]
fn block_transfer_edge_cases() {
    assert!(matches!(BlockTransfer::new(0, 100, 0), Err(Error::InvalidArgs)));
    assert!(matches!(BlockTransfer::new(0, 100, (IPC_BUFFER_SIZE + 1) as u32), Err(Error::InvalidArgs)));
    let small = BlockTransfer::new(0, 100, 512).unwrap();
    assert_eq!(small.next_chunk(), None);
    assert_eq!(small.total(), 0);
    let empty = BlockTransfer::new(0, 0, 512).unwrap();
    assert_eq!(empty.next_chunk(), None);
}

#[test]
fn service_device_client() {
    let mut d = DeviceClient::new(Endpoint(CapPtr(4)));
    let s = d.scan_platform_request(b"info").unwrap();
    assert_eq!((s.tag.proto, s.buffer.clone()), (DEVICE_PROTO, b"info".to_vec()));
    assert!(matches!(d.scan_platform_request(&vec![0u8; IPC_BUFFER_SIZE + 1]), Err(Error::MessageTooLong)));
    let f = d.find_compatible_request("virtio,mmio").unwrap();
    assert_eq!((f.tag.label, f.buffer.clone()), (FIND_COMPATIBLE, b"virtio,mmio".to_vec()));
    let a = d.alloc_dma_request(8192);
    assert_eq!((a.tag.label, a.get_mr(0)), (ALLOC_DMA, 8192));
    assert_eq!(DeviceClient::alloc_dma_reply(&reply_with(vec![0x8000_0000], &[])), 0x8000_0000);
    d.free_dma(0x8000_0000, 8192);
}

#[test]
fn report_plans() {
    assert_eq!(ManagerClient::report_plan(0), Ok(FrameReportPlan::Inline));
    assert_eq!(ManagerClient::report_plan(1), Ok(FrameReportPlan::Frame { pages: 1, level: 0 }));
    assert_eq!(ManagerClient::report_plan(4097), Ok(FrameReportPlan::Frame { pages: 2, level: 1 }));
    assert_eq!(ManagerClient::report_plan(512 * 4096), Ok(FrameReportPlan::Frame { pages: 512, level: 1 }));
    assert_eq!(ManagerClient::report_plan(512 * 4096 + 1), Ok(FrameReportPlan::Frame { pages: 513, level: 2 }));
    assert_eq!(ManagerClient::report_plan(512 * 512 * 4096 + 1), Err(Error::InvalidArgs));
}

#[test]
fn manager_requests() {
    let m = ManagerClient::new(Endpoint(CapPtr(5)));
    let f = m.report_frame_cap_request(CapPtr(60), 300);
    assert_eq!((f.tag.label, f.tag.flags.bits, f.get_mr(0), f.cap_transfer), (REPORT_FRAME, 2, 300, Some(CapPtr(60))));
    let mm = m.get_mmio_request(3, CapPtr(61));
    assert_eq!((mm.tag.label, mm.get_mr(0), mm.recv_window), (GET_MMIO, 3, Some(CapPtr(61))));
    assert_eq!(ManagerClient::get_mmio_reply(&reply_with(vec![0x1000_0000, 0x1000], &[]), CapPtr(61)), (Page(CapPtr(61)), 0x1000_0000, 0x1000));
    let irq = m.get_irq_request(4, CapPtr(62));
    assert_eq!((irq.tag.label, irq.get_mr(0)), (GET_IRQ, 4));
    assert_eq!(ManagerClient::get_irq_reply(CapPtr(62)), IrqHandler(CapPtr(62)));
    let r = m.report_request(b"desc").unwrap();
    assert_eq!((r.tag.label, r.tag.flags.bits, r.buffer.clone()), (REPORT, 4, b"desc".to_vec()));
    let long = vec!["c".repeat(IPC_BUFFER_SIZE)];
    assert!(matches!(m.update_request(&long), Err(Error::MessageTooLong)));
    let list = vec!["ns16550a".to_string(), "virtio,mmio".to_string()];
    let up = m.update_request(&list).unwrap();
    assert_eq!(up.buffer, postcard::to_allocvec(&list).unwrap());
    let mut expected = vec![2u8, 8];
    expected.extend_from_slice(b"ns16550a");
    expected.push(11);
    expected.extend_from_slice(b"virtio,mmio");
    assert_eq!(up.buffer, expected);
    let names = postcard::to_allocvec(&vec!["blk0".to_string(), "net0".to_string()]).unwrap();
    let mut q = Utcb::request(0, 0, MsgFlags::none(), vec![]);
    q.write(&names);
    assert_eq!(ManagerClient::query_reply(&q), Ok(vec!["blk0".to_string(), "net0".to_string()]));
    q.write(&[5, 1]);
    assert_eq!(ManagerClient::query_reply(&q), Err(Error::InvalidType));
    assert_eq!(m.report_state_request(ServiceState(2)).get_mr(0), 2);
    let reg = m.register_logic_request(b"logic").unwrap();
    assert_eq!((reg.tag.label, reg.tag.flags.bits), (REGISTER_LOGIC, 6));
    assert_eq!((reg.cap_transfer, reg.recv_window), (Some(CapPtr(RECV_SLOT)), Some(CapPtr(RECV_SLOT))));
    let al = m.alloc_logic_request(b"req", CapPtr(63)).unwrap();
    assert_eq!((al.tag.label, al.recv_window, al.cap_transfer), (ALLOC_LOGIC, Some(CapPtr(63)), None));
    assert_eq!(ManagerClient::alloc_logic_reply(CapPtr(63)), Endpoint(CapPtr(63)));
    assert!(m.query_request(b"q").is_ok());
    assert_eq!(m.get_desc_request("uart0").unwrap().buffer, b"uart0".to_vec());
    assert!(matches!(m.get_logic_desc_request(&"n".repeat(IPC_BUFFER_SIZE + 1)), Err(Error::MessageTooLong)));
    assert_eq!(ManagerClient::get_logic_desc_id(&reply_with(vec![12], &[])), 12);
    let h = m.hook_request(b"tgt").unwrap();
    assert_eq!((h.tag.label, h.tag.flags.bits, h.cap_transfer), (HOOK, 6, Some(CapPtr(RECV_SLOT))));
    let u = m.unhook_request(b"tgt").unwrap();
    assert_eq!((u.tag.label, u.tag.flags.bits, u.cap_transfer), (UNHOOK, 4, None));
    assert_eq!(m.scan_platform_request().tag.proto, DEVICE_PROTO);
}

#[test]
fn device_framebuffer() {
    let f = DeviceFbClient::new(Endpoint(CapPtr(6)));
    assert_eq!(f.get_info_request().tag.proto, DEV_FB_PROTO);
    let mut bytes = Vec::new();
    for v in [800u64, 600, 3200, 2, 32, 0x8000_0000, 1_920_000] {
        bytes.extend_from_slice(&v.to_le_bytes());
    }
    let info = DeviceFbClient::get_info_reply(Ok(()), &reply_with(vec![], &bytes));
    assert_eq!(info, FbInfo { width: 800, height: 600, pitch: 3200, format: 2, bpp: 32, paddr: 0x8000_0000, size: 1_920_000 });
    let zero = FbInfo { width: 0, height: 0, pitch: 0, format: 0, bpp: 0, paddr: 0, size: 0 };
    assert_eq!(DeviceFbClient::get_info_reply(Err(Error::Timeout), &reply_with(vec![], &bytes)), zero);
    assert_eq!(DeviceFbClient::get_info_reply(Ok(()), &reply_with(vec![], &bytes[..55])), zero);
    let fl = f.flush_request(1, 2, 3, 4);
    assert_eq!(fl.mrs[..4].to_vec(), vec![1, 2, 3, 4]);
}

#[test]
fn device_input() {
    let i = DeviceInputClient::new(Endpoint(CapPtr(7)));
    assert_eq!(i.poll_event_request().tag.label, 1);
    let ev = DeviceInputClient::poll_event_reply(Ok(()), &reply_with(vec![], &[1, 0, 30, 0, 0xff, 0xff, 0xff, 0xff]));
    assert_eq!(ev, Some(InputEvent { kind: 1, code: 30, value: -1 }));
    assert_eq!(DeviceInputClient::poll_event_reply(Ok(()), &reply_with(vec![], &[1, 0, 30])), None);
    assert_eq!(DeviceInputClient::poll_event_reply(Err(Error::WouldBlock), &reply_with(vec![], &[0; 8])), None);
}

#[test]
fn device_net() {
    let n = NetClient::new(Endpoint(CapPtr(8)));
    assert_eq!(n.mac_address_request().tag.proto, NET_PROTO);
    let mac = NetClient::mac_address_reply(Ok(()), &reply_with(vec![], &[2, 0, 0, 0xaa, 0xbb, 0xcc, 9]));
    assert_eq!(mac.0, [2, 0, 0, 0xaa, 0xbb, 0xcc]);
    assert_eq!(NetClient::mac_address_reply(Ok(()), &reply_with(vec![], &[1, 2])).0, [0; 6]);
    assert_eq!(NetClient::mac_address_reply(Err(Error::IoError), &reply_with(vec![], &[1; 6])).0, [0; 6]);
    let s = n.send_request(&vec![3u8; IPC_BUFFER_SIZE + 4]);
    assert_eq!(s.buffer.len(), IPC_BUFFER_SIZE);
    let mut buf = [0u8; 4];
    assert_eq!(NetClient::recv_reply(&reply_with(vec![], b"frame"), &mut buf), 4);
    assert_eq!(&buf, b"fram");
}

#[test]
fn device_pci() {
    let addr = PciAddress { bus: 0, device: 3, function: 1 };
    let p = PciClient::new(Endpoint(CapPtr(9)), addr);
    assert_eq!(p.get_address(), addr);
    let r = p.read_config_request(0x10, 4);
    assert_eq!((r.tag.proto, r.get_mr(0), r.get_mr(1)), (PCI_PROTO, 0x10, 4));
    assert_eq!(PciClient::read_config_reply(&reply_with(vec![0x1_2345_6789], &[])), 0x2345_6789);
    let w = p.write_config_request(0x04, 0x6, 2);
    assert_eq!((w.tag.label, w.mrs[..3].to_vec()), (WRITE_CONFIG, vec![4, 6, 2]));
    let m = p.enable_msi_request(33, 7);
    assert_eq!((m.tag.label, m.get_mr(0), m.get_mr(1)), (ENABLE_MSI, 33, 7));
    assert_eq!(p.enable_bus_master_request().tag.proto, PCI_PROTO);
}

#[test]
fn device_uart() {
    let mut u = DeviceUartClient::new(Endpoint(CapPtr(10)));
    u.put_char(b'x');
    assert_eq!(u.get_char_request().tag.proto, DEV_UART_PROTO);
    assert_eq!(DeviceUartClient::get_char_reply(Ok(()), &reply_with(vec![0x141], &[])), Some(0x41));
    assert_eq!(DeviceUartClient::get_char_reply(Err(Error::Timeout), &reply_with(vec![0x41], &[])), None);
    let text = "z".repeat(IPC_BUFFER_SIZE + 1);
    let reqs = u.put_str_requests(&text);
    assert_eq!(reqs.len(), 2);
    assert_eq!(reqs[1].buffer, b"z".to_vec());
    assert_eq!(u.put_str_requests("").len(), 0);
}
