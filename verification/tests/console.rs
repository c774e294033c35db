use glenda::cap::{Badge, CapPtr, Console, Endpoint, Frame};
use glenda::client::terminal::{TerminalClient, VirtualTerminalClient};
use glenda::console::{ConsoleVT, FixedBuf, FmtError, KConsole};
use glenda::console::kconsole::PRINT_BUF_SIZE;
use glenda::console::vt::{CONSOLE_VT_ENTRIES, CONSOLE_VT_VADDR};
use glenda::error::Error;
use glenda::ipc::{MsgFlags, Utcb, IPC_BUFFER_SIZE};
use glenda::protocol::terminal::{TerminalUringConfig, TERM_GET_URING, TERM_PUT_STR, TERM_SET_MODE, VTS_ALLOC_VT, VTS_SWITCH_VT};
use glenda::protocol::TERMINAL_PROTO;

#[test]
fn fixed_buf_appends_text() {
    let mut b = FixedBuf::new();
    assert_eq!(b.len(), 0);
    assert_eq!(b.as_str(), "");
    assert_eq!(b.write_str("hello, "), Ok(()));
    assert_eq!(b.write_str("wörld"), Ok(()));
    assert_eq!(b.as_str(), "hello, wörld");
    assert!(!b.truncated());
}

#[test]
fn fixed_buf_cuts_at_char_boundary() {
    let mut b = FixedBuf::new();
    let fill = "a".repeat(PRINT_BUF_SIZE - 1);
    assert_eq!(b.write_str(&fill), Ok(()));
    assert_eq!(b.write_str("é"), Err(FmtError));
    assert_eq!(b.len(), PRINT_BUF_SIZE - 1);
    assert_eq!(b.as_str(), fill.as_str());
    assert!(b.truncated());
    assert_eq!(b.write_str("z!"), Err(FmtError));
    assert_eq!(b.len(), PRINT_BUF_SIZE);
    assert!(b.as_str().ends_with('z'));
}

#[test]
fn full_fixed_buf_takes_nothing() {
    let mut b = FixedBuf::new();
    assert_eq!(b.write_str(&"x".repeat(PRINT_BUF_SIZE + 10)), Err(FmtError));
    assert_eq!(b.len(), PRINT_BUF_SIZE);
    assert_eq!(b.write_str("more"), Err(FmtError));
    assert_eq!(b.len(), PRINT_BUF_SIZE);
    assert_eq!(b.write_str(""), Err(FmtError));
    let mut e = FixedBuf::new();
    assert_eq!(e.write_str(""), Ok(()));
}

#[test]
fn kernel_console_binding() {
    let mut k = KConsole::null();
    assert_eq!(k.0, Console(CapPtr(0)));
    k.initialize(Console(CapPtr(5)));
    assert_eq!(k.0, Console(CapPtr(5)));
    assert_eq!(KConsole::new(Console(CapPtr(6))).0, Console(CapPtr(6)));
}

#[test]
fn terminal_connect_and_requests() {
    let mut t = TerminalClient::new(Endpoint(CapPtr(3)));
    assert_eq!(t.endpoint(), Endpoint(CapPtr(3)));
    assert_eq!(t.get_uring_config(Badge(0), CapPtr(80)), Err(Error::InvalidCapability));
    let c = t.connect_request(Badge(0), CapPtr(80));
    assert_eq!((c.tag.proto, c.tag.label, c.recv_window), (TERMINAL_PROTO, TERM_GET_URING, Some(CapPtr(80))));
    let cfg = TerminalUringConfig { sq_entries: 16, cq_entries: 16, size: 4096 };
    t.apply_connect(cfg, CapPtr(80));
    assert_eq!(t.config(), Some(cfg));
    assert_eq!(t.frame(), Some(Frame(CapPtr(80))));
    assert_eq!(t.get_uring_config(Badge(0), CapPtr(80)), Ok((Frame(CapPtr(80)), cfg)));
    let m = t.set_mode_request(Badge(0), 3);
    assert_eq!((m.tag.label, m.get_mr(0)), (TERM_SET_MODE, 3));
    assert!(t.set_display_mode_request(Badge(0), b"80x25").is_ok());
    assert!(matches!(t.set_winsize_request(Badge(0), &vec![0u8; IPC_BUFFER_SIZE + 1]), Err(Error::MessageTooLong)));
    assert_eq!(t.ioctl_request(Badge(0), 1, 2).mrs[..2].to_vec(), vec![1, 2]);
    let p = t.put_str_request("hi").unwrap();
    assert_eq!((p.tag.label, p.tag.flags.bits, p.buffer.clone()), (TERM_PUT_STR, 4, b"hi".to_vec()));
    assert!(t.put_str_request("").is_err());
    assert_eq!(t.put_str_request(&"w".repeat(IPC_BUFFER_SIZE + 7)).unwrap().buffer.len(), IPC_BUFFER_SIZE);
}

#[test]
fn virtual_terminals() {
    let mut v = VirtualTerminalClient::new(Endpoint(CapPtr(4)));
    let c = v.create_vt_request(Badge(0), "tty1", CapPtr(81)).unwrap();
    assert_eq!((c.tag.label, c.recv_window, c.buffer.clone()), (VTS_ALLOC_VT, Some(CapPtr(81)), b"tty1".to_vec()));
    let mut r = Utcb::request(0, 0, MsgFlags::none(), vec![3]);
    r.write(&[]);
    assert_eq!(VirtualTerminalClient::create_vt_reply(&r, CapPtr(81)), (3, Endpoint(CapPtr(81))));
    let s = v.switch_vt_request(Badge(0), 0, 2);
    assert_eq!((s.tag.label, s.get_mr(0), s.get_mr(1)), (VTS_SWITCH_VT, 0, 2));
    assert_eq!(v.destroy_vt_request(Badge(0), 2).get_mr(0), 2);
    assert_eq!(v.bind_seat_request(Badge(0), 1, 2).get_mr(1), 2);
    assert_eq!(v.assign_device_to_seat(Badge(0), 0, "kbd0"), Ok(()));
    assert_eq!(v.revoke_device_from_seat(Badge(0), 0, "kbd0"), Ok(()));
    assert_eq!(v.list_vts_request(Badge(0)).tag.proto, TERMINAL_PROTO);
    assert_eq!(v.list_seats_request(Badge(0)).tag.proto, TERMINAL_PROTO);
}

#[test]
fn console_vt_needs_a_connected_terminal() {
    let t = TerminalClient::new(Endpoint(CapPtr(3)));
    assert!(matches!(ConsoleVT::new(t), Err(Error::NotInitialized)));
    let mut t = TerminalClient::new(Endpoint(CapPtr(3)));
    t.apply_connect(TerminalUringConfig { sq_entries: 8, cq_entries: 8, size: 4096 }, CapPtr(82));
    let mut c = ConsoleVT::new(t).ok().unwrap();
    assert_eq!(c.mapping(), (Frame(CapPtr(82)), CONSOLE_VT_VADDR, 1));
    assert_eq!(c.unmap_range(), (CONSOLE_VT_VADDR, 1));
    assert_eq!(c.entries(), CONSOLE_VT_ENTRIES);
    assert_eq!(c.client().endpoint(), Endpoint(CapPtr(3)));
    let mut buf = [0u8; 4];
    assert_eq!(c.read(&mut buf), Ok(0));
    assert_eq!(c.write(b"abc"), Ok(3));
    assert_eq!(c.flush(), Ok(()));
    assert_eq!(c.write_str("text"), Ok(()));
}

#[test]
fn terminal_config_and_frame_come_together() {
    let mut t = TerminalClient::new(Endpoint(CapPtr(3)));
    assert_eq!((t.config().is_some(), t.frame().is_some()), (false, false));
    t.apply_connect(TerminalUringConfig { sq_entries: 4, cq_entries: 4, size: 4096 }, CapPtr(90));
    assert_eq!((t.config().is_some(), t.frame().is_some()), (true, true));
}
