use vstd::prelude::*;
use crate::cap::{Badge, CapPtr, Endpoint, Frame};
use crate::console::FmtError;
use crate::error::Error;
use crate::ipc::{is_plain_request, is_request, MsgFlags, Utcb, FLAG_HAS_BUFFER, IPC_BUFFER_SIZE};
use crate::protocol::terminal::{
    TerminalUringConfig, TERM_GET_URING, TERM_GET_WINSIZE, TERM_IOCTL, TERM_PUT_STR,
    TERM_SET_DISPLAY, TERM_SET_MODE, TERM_SET_WINSIZE, VTS_ALLOC_VT, VTS_BIND_SEAT, VTS_FREE_VT,
    VTS_LIST_SEATS, VTS_LIST_VTS, VTS_SWITCH_VT,
};
use crate::protocol::TERMINAL_PROTO;
use vstd::string::StringSliceAdditionalSpecFns;

verus! {

/// A connection to one virtual terminal.
#[derive(Clone, Copy, Debug)]
pub struct TerminalClient {
    endpoint: Endpoint,
    config: Option<TerminalUringConfig>,
    frame: Option<Frame>,
}

/// A request carrying `data` (encoded) under `label`.
pub open spec fn is_data_request(r: Result<Utcb, Error>, data: Seq<u8>, label: usize) -> bool {
    &&& (data.len() > IPC_BUFFER_SIZE ==> r == Err::<Utcb, Error>(Error::MessageTooLong))
    &&& (data.len() <= IPC_BUFFER_SIZE ==> r is Ok && is_request(r->Ok_0, TERMINAL_PROTO, label, FLAG_HAS_BUFFER, Seq::empty(), data, None, None))
}

impl TerminalClient {
    pub closed spec fn ep(&self) -> Endpoint { self.endpoint }
    pub closed spec fn config_state(&self) -> Option<TerminalUringConfig> { self.config }
    pub closed spec fn frame_state(&self) -> Option<Frame> { self.frame }

    /// A terminal is connected as a whole: it has a ring configuration
    /// exactly when it has a shared frame.
    #[verifier::type_invariant]
    spec fn config_with_frame(self) -> bool {
        self.config is Some <==> self.frame is Some
    }

    /// A client of the terminal at `endpoint`, not connected yet.
    pub fn new(endpoint: Endpoint) -> (c: TerminalClient)
        ensures
            c.ep() == endpoint,
            c.config_state() is None,
            c.frame_state() is None,
    {
        TerminalClient { endpoint, config: None, frame: None }
    }

    /// The terminal's endpoint.
    pub fn endpoint(&self) -> (e: Endpoint)
        ensures
            e == self.ep(),
    {
        self.endpoint
    }

    /// Request for the ring configuration, the shared frame to be received
    /// in `recv_frame`.
    pub fn connect_request(&self, _badge: Badge, recv_frame: CapPtr) -> (u: Utcb)
        ensures
            is_request(u, TERMINAL_PROTO, TERM_GET_URING, 0, Seq::empty(), Seq::empty(), None, Some(recv_frame)),
    {
        let mut u = Utcb::request(TERMINAL_PROTO, TERM_GET_URING, MsgFlags::none(), vec![]);
        u.set_recv_window(recv_frame);
        u
    }

    /// Records the configuration received and the frame in `recv_frame`.
    pub fn apply_connect(&mut self, config: TerminalUringConfig, recv_frame: CapPtr)
        ensures
            final(self).config_state() == Some(config),
            final(self).frame_state() == Some(Frame(recv_frame)),
            final(self).ep() == old(self).ep(),
    {
        *self = TerminalClient { endpoint: self.endpoint, config: Some(config), frame: Some(Frame::from(recv_frame)) };
    }

    /// The ring configuration, once connected.
    pub fn config(&self) -> (c: Option<TerminalUringConfig>)
        ensures
            c == self.config_state(),
            c is Some <==> self.frame_state() is Some,
    {
        proof {
            use_type_invariant(self);
        }
        self.config
    }

    /// The shared frame, once connected.
    pub fn frame(&self) -> (f: Option<Frame>)
        ensures
            f == self.frame_state(),
            f is Some <==> self.config_state() is Some,
    {
        proof {
            use_type_invariant(self);
        }
        self.frame
    }

    /// The shared frame and the ring configuration, or
    /// `InvalidCapability` when not connected.
    pub fn get_uring_config(&mut self, _badge: Badge, _recv_frame: CapPtr) -> (r: Result<(Frame, TerminalUringConfig), Error>)
        ensures
            *final(self) == *old(self),
            (old(self).frame_state() is Some && old(self).config_state() is Some) ==> r == Ok::<(Frame, TerminalUringConfig), Error>((old(self).frame_state()->0, old(self).config_state()->0)),
            !(old(self).frame_state() is Some && old(self).config_state() is Some) ==> r == Err::<(Frame, TerminalUringConfig), Error>(Error::InvalidCapability),
    {
        match (self.frame, self.config) {
            (Some(frame), Some(config)) => Ok((frame, config)),
            _ => Err(Error::InvalidCapability),
        }
    }

    /// Request to set the terminal mode.
    pub fn set_mode_request(&self, _badge: Badge, mode: u32) -> (u: Utcb)
        ensures
            is_plain_request(u, TERMINAL_PROTO, TERM_SET_MODE, 0, seq![mode as usize]),
    {
        Utcb::request(TERMINAL_PROTO, TERM_SET_MODE, MsgFlags::none(), vec![mode as usize])
    }

    /// Request to set the display mode (`mode`, encoded).
    pub fn set_display_mode_request(&self, _badge: Badge, mode: &[u8]) -> (r: Result<Utcb, Error>)
        ensures
            is_data_request(r, mode@, TERM_SET_DISPLAY),
    {
        Utcb::request_with_data(TERMINAL_PROTO, TERM_SET_DISPLAY, MsgFlags::has_buffer(), vec![], mode)
    }

    /// Request for the window size.
    pub fn get_winsize_request(&self, _badge: Badge) -> (u: Utcb)
        ensures
            is_plain_request(u, TERMINAL_PROTO, TERM_GET_WINSIZE, 0, Seq::empty()),
    {
        Utcb::request(TERMINAL_PROTO, TERM_GET_WINSIZE, MsgFlags::none(), vec![])
    }

    /// Request to set the window size (`size`, encoded).
    pub fn set_winsize_request(&self, _badge: Badge, size: &[u8]) -> (r: Result<Utcb, Error>)
        ensures
            is_data_request(r, size@, TERM_SET_WINSIZE),
    {
        Utcb::request_with_data(TERMINAL_PROTO, TERM_SET_WINSIZE, MsgFlags::has_buffer(), vec![], size)
    }

    /// Request for the terminal control `request` with argument `arg`.
    pub fn ioctl_request(&self, _badge: Badge, request: usize, arg: usize) -> (u: Utcb)
        ensures
            is_plain_request(u, TERMINAL_PROTO, TERM_IOCTL, 0, seq![request, arg]),
    {
        Utcb::request(TERMINAL_PROTO, TERM_IOCTL, MsgFlags::none(), vec![request, arg])
    }

    /// Request writing `s` (as much as fits); refused when nothing would
    /// be written, that is for an empty string.
    pub fn put_str_request(&self, s: &str) -> (r: Result<Utcb, FmtError>)
        ensures
            s.spec_bytes().len() == 0 ==> r is Err,
            s.spec_bytes().len() > 0 ==> r is Ok && is_request(r->Ok_0, TERMINAL_PROTO, TERM_PUT_STR, FLAG_HAS_BUFFER, Seq::empty(),
                s.spec_bytes().subrange(0, if s.spec_bytes().len() < IPC_BUFFER_SIZE { s.spec_bytes().len() as int } else { IPC_BUFFER_SIZE as int }), None, None),
    {
        let mut u = Utcb::request(TERMINAL_PROTO, TERM_PUT_STR, MsgFlags::has_buffer(), vec![]);
        if u.write(s.as_bytes()) == 0 {
            return Err(FmtError);
        }
        Ok(u)
    }
}

/// Client of the virtual terminal service, which creates terminals and
/// binds them to seats.
pub struct VirtualTerminalClient {
    endpoint: Endpoint,
}

impl VirtualTerminalClient {
    /// The endpoint requests go to.
    pub closed spec fn ep(&self) -> Endpoint {
        self.endpoint
    }

    /// The endpoint requests go to.
    pub fn endpoint(&self) -> (e: Endpoint)
        ensures
            e == self.ep(),
    {
        self.endpoint
    }

    /// A client of the service at `endpoint`.
    pub fn new(endpoint: Endpoint) -> (c: VirtualTerminalClient)
        ensures
            c.ep() == endpoint,
    {
        VirtualTerminalClient { endpoint }
    }

    /// Request to create the terminal `name`, its endpoint to be received
    /// in `recv`.
    pub fn create_vt_request(&self, _badge: Badge, name: &str, recv: CapPtr) -> (r: Result<Utcb, Error>)
        ensures
            name.spec_bytes().len() > IPC_BUFFER_SIZE ==> r == Err::<Utcb, Error>(Error::MessageTooLong),
            name.spec_bytes().len() <= IPC_BUFFER_SIZE ==> r is Ok && is_request(r->Ok_0, TERMINAL_PROTO, VTS_ALLOC_VT, FLAG_HAS_BUFFER, Seq::empty(), name.spec_bytes(), None, Some(recv)),
    {
        match Utcb::request_with_str(TERMINAL_PROTO, VTS_ALLOC_VT, MsgFlags::has_buffer(), vec![], name) {
            Ok(mut u) => {
                u.set_recv_window(recv);
                Ok(u)
            },
            Err(e) => Err(e),
        }
    }

    /// The new terminal's id (register 0) and endpoint.
    pub fn create_vt_reply(reply: &Utcb, recv: CapPtr) -> (r: (usize, Endpoint))
        ensures
            r == (reply.mr(0), Endpoint(recv)),
    {
        (reply.get_mr(0), Endpoint::from(recv))
    }

    /// Request to destroy terminal `vt_id`.
    pub fn destroy_vt_request(&self, _badge: Badge, vt_id: usize) -> (u: Utcb)
        ensures
            is_plain_request(u, TERMINAL_PROTO, VTS_FREE_VT, 0, seq![vt_id]),
    {
        Utcb::request(TERMINAL_PROTO, VTS_FREE_VT, MsgFlags::none(), vec![vt_id])
    }

    /// Request for the list of terminals.
    pub fn list_vts_request(&self, _badge: Badge) -> (u: Utcb)
        ensures
            is_plain_request(u, TERMINAL_PROTO, VTS_LIST_VTS, 0, Seq::empty()),
    {
        Utcb::request(TERMINAL_PROTO, VTS_LIST_VTS, MsgFlags::none(), vec![])
    }

    /// Request for the list of seats.
    pub fn list_seats_request(&self, _badge: Badge) -> (u: Utcb)
        ensures
            is_plain_request(u, TERMINAL_PROTO, VTS_LIST_SEATS, 0, Seq::empty()),
    {
        Utcb::request(TERMINAL_PROTO, VTS_LIST_SEATS, MsgFlags::none(), vec![])
    }

    /// Request to show terminal `vt_id` on seat `seat_id`.
    pub fn switch_vt_request(&self, _badge: Badge, seat_id: usize, vt_id: usize) -> (u: Utcb)
        ensures
            is_plain_request(u, TERMINAL_PROTO, VTS_SWITCH_VT, 0, seq![seat_id, vt_id]),
    {
        Utcb::request(TERMINAL_PROTO, VTS_SWITCH_VT, MsgFlags::none(), vec![seat_id, vt_id])
    }

    /// Request to bind seat `seat_id` to terminal `vt_id`.
    pub fn bind_seat_request(&self, _badge: Badge, seat_id: usize, vt_id: usize) -> (u: Utcb)
        ensures
            is_plain_request(u, TERMINAL_PROTO, VTS_BIND_SEAT, 0, seq![seat_id, vt_id]),
    {
        Utcb::request(TERMINAL_PROTO, VTS_BIND_SEAT, MsgFlags::none(), vec![seat_id, vt_id])
    }

    /// Assigning a device to a seat is accepted and has no effect.
    pub fn assign_device_to_seat(&mut self, _badge: Badge, _seat_id: usize, _device_name: &str) -> (r: Result<(), Error>)
        ensures
            r is Ok,
            *final(self) == *old(self),
    {
        Ok(())
    }

    /// Revoking a device from a seat is accepted and has no effect.
    pub fn revoke_device_from_seat(&mut self, _badge: Badge, _seat_id: usize, _device_name: &str) -> (r: Result<(), Error>)
        ensures
            r is Ok,
            *final(self) == *old(self),
    {
        Ok(())
    }
}

} // verus!
