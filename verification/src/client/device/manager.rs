//! Client of the device manager: reports, lookups and hooks.

use vstd::prelude::*;
use crate::align::{page_count, spec_page_count};
use crate::cap::{CapPtr, Endpoint, IrqHandler, Page, RECV_SLOT};
use crate::encoding::{decode_str_list, encode_str_list, postcard_string_list, spec_str_list};
use crate::error::Error;
use crate::ipc::{is_plain_request, is_request, MsgFlags, Utcb, FLAG_HAS_BUFFER, FLAG_HAS_CAP, IPC_BUFFER_SIZE};
use crate::protocol::device::{
    ALLOC_LOGIC, GET_DESC, GET_IRQ, GET_LOGIC_DESC, GET_MMIO, HOOK, QUERY, REGISTER_LOGIC, REPORT,
    REPORT_FRAME, REPORT_STATE, SCAN_PLATFORM, UNHOOK, UPDATE,
};
use crate::protocol::init::ServiceState;
use crate::protocol::resource::{spec_level_pages, spec_page_level, CapType};
use crate::align::PGSIZE;
use crate::protocol::DEVICE_PROTO;
use vstd::string::StringSliceAdditionalSpecFns;

verus! {

/// Client of the device manager.
pub struct DeviceClient {
    endpoint: Endpoint,
}

/// How an encoded device description of some length reaches the manager.
#[derive(Debug, Clone, Copy, PartialEq, Eq, Structural)]
pub enum FrameReportPlan {
    /// Nothing to place in memory: the description goes in a plain report.
    Inline,
    /// The bytes are placed in a fresh page of `level` mapped over `pages`
    /// base pages, whose capability goes with the report.
    Frame { pages: usize, level: usize },
}

/// The plan for a description encoded in `byte_len` bytes.
pub open spec fn spec_report_plan(byte_len: int) -> Result<FrameReportPlan, Error> {
    if byte_len == 0 {
        Ok(FrameReportPlan::Inline)
    } else {
        match spec_page_level(spec_page_count(byte_len)) {
            Some(level) => Ok(FrameReportPlan::Frame { pages: spec_page_count(byte_len) as usize, level }),
            None => Err(Error::InvalidArgs),
        }
    }
}

/// A request whose buffer carries `data` and whose tag is `label` with the
/// buffer flag, or `MessageTooLong` when `data` does not fit.
pub open spec fn is_buffer_request(r: Result<Utcb, Error>, label: usize, data: Seq<u8>) -> bool {
    &&& (r is Err <==> data.len() > IPC_BUFFER_SIZE)
    &&& (r is Err ==> r == Err::<Utcb, Error>(Error::MessageTooLong))
    &&& (r is Ok ==> is_request(r->Ok_0, DEVICE_PROTO, label, FLAG_HAS_BUFFER, Seq::empty(), data, None, None))
}

impl DeviceClient {
    /// The endpoint requests go to.
    pub closed spec fn ep(&self) -> Endpoint {
        self.endpoint
    }

    /// The endpoint requests go to.
    pub fn endpoint(&self) -> (e: Endpoint)
        ensures
            e == self.ep(),
    {
        self.endpoint
    }

    /// A client of the manager at `endpoint`.
    pub fn new(endpoint: Endpoint) -> (c: DeviceClient)
        ensures
            c.ep() == endpoint,
    {
        DeviceClient { endpoint }
    }

    /// Request reporting the `byte_len` bytes of descriptions held in the
    /// page `frame`, whose capability goes with it.
    pub fn report_frame_cap_request(&self, frame: CapPtr, byte_len: usize) -> (u: Utcb)
        ensures
            is_request(u, DEVICE_PROTO, REPORT_FRAME, FLAG_HAS_CAP, seq![byte_len], Seq::empty(), Some(frame), None),
    {
        let mut u = Utcb::request(DEVICE_PROTO, REPORT_FRAME, MsgFlags::has_cap(), vec![byte_len]);
        u.set_cap_transfer(frame);
        u
    }

    /// How descriptions encoded in `byte_len` bytes are reported: inline
    /// when there are none, else through a page large enough for them,
    /// refused with `InvalidArgs` when no page is.
    pub fn report_plan(byte_len: usize) -> (r: Result<FrameReportPlan, Error>)
        ensures
            r == spec_report_plan(byte_len as int),
    {
        if byte_len == 0 {
            return Ok(FrameReportPlan::Inline);
        }
        let pages = page_count(byte_len);
        match CapType::page_pages_to_level(pages) {
            Some(level) => Ok(FrameReportPlan::Frame { pages, level }),
            None => Err(Error::InvalidArgs),
        }
    }

    /// Request to scan the platform.
    pub fn scan_platform_request(&self) -> (u: Utcb)
        ensures
            is_plain_request(u, DEVICE_PROTO, SCAN_PLATFORM, 0, Seq::empty()),
    {
        Utcb::request(DEVICE_PROTO, SCAN_PLATFORM, MsgFlags::none(), vec![])
    }

    /// Request for the MMIO region of device `id`, its page capability to
    /// be received in `recv`.
    pub fn get_mmio_request(&self, id: usize, recv: CapPtr) -> (u: Utcb)
        ensures
            is_request(u, DEVICE_PROTO, GET_MMIO, 0, seq![id], Seq::empty(), None, Some(recv)),
    {
        let mut u = Utcb::request(DEVICE_PROTO, GET_MMIO, MsgFlags::none(), vec![id]);
        u.set_recv_window(recv);
        u
    }

    /// The MMIO region granted: the page in `recv`, its address (register
    /// 0) and its size (register 1).
    pub fn get_mmio_reply(reply: &Utcb, recv: CapPtr) -> (r: (Page, usize, usize))
        ensures
            r == (Page(recv), reply.mr(0), reply.mr(1)),
    {
        (Page::from(recv), reply.get_mr(0), reply.get_mr(1))
    }

    /// Request for the interrupt of device `id`, its handler capability to
    /// be received in `recv`.
    pub fn get_irq_request(&self, id: usize, recv: CapPtr) -> (u: Utcb)
        ensures
            is_request(u, DEVICE_PROTO, GET_IRQ, 0, seq![id], Seq::empty(), None, Some(recv)),
    {
        let mut u = Utcb::request(DEVICE_PROTO, GET_IRQ, MsgFlags::none(), vec![id]);
        u.set_recv_window(recv);
        u
    }

    /// The interrupt handler received in `recv`.
    pub fn get_irq_reply(recv: CapPtr) -> (h: IrqHandler)
        ensures
            h == IrqHandler(recv),
    {
        IrqHandler::from(recv)
    }

    /// Request reporting the encoded device descriptions `desc`.
    pub fn report_request(&self, desc: &[u8]) -> (r: Result<Utcb, Error>)
        ensures
            is_buffer_request(r, REPORT, desc@),
    {
        Utcb::request_with_data(DEVICE_PROTO, REPORT, MsgFlags::has_buffer(), vec![], desc)
    }

    /// Request reporting the caller's lifecycle state.
    pub fn report_state_request(&self, status: ServiceState) -> (u: Utcb)
        ensures
            is_plain_request(u, DEVICE_PROTO, REPORT_STATE, 0, seq![status.0]),
    {
        Utcb::request(DEVICE_PROTO, REPORT_STATE, MsgFlags::none(), vec![status.0])
    }

    /// Request updating the compatible strings to `compatible`; the list
    /// travels encoded.
    pub fn update_request(&self, compatible: &[String]) -> (r: Result<Utcb, Error>)
        ensures
            is_buffer_request(r, UPDATE, spec_str_list(compatible.deep_view())),
    {
        let bytes = encode_str_list(compatible);
        Utcb::request_with_data(DEVICE_PROTO, UPDATE, MsgFlags::has_buffer(), vec![], bytes.as_slice())
    }

    /// Request registering the logical device described by the encoded
    /// `desc`; its endpoint, copied to the transfer slot beforehand, goes
    /// with the request.
    pub fn register_logic_request(&self, desc: &[u8]) -> (r: Result<Utcb, Error>)
        ensures
            r is Err <==> desc@.len() > IPC_BUFFER_SIZE,
            r is Err ==> r == Err::<Utcb, Error>(Error::MessageTooLong),
            r is Ok ==> is_request(r->Ok_0, DEVICE_PROTO, REGISTER_LOGIC, FLAG_HAS_BUFFER | FLAG_HAS_CAP, Seq::empty(), desc@,
                Some(CapPtr(RECV_SLOT)), Some(CapPtr(RECV_SLOT))),
    {
        Self::transfer_request(REGISTER_LOGIC, desc)
    }

    /// A request carrying `data` and the capability in the transfer slot,
    /// which also receives the answer's capability.
    fn transfer_request(label: usize, data: &[u8]) -> (r: Result<Utcb, Error>)
        ensures
            r is Err <==> data@.len() > IPC_BUFFER_SIZE,
            r is Err ==> r == Err::<Utcb, Error>(Error::MessageTooLong),
            r is Ok ==> is_request(r->Ok_0, DEVICE_PROTO, label, FLAG_HAS_BUFFER | FLAG_HAS_CAP, Seq::empty(), data@,
                Some(CapPtr(RECV_SLOT)), Some(CapPtr(RECV_SLOT))),
    {
        let flags = MsgFlags::has_buffer().union(MsgFlags::has_cap());
        match Utcb::request_with_data(DEVICE_PROTO, label, flags, vec![], data) {
            Ok(mut u) => {
                u.set_cap_transfer(CapPtr::from(RECV_SLOT));
                u.set_recv_window(CapPtr::from(RECV_SLOT));
                Ok(u)
            },
            Err(e) => Err(e),
        }
    }

    /// Request allocating a logical device matching the encoded request
    /// `req`, its endpoint to be received in `recv`.
    pub fn alloc_logic_request(&self, req: &[u8], recv: CapPtr) -> (r: Result<Utcb, Error>)
        ensures
            r is Err <==> req@.len() > IPC_BUFFER_SIZE,
            r is Err ==> r == Err::<Utcb, Error>(Error::MessageTooLong),
            r is Ok ==> is_request(r->Ok_0, DEVICE_PROTO, ALLOC_LOGIC, FLAG_HAS_BUFFER, Seq::empty(), req@, None, Some(recv)),
    {
        match Utcb::request_with_data(DEVICE_PROTO, ALLOC_LOGIC, MsgFlags::has_buffer(), vec![], req) {
            Ok(mut u) => {
                u.set_recv_window(recv);
                Ok(u)
            },
            Err(e) => Err(e),
        }
    }

    /// The endpoint of the logical device received in `recv`.
    pub fn alloc_logic_reply(recv: CapPtr) -> (e: Endpoint)
        ensures
            e == Endpoint(recv),
    {
        Endpoint::from(recv)
    }

    /// Request listing the devices that match the encoded query.
    pub fn query_request(&self, query: &[u8]) -> (r: Result<Utcb, Error>)
        ensures
            is_buffer_request(r, QUERY, query@),
    {
        Utcb::request_with_data(DEVICE_PROTO, QUERY, MsgFlags::has_buffer(), vec![], query)
    }

    /// The names a query reply lists, decoded from its buffer;
    /// `InvalidType` when the buffer holds no encoded list of strings.
    pub fn query_reply(reply: &Utcb) -> (r: Result<Vec<String>, Error>)
        ensures
            match postcard_string_list(reply.buffer@) {
                Some(l) => r is Ok && r->Ok_0.deep_view() == l,
                None => r == Err::<Vec<String>, Error>(Error::InvalidType),
            },
    {
        decode_str_list(reply.buffer.as_slice())
    }

    /// Request for the description of the device `name`.
    pub fn get_desc_request(&self, name: &str) -> (r: Result<Utcb, Error>)
        ensures
            is_buffer_request(r, GET_DESC, name.spec_bytes()),
    {
        Utcb::request_with_str(DEVICE_PROTO, GET_DESC, MsgFlags::has_buffer(), vec![], name)
    }

    /// Request for the description of the logical device `name`.
    pub fn get_logic_desc_request(&self, name: &str) -> (r: Result<Utcb, Error>)
        ensures
            is_buffer_request(r, GET_LOGIC_DESC, name.spec_bytes()),
    {
        Utcb::request_with_str(DEVICE_PROTO, GET_LOGIC_DESC, MsgFlags::has_buffer(), vec![], name)
    }

    /// The identifier of the logical device: register 0 of the reply.
    pub fn get_logic_desc_id(reply: &Utcb) -> (id: usize)
        ensures
            id == reply.mr(0),
    {
        reply.get_mr(0)
    }

    /// Request hooking the encoded target; the hook's endpoint, copied to
    /// the transfer slot beforehand, goes with the request.
    pub fn hook_request(&self, target: &[u8]) -> (r: Result<Utcb, Error>)
        ensures
            r is Err <==> target@.len() > IPC_BUFFER_SIZE,
            r is Err ==> r == Err::<Utcb, Error>(Error::MessageTooLong),
            r is Ok ==> is_request(r->Ok_0, DEVICE_PROTO, HOOK, FLAG_HAS_BUFFER | FLAG_HAS_CAP, Seq::empty(), target@,
                Some(CapPtr(RECV_SLOT)), Some(CapPtr(RECV_SLOT))),
    {
        Self::transfer_request(HOOK, target)
    }

    /// Request removing the hook on the encoded target.
    pub fn unhook_request(&self, target: &[u8]) -> (r: Result<Utcb, Error>)
        ensures
            is_buffer_request(r, UNHOOK, target@),
    {
        Utcb::request_with_data(DEVICE_PROTO, UNHOOK, MsgFlags::has_buffer(), vec![], target)
    }
}

/// A description reported through a page fits it: the mapping spans every
/// byte of the description, and the page allocated spans the mapping.
pub proof fn lemma_report_plan_fits(byte_len: int)
    requires
        byte_len > 0,
        spec_report_plan(byte_len) is Ok,
    ensures
        spec_report_plan(byte_len) matches Ok(FrameReportPlan::Frame { pages, level })
            && pages as int * (PGSIZE as int) >= byte_len
            && spec_level_pages(level as int) >= pages,
{
    let p = PGSIZE as int;
    assert(byte_len == p * (byte_len / p) + byte_len % p) by (nonlinear_arith)
        requires p > 0;
    assert(spec_page_count(byte_len) * p >= byte_len) by (nonlinear_arith)
        requires
            byte_len == p * (byte_len / p) + byte_len % p,
            0 <= byte_len % p < p,
            spec_page_count(byte_len) == (if byte_len % p == 0 { byte_len / p } else { byte_len / p + 1 });
}

} // verus!
