use vstd::prelude::*;
use crate::cap::{Badge, Endpoint};
use crate::error::Error;
use crate::ipc::{is_plain_request, is_request, MsgFlags, Utcb, IPC_BUFFER_SIZE};
use crate::protocol::init::{ServiceState, LIST, QUERY, RELOAD, REPORT, RESTART, START, STOP};
use crate::protocol::INIT_PROTO;
use vstd::string::StringSliceAdditionalSpecFns;

verus! {

/// Client of the init service, which starts and supervises services.
pub struct InitClient {
    endpoint: Endpoint,
}

/// A request about the service named `service`.
pub open spec fn is_service_request(r: Result<Utcb, Error>, service: &str, label: usize) -> bool {
    &&& (service.spec_bytes().len() > IPC_BUFFER_SIZE ==> r == Err::<Utcb, Error>(Error::MessageTooLong))
    &&& (service.spec_bytes().len() <= IPC_BUFFER_SIZE ==> r is Ok && is_request(r->Ok_0, INIT_PROTO, label, 0, Seq::empty(), service.spec_bytes(), None, None))
}

impl InitClient {
    /// The endpoint requests go to.
    pub closed spec fn ep(&self) -> Endpoint {
        self.endpoint
    }

    /// The endpoint requests go to.
    pub fn endpoint(&self) -> (e: Endpoint)
        ensures
            e == self.ep(),
    {
        self.endpoint
    }

    /// A client of the service at `ep`.
    pub fn new(ep: Endpoint) -> (c: InitClient)
        ensures
            c.ep() == ep,
    {
        InitClient { endpoint: ep }
    }

    /// Request to start `service`.
    pub fn start_service_request(&self, service: &str) -> (r: Result<Utcb, Error>)
        ensures
            is_service_request(r, service, START),
    {
        Utcb::request_with_str(INIT_PROTO, START, MsgFlags::none(), vec![], service)
    }

    /// Request to stop `service`.
    pub fn stop_service_request(&self, service: &str) -> (r: Result<Utcb, Error>)
        ensures
            is_service_request(r, service, STOP),
    {
        Utcb::request_with_str(INIT_PROTO, STOP, MsgFlags::none(), vec![], service)
    }

    /// Request to restart `service`.
    pub fn restart_service_request(&self, service: &str) -> (r: Result<Utcb, Error>)
        ensures
            is_service_request(r, service, RESTART),
    {
        Utcb::request_with_str(INIT_PROTO, RESTART, MsgFlags::none(), vec![], service)
    }

    /// Request to reload `service`.
    pub fn reload_service_request(&self, service: &str) -> (r: Result<Utcb, Error>)
        ensures
            is_service_request(r, service, RELOAD),
    {
        Utcb::request_with_str(INIT_PROTO, RELOAD, MsgFlags::none(), vec![], service)
    }

    /// Request for the status of `service`.
    pub fn query_service_request(&self, service: &str) -> (r: Result<Utcb, Error>)
        ensures
            is_service_request(r, service, QUERY),
    {
        Utcb::request_with_str(INIT_PROTO, QUERY, MsgFlags::none(), vec![], service)
    }

    /// Request reporting the caller's state.
    pub fn report_service_request(&self, _badge: Badge, stat: ServiceState) -> (u: Utcb)
        ensures
            is_plain_request(u, INIT_PROTO, REPORT, 0, seq![stat.0]),
    {
        Utcb::request(INIT_PROTO, REPORT, MsgFlags::none(), vec![stat.0])
    }

    /// Request for the list of services.
    pub fn list_services_request(&self) -> (u: Utcb)
        ensures
            is_plain_request(u, INIT_PROTO, LIST, 0, Seq::empty()),
    {
        Utcb::request(INIT_PROTO, LIST, MsgFlags::none(), vec![])
    }
}

} // verus!
