//! The decisions of the HTTP control plane: check the shared secret, delegate
//! to the lifecycle operations, and shape the reply.
//!
//! The secret compared against is the one the server was started with; the
//! configuration handed to each request is the one read fresh for it.
use vstd::prelude::*;
use crate::launch::LaunchPlan;
use crate::lifecycle::{KillPlan, launches};
use crate::model::{Service, ServerConfiguration, ServicesConfiguration, SupervisorError};

verus! {

/// Reply code of a request that was carried out.
pub const STATUS_OK: u16 = 200;

/// Reply code of a request that the supervisor refused.
pub const STATUS_BAD_REQUEST: u16 = 400;

/// Reply code of a request with the wrong secret.
pub const STATUS_UNAUTHORIZED: u16 = 401;

/// Reply code of a route that does not exist.
pub const STATUS_NOT_FOUND: u16 = 404;

/// A control-plane reply: whether the request succeeded, and its payload.
#[derive(Clone, Debug, PartialEq, Eq)]
pub struct APIReturn<T> {
    pub ok: bool,
    pub data: T,
}

/// The body of a request on one service.
#[derive(Clone, Debug, PartialEq, Eq)]
pub struct BasicServiceRequestBody {
    /// The service to act on.
    pub service: String,
    /// The shared secret.
    pub key: String,
}

/// The reply to a route that does not exist.
pub fn not_found() -> (r: APIReturn<u16>)
    ensures
        !r.ok,
        r.data == STATUS_NOT_FOUND,
{
    APIReturn { ok: false, data: STATUS_NOT_FOUND }
}

/// Whether the request carries the server's secret.
pub fn key_accepted(body: &BasicServiceRequestBody, server: &ServerConfiguration) -> (r: bool)
    ensures
        r == (body.key@ == server.key@),
{
    body.key == server.key
}

/// The code of a finished operation: 200 on success, 401 for a wrong secret,
/// 400 for any other refusal.
pub open spec fn status_of(r: Result<(), SupervisorError>) -> u16 {
    match r {
        Ok(_) => STATUS_OK,
        Err(SupervisorError::Unauthorized) => STATUS_UNAUTHORIZED,
        Err(_) => STATUS_BAD_REQUEST,
    }
}

/// The reply for the outcome of an operation.
pub fn reply_for(r: &Result<(), SupervisorError>) -> (reply: APIReturn<u16>)
    ensures
        reply.ok == r is Ok,
        reply.data == status_of(*r),
{
    match r {
        Ok(_) => APIReturn { ok: true, data: STATUS_OK },
        Err(SupervisorError::Unauthorized) => APIReturn { ok: false, data: STATUS_UNAUTHORIZED },
        Err(_) => APIReturn { ok: false, data: STATUS_BAD_REQUEST },
    }
}

/// `POST /start`: with the right secret, check the start and work out the
/// launch; otherwise the refusal to send back.
pub fn observe_request(
    server: &ServerConfiguration,
    body: &BasicServiceRequestBody,
    cnf: &ServicesConfiguration,
) -> (r: Result<LaunchPlan, APIReturn<u16>>)
    requires
        cnf.wf(),
    ensures
        body.key@ != server.key@ ==> r == Err::<LaunchPlan, APIReturn<u16>>(
            (APIReturn { ok: false, data: STATUS_UNAUTHORIZED }),
        ),
        body.key@ == server.key@ ==> match r {
            Ok(plan) => cnf@.start_check(body.service@) is Ok && launches(
                plan,
                cnf@.services[body.service@],
            ),
            Err(reply) => cnf@.start_check(body.service@) is Err && reply == (APIReturn {
                ok: false,
                data: STATUS_BAD_REQUEST,
            }),
        },
{
    if !key_accepted(body, server) {
        return Err(APIReturn { ok: false, data: STATUS_UNAUTHORIZED });
    }
    match Service::run(&body.service, cnf) {
        Ok(plan) => Ok(plan),
        Err(_) => Err(APIReturn { ok: false, data: STATUS_BAD_REQUEST }),
    }
}

/// `POST /kill`: with the right secret, the first phase of the stop;
/// otherwise the refusal to send back, with the configuration unchanged.
pub fn kill_request(
    server: &ServerConfiguration,
    body: &BasicServiceRequestBody,
    cnf: &mut ServicesConfiguration,
) -> (r: Result<KillPlan, APIReturn<u16>>)
    requires
        old(cnf).wf(),
    ensures
        final(cnf).wf(),
        body.key@ != server.key@ ==> r == Err::<KillPlan, APIReturn<u16>>(
            (APIReturn { ok: false, data: STATUS_UNAUTHORIZED }),
        ) && final(cnf)@ == old(cnf)@,
        body.key@ == server.key@ ==> match r {
            Ok(plan) => {
                &&& old(cnf)@.running_pid(body.service@) == Ok::<u32, SupervisorError>(plan.pid)
                &&& plan.restart == old(cnf)@.services[body.service@].restart
                &&& final(cnf)@ == old(cnf)@.with_restart(body.service@, false)
            },
            Err(reply) => {
                &&& old(cnf)@.running_pid(body.service@) is Err
                &&& reply == (APIReturn { ok: false, data: STATUS_BAD_REQUEST })
                &&& final(cnf)@ == old(cnf)@
            },
        },
{
    if !key_accepted(body, server) {
        return Err(APIReturn { ok: false, data: STATUS_UNAUTHORIZED });
    }
    match Service::kill(&body.service, cnf) {
        Ok(plan) => Ok(plan),
        Err(_) => Err(APIReturn { ok: false, data: STATUS_BAD_REQUEST }),
    }
}

/// `POST /info`: with the right secret, the process to describe; otherwise
/// the refusal to send back, which carries no detail.
pub fn info_request(
    server: &ServerConfiguration,
    body: &BasicServiceRequestBody,
    cnf: &ServicesConfiguration,
) -> (r: Result<u32, APIReturn<String>>)
    requires
        cnf.wf(),
    ensures
        match r {
            Ok(pid) => body.key@ == server.key@ && cnf@.running_pid(body.service@) == Ok::<
                u32,
                SupervisorError,
            >(pid),
            Err(reply) => {
                &&& (body.key@ != server.key@ || cnf@.running_pid(body.service@) is Err)
                &&& !reply.ok
                &&& reply.data@ == Seq::<char>::empty()
            },
        },
{
    if !key_accepted(body, server) {
        return Err(APIReturn { ok: false, data: String::new() });
    }
    match Service::info(&body.service, cnf) {
        Ok(pid) => Ok(pid),
        Err(_) => Err(APIReturn { ok: false, data: String::new() }),
    }
}

} // verus!
