use vstd::prelude::*;
use crate::store::MessageLog;
use crate::worker::WorkerContext;

verus! {

/// The status of a request whose body could not be read: a client error.
pub const BAD_REQUEST: u16 = 400;

/// The reply to a read-all or a clear-all.
pub struct IndexResponse {
    pub server_id: usize,
    pub request_count: usize,
    pub messages: Vec<String>,
}

/// The reply to a create: the text that was stored, echoed back.
pub struct PostResponse {
    pub server_id: usize,
    pub request_count: usize,
    pub message: String,
}

/// The reply to a create whose body could not be read. It carries the reason,
/// the worker's live state and the log as it stands, and a client-error status.
pub struct PostError {
    pub status: u16,
    pub server_id: usize,
    pub request_count: usize,
    pub error: String,
    pub messages: Vec<String>,
}

/// The reply to a lookup: the message at the index, or `None` past the end.
pub struct LookupResponse {
    pub server_id: usize,
    pub request_count: usize,
    pub result: Option<String>,
}

/// Read-all: counts the request and returns a copy of the whole log.
pub fn index(ctx: &mut WorkerContext, log: &MessageLog) -> (r: IndexResponse)
    requires
        old(ctx).count() < usize::MAX,
    ensures
        final(ctx).id() == old(ctx).id(),
        final(ctx).count() == old(ctx).count() + 1,
        r.server_id == final(ctx).id(),
        r.request_count == final(ctx).count(),
        r.messages@ == log@,
{
    let request_count = ctx.begin_request();
    IndexResponse {
        server_id: ctx.identity(),
        request_count,
        messages: log.snapshot(),
    }
}

/// Create: counts the request, appends `message` to the log and echoes it.
pub fn post(ctx: &mut WorkerContext, log: &mut MessageLog, message: String) -> (r: PostResponse)
    requires
        old(ctx).count() < usize::MAX,
    ensures
        final(ctx).id() == old(ctx).id(),
        final(ctx).count() == old(ctx).count() + 1,
        final(log)@ == old(log)@.push(message),
        r.server_id == final(ctx).id(),
        r.request_count == final(ctx).count(),
        r.message == message,
{
    let request_count = ctx.begin_request();
    let echoed = message.clone();
    log.append(message);
    PostResponse { server_id: ctx.identity(), request_count, message: echoed }
}

/// A create whose body was malformed or too large: counts the request just
/// as a served one, and reports `error` with the worker's state and the log,
/// which it leaves as it was.
pub fn post_error(ctx: &mut WorkerContext, log: &MessageLog, error: String) -> (r: PostError)
    requires
        old(ctx).count() < usize::MAX,
    ensures
        final(ctx).id() == old(ctx).id(),
        final(ctx).count() == old(ctx).count() + 1,
        r.status == BAD_REQUEST,
        400 <= r.status < 500,
        r.server_id == final(ctx).id(),
        r.request_count == final(ctx).count(),
        r.error == error,
        r.messages@ == log@,
{
    let request_count = ctx.begin_request();
    PostError {
        status: BAD_REQUEST,
        server_id: ctx.identity(),
        request_count,
        error,
        messages: log.snapshot(),
    }
}

/// Clear-all: counts the request, empties the log and returns an empty list.
pub fn clear(ctx: &mut WorkerContext, log: &mut MessageLog) -> (r: IndexResponse)
    requires
        old(ctx).count() < usize::MAX,
    ensures
        final(ctx).id() == old(ctx).id(),
        final(ctx).count() == old(ctx).count() + 1,
        final(log)@ == Seq::<String>::empty(),
        r.server_id == final(ctx).id(),
        r.request_count == final(ctx).count(),
        r.messages@ == Seq::<String>::empty(),
{
    let request_count = ctx.begin_request();
    log.clear();
    IndexResponse { server_id: ctx.identity(), request_count, messages: Vec::new() }
}

/// Lookup: counts the request and returns the message at `idx`, or `None`
/// when `idx` is past the end of the log.
pub fn lookup(ctx: &mut WorkerContext, log: &MessageLog, idx: usize) -> (r: LookupResponse)
    requires
        old(ctx).count() < usize::MAX,
    ensures
        final(ctx).id() == old(ctx).id(),
        final(ctx).count() == old(ctx).count() + 1,
        r.server_id == final(ctx).id(),
        r.request_count == final(ctx).count(),
        idx < log@.len() ==> r.result == Some(log@[idx as int]),
        idx >= log@.len() ==> r.result is None,
{
    let request_count = ctx.begin_request();
    LookupResponse { server_id: ctx.identity(), request_count, result: log.get(idx) }
}

} // verus!
