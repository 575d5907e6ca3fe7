use vstd::prelude::*;
use vstd::string::StrSliceExecFns;

verus! {

/// The ids that tie a request to a trace.
pub struct TraceInfo {
    pub trace_id: String,
    pub request_id: String,
}

/// The trace of a request from its `x-trace-id` and `x-request-id` headers (empty where
/// absent): none when both are empty.
pub fn trace_info_from(trace_id: String, request_id: String) -> (r: Option<TraceInfo>)
    ensures
        (trace_id@.len() == 0 && request_id@.len() == 0) <==> r is None,
        r is Some ==> r->Some_0.trace_id@ == trace_id@ && r->Some_0.request_id@ == request_id@,
{
    if trace_id.as_str().unicode_len() == 0 && request_id.as_str().unicode_len() == 0 {
        None
    } else {
        Some(TraceInfo { trace_id, request_id })
    }
}

/// Logs each incoming request.
pub struct LoggingInterceptor;

impl LoggingInterceptor {
    /// The interceptor.
    pub fn new() -> (r: LoggingInterceptor) {
        LoggingInterceptor
    }
}

/// Logs the trace of each incoming request.
pub struct TracingInterceptor;

impl TracingInterceptor {
    /// The interceptor.
    pub fn new() -> (r: TracingInterceptor) {
        TracingInterceptor
    }
}

} // verus!
