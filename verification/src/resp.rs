//! Building the reply envelope: latency text, success and error replies.

use vstd::prelude::*;
use crate::models::ApiResponse;
use crate::text::{int_decimal, push_char, push_int_decimal};
use crate::time::{elapsed_millis, elapsed_millis_spec, now, Timestamp};

verus! {

/// The latency text between two instants: the elapsed whole milliseconds in
/// decimal followed by "ms".
pub open spec fn latency_text(t_in: Timestamp, t_out: Timestamp) -> Seq<char> {
    int_decimal(elapsed_millis_spec(t_in, t_out)) + seq!['m', 's']
}

impl<T> ApiResponse<T> {
    /// The reply was stamped on the way out: a valid exit instant and the
    /// latency text between entry and exit.
    pub open spec fn stamped(self) -> bool {
        &&& self.tout.wf()
        &&& self.tout.secs >= 0
        &&& self.latency@ == latency_text(self.tin, self.tout)
    }

    /// A successful reply carrying `data`, entered at `t_in`, with `status`.
    pub open spec fn is_success_of(self, t_in: Timestamp, status: u16, data: T) -> bool {
        &&& self.stamped()
        &&& self.tin == t_in
        &&& self.status == status
        &&& self.success
        &&& self.error is None
        &&& self.data == Some(data)
    }

    /// A failed reply with message `msg`, entered at `t_in`, with `status`.
    pub open spec fn is_error_of(self, t_in: Timestamp, status: u16, msg: Seq<char>) -> bool {
        &&& self.stamped()
        &&& self.tin == t_in
        &&& self.status == status
        &&& !self.success
        &&& self.data is None
        &&& self.error matches Some(e) && e@ == msg
    }

    /// The latency text from `t_in` to `t_out`.
    pub fn latency(t_in: Timestamp, t_out: Timestamp) -> (s: String)
        requires
            t_in.wf(),
            t_out.wf(),
        ensures
            s@ == latency_text(t_in, t_out),
    {
        let ms = elapsed_millis(t_in, t_out);
        let mut s = String::new();
        push_int_decimal(&mut s, ms);
        push_char(&mut s, 'm');
        push_char(&mut s, 's');
        assert(s@ =~= latency_text(t_in, t_out));
        s
    }

    /// A successful reply: stamped with the current instant on the way out.
    pub fn success(t_in: Timestamp, status: u16, data: T) -> (r: Self)
        requires
            t_in.wf(),
        ensures
            r.is_success_of(t_in, status, data),
    {
        let t_out = now();
        let latency = Self::latency(t_in, t_out);
        ApiResponse {
            latency,
            tin: t_in,
            tout: t_out,
            data: Some(data),
            error: None,
            status,
            success: true,
        }
    }

    /// A failed reply with message `err`: stamped with the current instant
    /// on the way out.
    pub fn error(t_in: Timestamp, status: u16, err: String) -> (r: Self)
        requires
            t_in.wf(),
        ensures
            r.is_error_of(t_in, status, err@),
    {
        let t_out = now();
        let latency = Self::latency(t_in, t_out);
        ApiResponse {
            latency,
            tin: t_in,
            tout: t_out,
            data: None,
            error: Some(err),
            status,
            success: false,
        }
    }
}

} // verus!
