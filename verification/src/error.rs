//! The binding's error values.
//!
//! Every failure is returned as a [`CobraError`]: a tagged reason, one
//! primary human-readable message, and — when the native layer reported a
//! diagnostic stack — the ordered native messages that explain the failure.

use crate::status::{pv_status_name, spec_status_name, PvStatus};
use crate::text::{dec_rep, dec_string};
use vstd::prelude::*;

verus! {

/// The reason a call of the binding failed.
#[derive(Clone, Debug)]
pub enum CobraErrorStatus {
    /// A native call returned the carried non-success status.
    LibraryError(PvStatus),
    /// The dynamic library could not be opened, a required symbol was
    /// missing, or the native library broke its declared contract.
    LibraryLoadError,
    /// A frame of the wrong length was handed to `process`.
    FrameLengthError,
    /// Caller-supplied input was invalid before any native call.
    ArgumentError,
}

/// A failure of the binding: reason, primary message, and the ordered
/// native diagnostic stack (empty when the native layer reported none).
#[derive(Clone, Debug)]
pub struct CobraError {
    pub status: CobraErrorStatus,
    pub message: String,
    pub message_stack: Vec<String>,
}

impl CobraError {
    /// An error without a native diagnostic stack.
    pub fn new(status: CobraErrorStatus, message: &str) -> (e: Self)
        ensures
            e.status == status,
            e.message@ == message@,
            e.message_stack@.len() == 0,
    {
        Self { status, message: message.to_owned(), message_stack: Vec::new() }
    }

    /// An error carrying the diagnostic stack drained from the native layer.
    pub fn new_with_stack(status: CobraErrorStatus, message: &str, message_stack: Vec<String>) -> (e: Self)
        ensures
            e.status == status,
            e.message@ == message@,
            e.message_stack == message_stack,
    {
        Self { status, message: message.to_owned(), message_stack }
    }

    /// The one-line (or, with a stack, multi-line) rendering of the error.
    pub fn to_display_string(&self) -> (r: String)
        ensures
            r@ == self.spec_display_string(),
    {
        let mut s = self.message.clone();
        s.append(" with status '");
        let sd = status_debug_string(&self.status);
        s.append(sd.as_str());
        s.append("'");
        if self.message_stack.len() > 0 {
            s.append(":");
            let ghost head = self.message@ + " with status '"@ + spec_status_debug(self.status)
                + "'"@ + ":"@;
            assert(s@ =~= head + spec_stack_lines(self.message_stack.deep_view(), 0));
            let mut i: usize = 0;
            while i < self.message_stack.len()
                invariant
                    i <= self.message_stack@.len(),
                    head == self.message@ + " with status '"@ + spec_status_debug(self.status)
                        + "'"@ + ":"@,
                    s@ == head + spec_stack_lines(self.message_stack.deep_view(), i as int),
                decreases self.message_stack@.len() - i,
            {
                s.append("  [");
                let n = dec_string(i as u64);
                s.append(n.as_str());
                s.append("] ");
                s.append(self.message_stack[i].as_str());
                s.append("\n");
                assert(s@ =~= head + spec_stack_lines(
                    self.message_stack.deep_view(),
                    i as int + 1,
                ));
                i = i + 1;
            }
            assert(s@ == self.spec_display_string());
        } else {
            assert(s@ =~= self.spec_display_string());
        }
        s
    }

    /// What [`Self::to_display_string`] renders: the primary message, the
    /// reason, and — when present — the numbered native diagnostic stack.
    pub open spec fn spec_display_string(&self) -> Seq<char> {
        let head = self.message@ + " with status '"@ + spec_status_debug(self.status) + "'"@;
        if self.message_stack@.len() == 0 {
            head
        } else {
            head + ":"@ + spec_stack_lines(
                self.message_stack.deep_view(),
                self.message_stack@.len() as int,
            )
        }
    }
}

/// The rendering of an error reason, as its debug form spells it.
pub open spec fn spec_status_debug(s: CobraErrorStatus) -> Seq<char> {
    match s {
        CobraErrorStatus::LibraryError(p) => "LibraryError("@ + spec_status_name(p) + ")"@,
        CobraErrorStatus::LibraryLoadError => "LibraryLoadError"@,
        CobraErrorStatus::FrameLengthError => "FrameLengthError"@,
        CobraErrorStatus::ArgumentError => "ArgumentError"@,
    }
}

/// The first `k` lines rendered from a diagnostic stack, each numbered.
pub open spec fn spec_stack_lines(stack: Seq<Seq<char>>, k: int) -> Seq<char>
    decreases k,
{
    if k <= 0 {
        Seq::empty()
    } else {
        spec_stack_lines(stack, k - 1) + "  ["@ + dec_rep((k - 1) as nat) + "] "@ + stack[k - 1]
            + "\n"@
    }
}

/// The rendering of an error reason, for diagnostic messages.
pub fn status_debug_string(s: &CobraErrorStatus) -> (r: String)
    ensures
        r@ == spec_status_debug(*s),
{
    match s {
        CobraErrorStatus::LibraryError(p) => {
            let r = String::from_str("LibraryError(").concat(pv_status_name(p)).concat(")");
            assert(r@ =~= spec_status_debug(*s));
            r
        },
        CobraErrorStatus::LibraryLoadError => String::from_str("LibraryLoadError"),
        CobraErrorStatus::FrameLengthError => String::from_str("FrameLengthError"),
        CobraErrorStatus::ArgumentError => String::from_str("ArgumentError"),
    }
}

} // verus!
