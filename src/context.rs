//! The two records the host hands to every entry point, held as plain values.

use vstd::prelude::*;

verus! {

/// Size of the inline error text buffer, terminator included.
pub const ERROR_MSG_LEN: usize = 256;

/// Process-wide state shared by every worker thread of one feed run.
pub struct generic_global_ctx_t {
    /// The feed's configuration arguments, in the order the host gave them.
    pub workv: Vec<String>,
    /// Directory for persistent data, if the host provides one.
    pub profile_dir: Option<String>,
    /// Directory for cached data, if the host provides one.
    pub cache_dir: Option<String>,
    /// Set by the feed when it reports a fatal error.
    pub error: bool,
    /// Null-terminated error text that accompanies `error`.
    pub error_msg: [u8; 256],
    /// Handle of the feed's private global state; `None` when nothing is attached.
    pub gbldata: Option<u64>,
}

/// State owned by one worker thread.
pub struct generic_thread_ctx_t {
    /// Handle of the feed's private per-thread state; `None` when nothing is attached.
    pub thrdata: Option<u64>,
}

/// `msg` holds a non-empty text followed by a terminator, all within the buffer,
/// so the text itself is at most `ERROR_MSG_LEN - 1` bytes long.
pub open spec fn is_error_text(msg: Seq<u8>) -> bool {
    msg.len() == ERROR_MSG_LEN
        && exists|i: int| 0 < i < ERROR_MSG_LEN && #[trigger] msg[i] == 0u8 && msg[0] != 0u8
}

/// The error channel is consistent: a raised flag always comes with a message.
pub open spec fn error_channel_ok(g: generic_global_ctx_t) -> bool {
    g.error ==> is_error_text(g.error_msg@)
}

/// A failure has been reported on the error channel.
pub open spec fn error_reported(g: generic_global_ctx_t) -> bool {
    g.error && is_error_text(g.error_msg@)
}

/// Private state the feed holds across calls for this run.
pub open spec fn global_resources(g: generic_global_ctx_t) -> Option<u64> {
    g.gbldata
}

/// Private state the feed holds across calls for one thread.
pub open spec fn thread_resources(t: generic_thread_ctx_t) -> Option<u64> {
    t.thrdata
}

} // verus!
