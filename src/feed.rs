//! The feed's entry points, each with the exact effect it has on the two
//! records, and the laws that tie them together.

use vstd::prelude::*;
use crate::context::{
    error_channel_ok, error_reported, global_resources, thread_resources, generic_global_ctx_t,
    generic_thread_ctx_t,
};

verus! {

/// Keyspace size that stands for "unknown or unbounded": all bits set.
pub const KEYSPACE_UNBOUNDED: u64 = 0xffff_ffff_ffff_ffff;

/// Status code that `thread_next` reports: no item is produced.
pub const NEXT_STATUS: i32 = 9;

/// Whether the feed declares itself unbounded for the run described by `g`.
/// This feed cannot tell its size up front, whatever its configuration.
pub open spec fn declares_unbounded(g: generic_global_ctx_t) -> bool {
    true
}

/// Effect of `global_init`: it succeeds and attaches no private state.
pub open spec fn global_init_post(
    g0: generic_global_ctx_t,
    t0: generic_thread_ctx_t,
    r: bool,
    g1: generic_global_ctx_t,
    t1: generic_thread_ctx_t,
) -> bool {
    r && g1 == g0 && t1 == t0
}

/// Effect of `global_term`: there is nothing to release, so nothing changes.
pub open spec fn global_term_post(
    g0: generic_global_ctx_t,
    t0: generic_thread_ctx_t,
    g1: generic_global_ctx_t,
    t1: generic_thread_ctx_t,
) -> bool {
    g1 == g0 && t1 == t0
}

/// Effect of `thread_init`: it succeeds and attaches no per-thread state.
pub open spec fn thread_init_post(
    g0: generic_global_ctx_t,
    t0: generic_thread_ctx_t,
    r: bool,
    g1: generic_global_ctx_t,
    t1: generic_thread_ctx_t,
) -> bool {
    r && g1 == g0 && t1 == t0
}

/// Effect of `thread_term`: there is nothing to release, so nothing changes.
pub open spec fn thread_term_post(
    g0: generic_global_ctx_t,
    t0: generic_thread_ctx_t,
    g1: generic_global_ctx_t,
    t1: generic_thread_ctx_t,
) -> bool {
    g1 == g0 && t1 == t0
}

/// Effect of `thread_seek` to `offset`: it succeeds; there is no cursor to move.
pub open spec fn thread_seek_post(
    g0: generic_global_ctx_t,
    t0: generic_thread_ctx_t,
    offset: u64,
    r: bool,
    g1: generic_global_ctx_t,
    t1: generic_thread_ctx_t,
) -> bool {
    r && g1 == g0 && t1 == t0
}

/// Effect of `thread_next`: it reports `NEXT_STATUS` and writes nothing.
pub open spec fn thread_next_post(
    g0: generic_global_ctx_t,
    t0: generic_thread_ctx_t,
    buf0: Seq<u8>,
    r: i32,
    g1: generic_global_ctx_t,
    t1: generic_thread_ctx_t,
    buf1: Seq<u8>,
) -> bool {
    r == NEXT_STATUS && g1 == g0 && t1 == t0 && buf1 == buf0
}

/// Prepares the run: called once when the feed is loaded.
pub fn global_init(global: &mut generic_global_ctx_t, thread: &mut generic_thread_ctx_t) -> (r: bool)
    ensures
        global_init_post(*old(global), *old(thread), r, *final(global), *final(thread)),
        !r ==> error_reported(*final(global)),
        error_channel_ok(*old(global)) ==> error_channel_ok(*final(global)),
{
    true
}

/// Tears the run down: called once when the feed is unloaded.
pub fn global_term(global: &mut generic_global_ctx_t, thread: &mut generic_thread_ctx_t)
    ensures
        global_term_post(*old(global), *old(thread), *final(global), *final(thread)),
        error_channel_ok(*old(global)) ==> error_channel_ok(*final(global)),
{
}

/// Number of items the feed can produce, or `KEYSPACE_UNBOUNDED` when it
/// declares itself unbounded.
pub fn global_keyspace(global: &mut generic_global_ctx_t, thread: &mut generic_thread_ctx_t) -> (r: u64)
    ensures
        r == KEYSPACE_UNBOUNDED <==> declares_unbounded(*old(global)),
        *final(global) == *old(global),
        *final(thread) == *old(thread),
{
    KEYSPACE_UNBOUNDED
}

/// Prepares one worker thread before it starts enumerating.
pub fn thread_init(global: &mut generic_global_ctx_t, thread: &mut generic_thread_ctx_t) -> (r: bool)
    ensures
        thread_init_post(*old(global), *old(thread), r, *final(global), *final(thread)),
        !r ==> error_reported(*final(global)),
        error_channel_ok(*old(global)) ==> error_channel_ok(*final(global)),
{
    true
}

/// Tears one worker thread down.
pub fn thread_term(global: &mut generic_global_ctx_t, thread: &mut generic_thread_ctx_t)
    ensures
        thread_term_post(*old(global), *old(thread), *final(global), *final(thread)),
        error_channel_ok(*old(global)) ==> error_channel_ok(*final(global)),
{
}

/// Moves this thread's enumeration to the absolute position `offset`.
pub fn thread_seek(
    global: &mut generic_global_ctx_t,
    thread: &mut generic_thread_ctx_t,
    offset: u64,
) -> (r: bool)
    ensures
        thread_seek_post(*old(global), *old(thread), offset, r, *final(global), *final(thread)),
        !r ==> error_reported(*final(global)),
        error_channel_ok(*old(global)) ==> error_channel_ok(*final(global)),
{
    true
}

/// Produces this thread's next item into `out_buf` and reports a status code.
pub fn thread_next(
    global: &mut generic_global_ctx_t,
    thread: &mut generic_thread_ctx_t,
    out_buf: &mut Vec<u8>,
) -> (r: i32)
    ensures
        thread_next_post(
            *old(global),
            *old(thread),
            old(out_buf)@,
            r,
            *final(global),
            *final(thread),
            final(out_buf)@,
        ),
        error_channel_ok(*old(global)) ==> error_channel_ok(*final(global)),
{
    NEXT_STATUS
}

/// Setting a run up and tearing it down again, with nothing in between,
/// leaves the feed holding exactly the private state it held before: nothing
/// leaks.
pub proof fn init_then_term_leaks_nothing(
    g0: generic_global_ctx_t,
    t0: generic_thread_ctx_t,
    r: bool,
    g1: generic_global_ctx_t,
    t1: generic_thread_ctx_t,
    g2: generic_global_ctx_t,
    t2: generic_thread_ctx_t,
)
    requires
        global_init_post(g0, t0, r, g1, t1),
        global_term_post(g1, t1, g2, t2),
    ensures
        global_resources(g2) == global_resources(g0),
        thread_resources(t2) == thread_resources(t0),
{
}

/// Seeking to an offset and then asking for the next item is deterministic:
/// from the same global record, two threads that seek to the same offset,
/// whatever their earlier positions, get the same status, and the same buffer
/// contents when they start from the same buffer.
pub proof fn seek_then_next_is_deterministic(
    g: generic_global_ctx_t,
    offset: u64,
    ta0: generic_thread_ctx_t,
    ra_seek: bool,
    ga1: generic_global_ctx_t,
    ta1: generic_thread_ctx_t,
    bufa0: Seq<u8>,
    ra: i32,
    ga2: generic_global_ctx_t,
    ta2: generic_thread_ctx_t,
    bufa2: Seq<u8>,
    tb0: generic_thread_ctx_t,
    rb_seek: bool,
    gb1: generic_global_ctx_t,
    tb1: generic_thread_ctx_t,
    bufb0: Seq<u8>,
    rb: i32,
    gb2: generic_global_ctx_t,
    tb2: generic_thread_ctx_t,
    bufb2: Seq<u8>,
)
    requires
        thread_seek_post(g, ta0, offset, ra_seek, ga1, ta1),
        thread_next_post(ga1, ta1, bufa0, ra, ga2, ta2, bufa2),
        thread_seek_post(g, tb0, offset, rb_seek, gb1, tb1),
        thread_next_post(gb1, tb1, bufb0, rb, gb2, tb2, bufb2),
    ensures
        ra == rb,
        bufa0 == bufb0 ==> bufa2 == bufb2,
{
}

} // verus!
