use dummy_feed::context::ERROR_MSG_LEN;
use dummy_feed::feed::{KEYSPACE_UNBOUNDED, NEXT_STATUS};
use dummy_feed::{
    generic_global_ctx_t, generic_thread_ctx_t, global_init, global_keyspace, global_term,
    thread_init, thread_next, thread_seek, thread_term,
};

fn new_global() -> generic_global_ctx_t {
    generic_global_ctx_t {
        workv: vec![String::from("alpha"), String::from("beta")],
        profile_dir: Some(String::from("/home/user/.feed")),
        cache_dir: None,
        error: false,
        error_msg: [0u8; 256],
        gbldata: None,
    }
}

fn same_global(a: &generic_global_ctx_t, b: &generic_global_ctx_t) -> bool {
    a.workv == b.workv
        && a.profile_dir == b.profile_dir
        && a.cache_dir == b.cache_dir
        && a.error == b.error
        && a.error_msg == b.error_msg
        && a.gbldata == b.gbldata
}

#[test]
fn full_lifecycle_sequence() {
    let mut g = new_global();
    let mut t = generic_thread_ctx_t { thrdata: None };
    assert!(global_init(&mut g, &mut t));
    assert_eq!(global_keyspace(&mut g, &mut t), 0xFFFF_FFFF_FFFF_FFFF);
    assert!(thread_init(&mut g, &mut t));
    assert!(thread_seek(&mut g, &mut t, 0));
    let mut buf: Vec<u8> = vec![0u8; 16];
    assert_eq!(thread_next(&mut g, &mut t, &mut buf), 9);
    thread_term(&mut g, &mut t);
    global_term(&mut g, &mut t);
    assert!(!g.error);
}

#[test]
fn init_then_term_leaves_nothing_attached() {
    let mut g = new_global();
    let mut t = generic_thread_ctx_t { thrdata: None };
    let before = new_global();
    assert!(global_init(&mut g, &mut t));
    global_term(&mut g, &mut t);
    assert_eq!(g.gbldata, None);
    assert_eq!(t.thrdata, None);
    assert!(same_global(&g, &before));
}

#[test]
fn thread_init_then_term_leaves_nothing_attached() {
    let mut g = new_global();
    let mut t = generic_thread_ctx_t { thrdata: None };
    assert!(thread_init(&mut g, &mut t));
    thread_term(&mut g, &mut t);
    assert_eq!(t.thrdata, None);
    assert!(same_global(&g, &new_global()));
}

#[test]
fn seek_then_next_gives_same_result_for_same_offset() {
    let mut g = new_global();
    let mut t1 = generic_thread_ctx_t { thrdata: None };
    let mut t2 = generic_thread_ctx_t { thrdata: None };
    let mut b1: Vec<u8> = vec![7u8, 8, 9];
    let mut b2: Vec<u8> = vec![7u8, 8, 9];
    assert!(thread_seek(&mut g, &mut t1, 42));
    let r1 = thread_next(&mut g, &mut t1, &mut b1);
    assert!(thread_seek(&mut g, &mut t2, 42));
    let r2 = thread_next(&mut g, &mut t2, &mut b2);
    assert_eq!(r1, r2);
    assert_eq!(b1, b2);
}

#[test]
fn seek_to_largest_offset_succeeds() {
    let mut g = new_global();
    let mut t = generic_thread_ctx_t { thrdata: None };
    assert!(thread_seek(&mut g, &mut t, u64::MAX));
    assert!(same_global(&g, &new_global()));
}

#[test]
fn next_writes_nothing_into_buffer() {
    let mut g = new_global();
    let mut t = generic_thread_ctx_t { thrdata: None };
    let mut buf: Vec<u8> = vec![1u8, 2, 3, 4];
    assert_eq!(thread_next(&mut g, &mut t, &mut buf), NEXT_STATUS);
    assert_eq!(buf, vec![1u8, 2, 3, 4]);
    let mut empty: Vec<u8> = Vec::new();
    assert_eq!(thread_next(&mut g, &mut t, &mut empty), 9);
    assert!(empty.is_empty());
}

#[test]
fn keyspace_is_sentinel_for_unbounded_feed() {
    let mut g = new_global();
    let mut t = generic_thread_ctx_t { thrdata: None };
    let k = global_keyspace(&mut g, &mut t);
    assert_eq!(k, KEYSPACE_UNBOUNDED);
    assert_eq!(k, u64::MAX);
    assert!(same_global(&g, &new_global()));
}

#[test]
fn no_failure_leaves_error_channel_untouched() {
    let mut g = new_global();
    let mut t = generic_thread_ctx_t { thrdata: None };
    assert!(global_init(&mut g, &mut t));
    assert!(thread_init(&mut g, &mut t));
    assert!(thread_seek(&mut g, &mut t, 5));
    assert!(!g.error);
    assert_eq!(g.error_msg.len(), ERROR_MSG_LEN);
    assert!(g.error_msg.iter().all(|b| *b == 0));
}

#[test]
fn raised_error_is_kept_across_calls() {
    let mut g = new_global();
    g.error = true;
    g.error_msg[0] = b'x';
    let mut t = generic_thread_ctx_t { thrdata: Some(3) };
    global_term(&mut g, &mut t);
    thread_term(&mut g, &mut t);
    assert!(g.error);
    assert_eq!(g.error_msg[0], b'x');
    assert_eq!(g.error_msg[1], 0);
    assert_eq!(t.thrdata, Some(3));
}
