use inference_server::pool::{load_model, LoadError, ModelPool};

#[test]
fn load_model_all_instances_ok() {
    let pool = load_model(&vec![true, true, true]).unwrap();
    assert_eq!(pool.capacity_exec(), 3);
    assert!(!pool.is_empty());
    assert!(pool.slot_is_free(0));
    assert!(pool.slot_is_free(1));
    assert!(pool.slot_is_free(2));
}

#[test]
fn load_model_is_atomic_on_any_failure() {
    let r = load_model(&vec![true, false, true]);
    match r {
        Err(e) => assert_eq!(e, LoadError::InstanceFailed),
        Ok(_) => panic!("a failed instance must fail the whole pool"),
    }
}

#[test]
fn empty_pool_is_empty() {
    let pool = load_model(&vec![]).unwrap();
    assert!(pool.is_empty());
    assert_eq!(pool.capacity_exec(), 0);
}

#[test]
fn checkout_caps_concurrency_at_pool_size() {
    // Pool of three: three concurrent checkouts succeed with distinct
    // slots, the fourth is refused immediately.
    let mut pool: ModelPool = load_model(&vec![true, true, true]).unwrap();
    let a = pool.try_checkout().unwrap();
    let b = pool.try_checkout().unwrap();
    let c = pool.try_checkout().unwrap();
    assert!(a != b && b != c && a != c);
    assert_eq!(pool.try_checkout(), None);
}

#[test]
fn checkout_on_empty_pool_is_refused() {
    let mut pool = load_model(&vec![]).unwrap();
    assert_eq!(pool.try_checkout(), None);
}

#[test]
fn single_slot_pool_rejects_second_request_until_release() {
    // Pool size one: request A holds the slot, request B is refused
    // while A is generating; after A finishes, B succeeds.
    let mut pool = load_model(&vec![true]).unwrap();
    let a = pool.try_checkout().unwrap();
    assert_eq!(a, 0);
    assert_eq!(pool.try_checkout(), None);
    pool.release(a);
    assert_eq!(pool.try_checkout(), Some(0));
}

#[test]
fn released_slot_is_available_again() {
    // Aborting a request releases its slot: after release the next
    // checkout succeeds without waiting.
    let mut pool = load_model(&vec![true, true]).unwrap();
    let a = pool.try_checkout().unwrap();
    let b = pool.try_checkout().unwrap();
    assert_eq!(pool.try_checkout(), None);
    pool.release(a);
    assert_eq!(pool.try_checkout(), Some(a));
    pool.release(b);
    assert_eq!(pool.try_checkout(), Some(b));
}
