use inference_server::endpoint::{
    begin_completion, finish_completion, ping, post_model, Dispatch, ResponseKind,
};
use inference_server::pool::load_model;

#[test]
fn ping_answers_pong() {
    assert_eq!(ping(), "pong");
}

#[test]
fn model_info_reports_a_fixed_identifier_before_any_pool_is_loaded() {
    // No pool exists at this point; the endpoint still answers, with its
    // static identifier.
    let info = post_model();
    assert_eq!(info.id, "local.ai");
}

#[test]
fn response_kinds_map_to_their_status_codes() {
    assert_eq!(ResponseKind::Streaming.status_code(), 200);
    assert_eq!(ResponseKind::InternalError.status_code(), 500);
    assert_eq!(ResponseKind::ServiceUnavailable.status_code(), 503);
}

#[test]
fn empty_pool_is_service_unavailable_and_spawns_no_worker() {
    let mut pool = load_model(&vec![]).unwrap();
    // The refusal is immediate and carries no slot and no stream parts:
    // there is nothing to spawn a worker with.
    let d = begin_completion(&mut pool);
    assert!(matches!(d, Dispatch::Unavailable));
    assert_eq!(d.refusal_response(), Some(ResponseKind::ServiceUnavailable));
    assert_eq!(d.refusal_response().unwrap().status_code(), 503);
    assert_eq!(pool.capacity_exec(), 0);
}

#[test]
fn a_dispatch_that_proceeds_has_no_refusal() {
    let mut pool = load_model(&vec![true]).unwrap();
    let d = begin_completion(&mut pool);
    assert!(matches!(d, Dispatch::Ready(0, _)));
    assert_eq!(d.refusal_response(), None);
}

#[test]
fn exhausted_pool_is_service_unavailable_without_waiting() {
    let mut pool = load_model(&vec![true]).unwrap();
    let first = begin_completion(&mut pool);
    let slot = match first {
        Dispatch::Ready(slot, _) => slot,
        Dispatch::Unavailable => panic!("first request should get the slot"),
    };
    assert_eq!(slot, 0);
    // Second concurrent request: rejected at once, no queueing.
    assert!(matches!(begin_completion(&mut pool), Dispatch::Unavailable));
    // After the first request finishes, a reissued request succeeds.
    let kind = finish_completion(&mut pool, slot, true);
    assert_eq!(kind, ResponseKind::Streaming);
    pool.release(slot);
    assert!(matches!(begin_completion(&mut pool), Dispatch::Ready(0, _)));
}

#[test]
fn spawn_failure_releases_the_slot_and_is_an_internal_error() {
    let mut pool = load_model(&vec![true]).unwrap();
    let slot = match begin_completion(&mut pool) {
        Dispatch::Ready(slot, _) => slot,
        Dispatch::Unavailable => panic!("pool has a free slot"),
    };
    let kind = finish_completion(&mut pool, slot, false);
    assert_eq!(kind, ResponseKind::InternalError);
    // The slot did not leak: the next request gets it.
    assert!(matches!(begin_completion(&mut pool), Dispatch::Ready(0, _)));
}

#[test]
fn dispatch_builds_a_connected_token_channel() {
    let mut pool = load_model(&vec![true]).unwrap();
    let parts = match begin_completion(&mut pool) {
        Dispatch::Ready(_, parts) => parts,
        Dispatch::Unavailable => panic!("pool has a free slot"),
    };
    // The two ends returned are ends of one queue, in order.
    parts.token_sender.send(vec![1, 2]).unwrap();
    parts.token_sender.send(vec![3]).unwrap();
    assert_eq!(parts.token_receiver.try_recv().unwrap(), vec![1, 2]);
    assert_eq!(parts.token_receiver.try_recv().unwrap(), vec![3]);
    assert!(parts.token_receiver.try_recv().is_err());
}

#[test]
fn dispatch_builds_an_unset_abort_flag() {
    let mut pool = load_model(&vec![true]).unwrap();
    let parts = match begin_completion(&mut pool) {
        Dispatch::Ready(_, parts) => parts,
        Dispatch::Unavailable => panic!("pool has a free slot"),
    };
    assert!(!*parts.abort_flag.read());
    *parts.abort_flag.write() = true;
    assert!(*parts.abort_flag.read());
}
