//! Back-pressure: no token before the first frame opens, one per token sent,
//! closure observed.

use vust::vust_sync::{backpressure_channel, SyncPoll};

#[test]
fn sync_before_any_open_frame_would_block() {
    let (_tokens, syncer) = backpressure_channel();
    // No frame has been opened, so no token exists and a blocking sync would
    // not return: the non-blocking poll must time out empty-handed.
    assert_eq!(syncer.try_sync(), SyncPoll::NotReady);
    assert_eq!(syncer.try_sync(), SyncPoll::NotReady);
}

#[test]
fn one_token_releases_exactly_one_sync() {
    let (tokens, syncer) = backpressure_channel();
    tokens.send_token().expect("producer side is alive");
    assert_eq!(syncer.try_sync(), SyncPoll::Ready);
    assert_eq!(syncer.try_sync(), SyncPoll::NotReady);
}

#[test]
fn blocking_sync_returns_once_a_token_is_there() {
    let (tokens, syncer) = backpressure_channel();
    tokens.send_token().expect("producer side is alive");
    assert!(syncer.sync().is_ok());
    assert_eq!(syncer.try_sync(), SyncPoll::NotReady);
}

#[test]
fn closure_means_no_more_frames() {
    let (tokens, syncer) = backpressure_channel();
    drop(tokens);
    assert_eq!(syncer.try_sync(), SyncPoll::Closed);
    assert!(syncer.sync().is_err());
}

#[test]
fn token_into_closed_side_fails() {
    let (tokens, syncer) = backpressure_channel();
    drop(syncer);
    assert!(tokens.send_token().is_err());
}
