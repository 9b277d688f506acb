//! Back-pressure between the producers and the render actor.
//!
//! After every frame the actor opens, it releases exactly one token on this
//! channel. A producer consumes one token per frame with a blocking `sync`
//! call before it records the next frame's commands, so it can never get more
//! than one unsynchronized frame ahead of the actor and the command queue
//! cannot grow without bound. When the actor shuts down the channel closes and
//! every pending or future `sync` observes it: no more frames will be opened.

use vstd::prelude::*;

use crate::channel::{
    channel_recv, channel_send, channel_try_recv, make_channel, ChannelClosedError,
    TryRecvOutcome,
};

verus! {

/// What a non-blocking poll of the back-pressure channel found.
#[derive(Clone, Copy, Debug, PartialEq, Eq, Structural)]
pub enum SyncPoll {
    /// A token was waiting: the actor has opened a new frame.
    Ready,
    /// No token is waiting: the actor has not opened a frame since the last
    /// synchronization; a blocking `sync` would not return yet.
    NotReady,
    /// The actor has shut down; no more frames will be opened.
    Closed,
}

/// The actor's end of the back-pressure channel: it releases one token after
/// every frame it opens.
pub struct TokenSender {
    sender: std::sync::mpsc::Sender<()>,
}

impl TokenSender {
    /// Release one back-pressure token, unblocking one waiting `sync` call.
    /// Fails only when the producer side is gone.
    pub fn send_token(&self) -> (r: Result<(), ChannelClosedError>) {
        channel_send(&self.sender, ())
    }
}

/// The producer's end of the back-pressure channel.
pub struct VustSyncer {
    allow_messages_recv: std::sync::mpsc::Receiver<()>,
}

impl VustSyncer {
    /// Block the current thread until the actor has finished opening the next
    /// frame. Call once per frame, right after enqueueing the frame-opening
    /// command; before any frame has been opened there is no token, and this
    /// call blocks. Returns the closed error when the actor has shut down.
    pub fn sync(&self) -> (r: Result<(), ChannelClosedError>) {
        channel_recv(&self.allow_messages_recv)
    }

    /// Poll the back-pressure channel without blocking: says whether a `sync`
    /// call would return now, and why.
    pub fn try_sync(&self) -> (r: SyncPoll) {
        match channel_try_recv(&self.allow_messages_recv) {
            TryRecvOutcome::Received(_) => SyncPoll::Ready,
            TryRecvOutcome::Empty => SyncPoll::NotReady,
            TryRecvOutcome::Closed => SyncPoll::Closed,
        }
    }
}

/// A fresh back-pressure channel: the actor keeps the token end, the producer
/// keeps the syncer.
pub fn backpressure_channel() -> (TokenSender, VustSyncer) {
    let (sender, receiver) = make_channel::<()>();
    (TokenSender { sender }, VustSyncer { allow_messages_recv: receiver })
}

} // verus!
