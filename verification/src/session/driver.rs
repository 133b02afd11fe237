//! The playback destination of a session.

use crate::session::SessionCommand;
use tokio::sync::mpsc::Sender;
use vstd::prelude::*;

verus! {

/// Why the destination could not do what it was asked.
#[derive(Debug, Clone)]
pub struct DriverError {
    pub detail: String,
}

/// Where a session's audio goes.
///
/// One session owns one driver; nothing else calls it. What an
/// implementation does is its own business: nothing is promised of it here.
pub trait AudioDriver: Sync + Send {
    /// Queues `audios` for playback, in order, behind what is already queued.
    fn enqueue(&self, audios: Vec<Vec<u8>>);

    /// Leaves the voice channel and releases what the driver holds.
    fn leave(&self) -> Result<(), DriverError>;

    /// From now on, sends one unit on `tx` each time a segment has finished
    /// playing.
    fn subscribe_to_end_event(&self, tx: Sender<()>);

    /// From now on, sends [`SessionCommand::Disconnect`] on `tx` when the
    /// connection is lost.
    fn subscribe_to_disconnect_event(&self, tx: Sender<SessionCommand>);
}

} // verus!
