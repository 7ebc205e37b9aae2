//! The sink for progress snapshots.
//!
//! Snapshots are sent best effort and never block the transfer: where the
//! consumer is gone, the send fails with `SendError`, and the transfer goes
//! on.

use crate::error::{IrohError, IrohErrorView};
use crate::metadata::FileTransfer;
use std::sync::mpsc::Sender;
use vstd::prelude::*;

verus! {

/// The sending half of a standard channel. Nothing is known of what is
/// inside.
#[verifier::external_type_specification]
#[verifier::external_body]
#[verifier::reject_recursive_types(T)]
pub struct ExSender<T>(Sender<T>);

/// The sink for progress snapshots: the sending half of a channel whose
/// consumer may go away at any time.
pub struct FileTransferHandle(pub Sender<Vec<FileTransfer>>);

/// `Sender::send` of the standard library: hands the value to the channel
/// and never blocks. It fails only when the receiving half has been
/// dropped, so nothing is promised of the result.
#[verifier::external_body]
fn channel_send(sender: &Sender<Vec<FileTransfer>>, files: Vec<FileTransfer>) -> (delivered: bool) {
    sender.send(files).is_ok()
}

/// What a send comes to, given whether the channel took the snapshot: a
/// snapshot that was not taken is a `SendError`, and nothing else is.
pub open spec fn delivery_spec(delivered: bool) -> Result<(), IrohErrorView> {
    if delivered {
        Ok(())
    } else {
        Err(IrohErrorView::SendError)
    }
}

/// What a send comes to, given whether the channel took the snapshot.
pub fn delivery(delivered: bool) -> (r: Result<(), IrohError>)
    ensures
        match r {
            Ok(_) => delivery_spec(delivered) is Ok,
            Err(e) => delivery_spec(delivered) == Err::<(), IrohErrorView>(e@),
        },
{
    if delivered {
        Ok(())
    } else {
        Err(IrohError::SendError)
    }
}

impl FileTransferHandle {
    /// Sends one snapshot, best effort. The only error there is says that
    /// the consumer is gone; it is no failure of the transfer. Whether the
    /// send succeeds is the channel's to say; the result is that of
    /// `delivery` on what the channel said.
    pub fn send(&self, files: Vec<FileTransfer>) -> (r: Result<(), IrohError>)
        ensures
            r is Err ==> r->Err_0 is SendError,
    {
        delivery(channel_send(&self.0, files))
    }
}

/// What a failure to deliver a snapshot means for the session: it goes on.
/// Every other error ends it.
pub fn continues_after(e: &IrohError) -> (b: bool)
    ensures
        b == !e@.is_fatal(),
{
    !e.fatal()
}

} // verus!
