//! The entry point of the library: one instance hands out the sessions.

use crate::progress::{initial, ProgressReconciler};
use crate::send::{SendSession, SendStage};
use crate::session::ReceiveSession;
use vstd::prelude::*;

verus! {

/// The transfer core. It holds no state of its own: every send and every
/// receive is a session, and a session is the unit of cancellation.
#[derive(Debug, Clone, Copy, PartialEq, Eq, Structural)]
pub struct IrohInstance;

/// The instance under the name that the command-line front end uses.
pub type DropCoreAdapter = IrohInstance;

impl IrohInstance {
    /// An instance.
    pub fn new() -> Self {
        IrohInstance
    }

    /// A session for one send operation, not yet started.
    pub fn send_session(&self) -> (s: SendSession)
        ensures
            s@ == SendStage::Created,
    {
        SendSession::new()
    }

    /// A session for one receive operation, not yet started.
    pub fn receive_session(&self) -> (s: ReceiveSession)
        ensures
            s@ == ReceiveSession::created(),
    {
        ReceiveSession::new()
    }

    /// A reconciler for the events of one download.
    pub fn reconciler(&self) -> (r: ProgressReconciler)
        ensures
            r@ == initial(),
    {
        ProgressReconciler::new()
    }
}

} // verus!
