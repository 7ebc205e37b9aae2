//! Sans-IO core of a peer-to-peer file drop: ticket codec, collection
//! metadata, chunk claiming, progress reconciliation and session lifecycle.

pub mod chunk;
pub mod collection;
pub mod error;
pub mod instance;
pub mod metadata;
pub mod progress;
pub mod progress_proofs;
pub mod receive;
pub mod send;
pub mod session;
pub mod settings;
pub mod sink;
pub mod text;
pub mod ticket;

pub use chunk::{ChunkClaimReader, ChunkRange};
pub use collection::Collection;
pub use error::{IrohError, IrohResult};
pub use instance::{DropCoreAdapter, IrohInstance};
pub use metadata::{CollectionMetadata, FileTransfer, MetadataError};
pub use progress::{Action, ListingEntry, Phase, ProgressReconciler, TransferEvent};
pub use send::{Event, SendEvent, SendSession};
pub use session::{ReceiveSession, SessionState};
pub use sink::FileTransferHandle;
pub use ticket::{BlobTicket, TicketWrapper};
