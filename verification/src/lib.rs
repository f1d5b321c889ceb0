//! Archival engine for a continuous stream of text messages: messages are
//! accumulated into time- and size-bounded segments, compressed, and published
//! as immutable artifacts under canonical names. The engine itself performs no
//! file I/O: it hands each finished segment to its caller as an [`Artifact`]
//! holding the compressed bytes together with the temporary and the final
//! artifact name, and the caller writes the temporary file and renames it.
//!
//! An artifact's cleartext is the concatenated raw bytes of its messages, in
//! arrival order, with no separators added: decompressing every final
//! artifact of a run and concatenating the results in volume order yields
//! the submitted byte stream back.

pub mod data_archiver;
pub mod errors;
pub mod extraction;
pub mod naming;
pub mod old_faithful_solana_connector;
pub mod segment_codec;
pub mod solana_connector;

pub use data_archiver::Artifact;
pub use data_archiver::DispatcherStep;
pub use data_archiver::EncoderManager;
pub use data_archiver::FeedEvent;
pub use data_archiver::MessageDispatcher;
pub use errors::ArchiveError;
pub use old_faithful_solana_connector::OldFaithfulSolanaConnector;
pub use solana_connector::SolanaConnector;
