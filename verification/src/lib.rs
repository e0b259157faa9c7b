//! Replays messages from a source queue to a destination queue, optionally
//! deduplicating them by a key extracted with a regular-expression selector.
//!
//! The verified core consists of the selector compiler, the message filter
//! and the replay session state machine; the queue transport itself is an
//! external collaborator driven by an unverified front end.

pub mod error;
pub mod filter;
pub mod message;
pub mod observer;
pub mod replay;
pub mod selector;
pub mod sqs;

pub use error::ReplayError;
pub use filter::MessageFilter;
pub use message::Message;
pub use replay::SqsReplay;
pub use selector::Selector;
