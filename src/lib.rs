//! Session persistence in a MongoDB collection.
//!
//! The library decides what is written, read and removed: the record stored
//! for a session and its expiry instant, the identifier a cookie value stands
//! for, whether a found record still counts, and the commands that clear the
//! store and provision its expiry indexes. The caller runs the commands and
//! hands the answers back.

pub mod cookie;
pub mod document;
pub mod error;
pub mod model;
pub mod store;

pub use cookie::session_id_from_cookie;
pub use document::{Command, ExpireIndex, LoadDecision, LoadedDocument, SessionDocument, SessionMeta};
pub use error::StoreError;
pub use store::{
    decoded_session, destroy_command, load_command, load_decision, load_decision_at,
    MongodbSessionStore, DEFAULT_TTL_SECS,
};
