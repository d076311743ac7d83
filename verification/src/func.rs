//! Functions of the embedder and the view they get of the store.

pub mod caller;

pub use self::caller::Caller;
