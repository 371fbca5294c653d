//! A verified per-owner task-list core.
//!
//! The library manages one owner's ordered collection of task records:
//! initialize, create, set-completion, update-description, and delete.
//! Every operation is specified and proved to keep the collection
//! invariant: task ids pairwise distinct, every description within the
//! byte bound, and every id below the fresh-id counter.
//!
//! Persistence, transport, and identity resolution are the caller's
//! concern: the caller loads a [`model::TodoAccount`], invokes exactly one
//! operation, and persists the result (or discards it on failure).

pub mod laws;
pub mod model;
pub mod ops;

pub use model::CustomError;
pub use model::TodoAccount;
pub use model::TodoItem;
pub use ops::create_todo_item;
pub use ops::delete_todo_item;
pub use ops::initialize_todo_account;
pub use ops::mark_todo_status;
pub use ops::update_todo_description;
