//! Build-time binding generation for remote inference endpoints.
//!
//! Given the description of an endpoint's callable operations, the library
//! derives the names, parameter signatures and method variants of a typed
//! client, and says in contracts what each of them is.

pub mod text;
pub mod ident;
pub mod ident_laws;
pub mod naming;
pub mod schema;
pub mod options;
pub mod signature;
pub mod binding;
pub mod binding_laws;
pub mod progress;
pub mod progress_laws;

pub use binding::gradio_api;
pub use ident::{to_camel_case, to_snake_case};
pub use options::resolve_options;
pub use progress::{on_event, show_progress};
