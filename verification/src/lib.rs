//! gRPC without `.proto` files: methods and messages are declared in Rust,
//! and messages travel as JSON.

use vstd::prelude::*;

pub mod api;
pub mod client;
pub mod codec;
pub mod example;
pub mod server;
pub mod status;
mod utils;

verus! {

/// A remote procedure: its route, whether each direction is streamed, and the
/// types of the messages it exchanges.
pub trait Method where Self: Sized + Send + Sync + 'static {
    /// The name under which the method is served and called.
    const ID: &'static str;

    type IsRequestStreamed: Bool;
    type IsResponseStreamed: Bool;

    type Request: Send + 'static;
    type Response: Send + 'static;
}

/// Type-level `true`.
pub struct True;

/// Type-level `false`.
pub struct False;

/// A type-level boolean: implemented by [`True`] and [`False`] only.
pub trait Bool {
    /// This method prohibits implementation of this trait outside of its defining crate.
    fn _not_implementable<P: utils::private::Private>();
}

impl Bool for True {
    fn _not_implementable<P: utils::private::Private>() {
    }
}

impl Bool for False {
    fn _not_implementable<P: utils::private::Private>() {
    }
}

} // verus!
