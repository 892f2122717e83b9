//! State machine behind a small food-product catalog browser: search by name,
//! open one product, and fold the outcomes of background lookups into what the
//! screen shows.
//!
//! The library owns the decisions and none of the machinery. A user action
//! changes the [`Controller`] and may hand back a [`FetchRequest`]; the caller
//! runs that lookup wherever it likes, turns its outcome into a [`Message`],
//! and delivers the messages that have arrived with
//! [`Controller::poll_messages`]. [`Controller::screen`] says what to draw.

pub mod controller;
pub mod fetch;
pub mod laws;
pub mod message;
pub mod product;
pub mod screen;
pub mod state;

pub use controller::Controller;
pub use fetch::{FetchError, FetchRequest};
pub use message::Message;
pub use product::{Product, ProductDetails};
pub use screen::{DetailPanel, Screen};
pub use state::ViewState;
