//! A client for the Telegram bot API: request addressing, response envelope
//! decoding, the timeout race, and the long-polling update loop, with the
//! decisions of each stated and proved. Performing the HTTP calls and
//! driving the loop is left to the caller.
pub mod api;
pub mod body;
pub mod envelope;
pub mod error;
pub mod stream;
pub mod timeout;
pub mod url;
pub mod webhook;

pub use api::Api;
pub use error::{ApiError, ResponseParameters};
pub use stream::UpdatesStream;
pub use webhook::WebhookStream;
