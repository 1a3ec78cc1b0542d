//! Server-side adapter for a chat-messaging platform's webhooks: channels are
//! registered with their secrets and handlers, inbound deliveries are
//! authenticated by an HMAC-SHA256 signature, parsed into typed events, and
//! dispatched to the channel's handler; replies go back out through a
//! caller-supplied transport with a lazily issued access token.

pub mod api;
pub mod channel;
pub mod event;
pub mod json;
pub mod oauth;
pub mod reply;
pub mod request;
mod signing;

pub use api::{MessagingApi, MessagingError, MessagingResult};
pub use channel::{Channel, HandleWebhookEvent};
pub use signing::hmac_sha256_base64;
pub use signing::lemma_verify_accepts_own_signature;
pub use signing::verify;
