//! An echo bot core: given an incoming chat message, it decides whether to
//! reply and with what text. The reply is the received text behind a fixed
//! prefix. All network traffic, the update loop and process startup live
//! outside this crate; the functions here are the decisions they carry out.

pub mod config;
pub mod dispatch;
pub mod handler;

pub use config::Config;
pub use config::ConfigError;
pub use dispatch::Update;
pub use dispatch::step;
pub use handler::HandlerAction;
pub use handler::HandlerError;
pub use handler::IncomingMessage;
pub use handler::OutgoingMessage;
pub use handler::SendError;
pub use handler::complete_send;
pub use handler::handle;
pub use handler::reply_body;
