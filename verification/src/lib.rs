//! Transport selection and lifecycle for a single RPC service host.
//!
//! A [`server::Server`] owns a socket URL, a one-shot shutdown
//! trigger/listener pair, and a table of registered routes. Starting it
//! resolves the URL into the parameters of exactly one transport binder
//! (TCP, a path-addressed Unix domain socket, or a Unix domain socket
//! inherited as a file descriptor) and steps the server's lifecycle state
//! machine; an embedding runs the chosen binder until the shutdown
//! listener resolves.

pub mod address;
pub mod error;
pub mod server;

pub use address::Capabilities;
pub use address::SocketUrl;
pub use address::Transport;
pub use error::ServerError;
pub use server::Server;
pub use server::ServerState;
