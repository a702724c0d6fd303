//! The decision core of a desktop call companion: what it listens for, what it
//! sends to the speech-to-text service, what it answers the web app, and who it
//! trusts.
pub mod app_state;
pub mod audio;
pub mod auth;
pub mod deepgram;
pub mod json;
pub mod link;
pub mod server;
pub mod server_laws;
pub mod stream;
pub mod stream_laws;
pub mod text;
pub mod transcript;
pub mod transcript_laws;
pub mod vad;
pub mod vad_laws;
pub mod window;

pub use app_state::AppState;
pub use auth::AuthInfo;
