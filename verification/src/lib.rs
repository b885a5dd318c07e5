//! Verified core of the CloudMemo note-taking system: the logic of the sync
//! server and of the desktop client, without their I/O.
pub mod client;
pub mod clock;
pub mod codec;
pub mod server;
pub mod text;
