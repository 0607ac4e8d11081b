//! Decision logic of a chat bot that converts audio attachments into voice
//! notes. The bot's outward behaviour per message is a short pipeline:
//! download the attachment, run a transcoder, upload the result, clean up.
//! Everything that touches the network, the filesystem or a child process is
//! driven from outside; this crate holds the verified part: the configuration
//! check, the filename derivation, the fixed transcoder command line, and the
//! per-message state machine that decides, step by step, which effect comes
//! next.

pub mod config;
pub mod handler;
pub mod message;
pub mod naming;
pub mod runs;
pub mod transcode;
