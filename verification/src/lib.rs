//! The logic of a bridge between a browser's microphone and loudspeaker, reached over
//! WebRTC, and a speech service, reached over a web socket.

pub mod base64_text;
pub mod candidate;
pub mod context;
pub mod events;
pub mod frames;
pub mod json;
pub mod messages;
pub mod pcm;
pub mod session;
pub mod signalling;
pub mod tracks;
