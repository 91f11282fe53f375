//! A polling-and-fan-out pipeline for a region-scoped environmental-intensity
//! forecast: the periodic fetch is decoded into a typed result, the latest
//! snapshot is handed to a single-slot coalescing channel, and independent
//! consumers — a message-broker publisher and a social-post announcer — each
//! read it on their own cadence. The decoding grammar, the channel semantics
//! and every per-tick decision are stated in contracts and proved; the
//! network, broker and timer plumbing around them stays outside.

pub mod announcer;
pub mod carbon_date_format;
pub mod channel;
pub mod digits;
pub mod intensity;
pub mod json;
pub mod poller;
pub mod publisher;
pub mod region;
pub mod regional;
