//! Decision core of a bot that answers mentions on a Pubky feed.
//!
//! The library holds the logic of one polling tick as verified code: the
//! stored checkpoint record, the routing of notifications by kind, the
//! resolution of a post's text, the length cap on replies, and the state
//! machine that orders these steps. Network and storage calls are made by the
//! program around it, which hands their results back as events.

pub mod checkpoint;
pub mod notification;
pub mod content;
pub mod poller;
