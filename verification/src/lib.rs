//! The publication path of a publish/subscribe layer.
//!
//! A [`publisher::Publisher`] turns a put or a delete into a sample, attaches
//! the quality-of-service settings it was configured with, and describes the
//! two hand-offs that follow: one to the routing layer, one to the subscribers
//! of the same process. The library decides; the caller performs the hand-offs
//! on its session.

pub mod builder;
pub mod dispatch;
pub mod encoding;
pub mod publisher;
pub mod qos;
pub mod metadata;
pub mod sample;
