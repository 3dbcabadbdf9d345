//! RADIUS, EAP and CHAP packet handling: verified parsing and writing, identifier pools and
//! stores, and the pipelines that check, read, answer and sign packets.

pub mod bytes;
pub mod chap;
pub mod connector;
pub mod digest;
pub mod eap;
pub mod handler;
pub mod identifier;
pub mod peer;
pub mod pipeline;
pub mod pipeline_phase;
pub mod radius;
pub mod tag_length_value;
pub mod transformer;
