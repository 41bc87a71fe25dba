//! Core of a live-chat aggregator: a two-tier badge cache with fallback
//! resolution, FIFO outbound queues, and the decision logic of the polling
//! loops that feed a presentation layer.

pub mod badge;
pub mod color;
pub mod credentials;
pub mod delivery;
pub mod events;
pub mod mock;
pub mod queue;
pub mod resolver;
pub mod secrets;
pub mod string_map;
pub mod youtube;
