//! Request/response over message queues, synchronised by correlation id.
//!
//! A caller publishes a command on a topic and waits for the one reply that
//! carries the same correlation id; a listener on the reply topic routes each
//! reply to the caller that subscribed for its id.
pub mod compute;
pub mod consumer;
pub mod correlation;
pub mod datas;
pub mod example;
pub mod listener;
pub mod listener_synchronizer;
pub mod producer;
pub mod queue_synchronizer;
pub mod read_write;
pub mod settings;
pub mod subscriber;
pub mod text;
