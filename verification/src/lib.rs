//! Core of the Kafka inspector: the cluster metadata model, the decisions of
//! the background runtime and of the desktop back end, and the text shown in
//! the topics table.

pub mod backend;
pub mod decimal;
pub mod metadata;
pub mod rt;
pub mod view;

pub use crate::metadata::{ConsumerParams, Metadata, Topic, TopicListing};
