//! Core of a concurrent URL-fetch pipeline.
//!
//! Batches of URLs arrive as [`messages::Command`] values; each URL is
//! fetched and its outcome is reported back as a [`messages::CommandResult`].
//! This crate holds the verified logic of that pipeline: the message types,
//! the formatting of fetch outcomes, the parsing of submitted URL lines, the
//! bounded drain queue that provides admission control, and the dispatcher
//! and drain-manager state machines. The surrounding I/O (HTTP transport,
//! terminal front end, task scheduling) lives outside this crate and drives
//! these components through their contracts.

pub mod batch;
pub mod messages;
pub mod output;
pub mod parse;
pub mod pipeline;
pub mod queue;
