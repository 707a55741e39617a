//! Verified core of a build-artifact delivery tool.
//!
//! The library holds the decision logic of a pipeline that announces a build
//! artifact in a chat channel: the three-step upload protocol (request a slot,
//! transfer the bytes, finalize), the bounded poll loop against a distribution
//! relay, the optional commit annotation, and the path and string helpers the
//! pipeline composes its requests from.  The surrounding binary performs the
//! HTTP calls, sleeps and file reads, and feeds each response back into the
//! verified step functions.

pub mod commit;
pub mod diawi;
pub mod numbers;
pub mod paths;
pub mod slack_client;
pub mod slack_message;
pub mod slack_response;
pub mod slack_upload;
