//! Verified core of a command-line client for a remote project/task-tracking
//! service: status and issue-kind codecs, request building, response
//! classification, and the task transition rules for create and edit.

pub mod classify;
pub mod config;
pub mod digits;
pub mod enums;
pub mod inputs;
pub mod project;
pub mod request;
pub mod response;
pub mod service;
pub mod task;
pub mod text;
