//! Webhook handling for pull-request events: authenticates a notification by
//! its keyed SHA-1 signature, decides whether the pull request's head branch
//! is to be deleted, and renders the counter lines that report the outcome.

pub mod github;
pub mod handler;
pub mod metric;
pub mod signature;
pub mod text;
