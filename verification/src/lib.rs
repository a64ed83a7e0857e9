//! Decision logic of a chat bot that relays crowdfunding links into
//! authorised channels and archives threads that have gone quiet.
//!
//! Everything here is a function from values to values. The surrounding
//! program talks to the chat platform and to the web, and hands in what
//! came of it:
//!
//! - [`feed`] finds the link and the channel mention of a message and
//!   leads the relay of the link, step by step;
//! - [`feed::kickstarter`] tells campaign links from others and reads the
//!   preview of a campaign from its page;
//! - [`thread_cleaner`] picks the threads to archive and leads the cycle of
//!   scanning and sleeping;
//! - [`commands`] holds what the commands are set up with;
//! - [`text`] compares strings.

pub mod commands;
pub mod feed;
pub mod text;
pub mod thread_cleaner;
