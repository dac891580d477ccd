//! Requests of a command-line client for the Pushbullet API.
//!
//! A command, as read from the command line, is turned into the description of one
//! HTTP request; an invocation is led step by step from the stored access token, over
//! the upload of a file where a push carries one, to the response that is printed.
//! Nothing here touches the network or the disk: a driver does what the pipeline asks
//! for and reports back.

pub mod command;
pub mod decode;
pub mod json;
pub mod laws;
pub mod pipeline;
pub mod request;
pub mod schema;
pub mod text;
