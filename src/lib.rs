//! A small FTP server library (RFC 959 subset): the control-channel line
//! framer, command parser and reply encoder, the host-port codec, virtual path
//! resolution beneath each user's root, and the protocol interpreter as a state
//! machine whose outside work (sockets, files) is left to the caller.
pub mod app;
pub mod command;
pub mod config;
pub mod framer;
pub mod hostport;
pub mod path;
pub mod reply;
pub mod session;
pub mod text;
pub mod user;
