//! The client side of a length-prefixed request/response protocol: the frame
//! codec, the command model, the table that matches responses to requests, and
//! the decisions of the tasks that keep one connection alive.

pub mod command;
pub mod frame;
pub mod pipeline;
pub mod proxy;
pub mod table;
pub mod util;
