//! A verified fan-out tee: one reader splits an input stream into blocks and
//! broadcasts every block, in order, to any number of registered receivers,
//! each of which drains the identical block sequence independently.

pub mod chunks;
pub mod errors;
pub mod job;
pub mod pipe;
pub mod reader;
pub mod status;
pub mod writer;

mod bus_link;
