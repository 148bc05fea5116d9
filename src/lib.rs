//! Work distribution and solution routing core of a mining controller.
//!
//! Jobs become work engines, work engines are broadcast to hardware workers,
//! workers pull assignments and report solutions, and solutions are routed back
//! to the client that supplied the job.

pub mod hashing;
pub mod job;
pub mod work;
pub mod engine;
pub mod channel;
pub mod hierarchy;
pub mod router;
pub mod hub;
pub mod uio;
pub mod test_utils;
pub mod block_mining;
