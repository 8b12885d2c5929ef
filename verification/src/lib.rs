//! Decision logic of a render-farm worker: which requests to make, which
//! genome file a job needs, how the renderer is invoked, what is uploaded,
//! and how the polling loop moves from one state to the next.

pub mod batch;
pub mod cache;
pub mod coordinator;
pub mod errors;
pub mod model;
pub mod protocol;
pub mod render;
pub mod text;
pub mod upload;
pub mod worker;
