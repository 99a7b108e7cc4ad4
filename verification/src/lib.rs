//! A two-party escrow for a single unit of work: an employer deposits the pay
//! into a custody account at job creation, and the funds release to the worker
//! only once both parties have approved. Either party may instead reject the
//! job, which locks the funds in custody permanently.

pub mod errors;
pub mod job;
pub mod laws;
pub mod manager;
pub mod state;

pub use errors::EscrowError;
pub use job::Job;
pub use job::JobStatus;
pub use manager::EscrowManager;
