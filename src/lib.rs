//! Supervision of one local backend service: port choice, launch command,
//! lifecycle state of the tracked child process, and health probing.

pub mod decimal;
pub mod launch;
pub mod port;
pub mod health;
pub mod supervisor;
