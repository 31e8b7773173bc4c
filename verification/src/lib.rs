//! A job queue: a scheduler that keeps jobs in Redis, an executor that stores
//! WebAssembly tasks and runs the jobs that refer to them, and a REPL that
//! talks to both over named pipes.
pub mod proto;
pub mod storage;
pub mod frame;
pub mod decimal;
pub mod backend;
pub mod message;
pub mod scheduler;
pub mod executor;
pub mod text;
pub mod repl;
pub mod mate;
pub mod client;
pub mod cli;
pub mod npipe;
