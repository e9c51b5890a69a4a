//! Decision logic of a build worker: a job names a repository, a branch, shell
//! commands and output files; the worker clones the repository into a fresh
//! workspace, runs the commands until one fails, gathers the outputs and removes
//! the workspace. Everything here is a function of plain values: the caller
//! performs each request (create a directory, start a process, read a file) and
//! hands back what happened.

pub mod job;

pub mod workspace;
pub mod paint;
pub mod host;
pub mod log;
pub mod fetcher;
pub mod runner;
pub mod collector;
pub mod orchestrator;
pub mod runs;
pub mod laws;
