//! The core of an operator's tool that keeps short-lived cloud credentials and
//! builds an inventory of the container images that run in each cluster.
//!
//! Nothing here reads a file, asks the operator or calls the network. The
//! credential broker and the discovery are functions from what the outside
//! has handed in to what is to be done next; the caller runs the loop.

pub mod clock;
pub mod config;
pub mod credentials;
pub mod display;
pub mod ecs;
pub mod errors;
pub mod grammar;
pub mod loading;
pub mod names;
pub mod profiles;
pub mod table;
