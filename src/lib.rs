//! A load-balancing request/reply broker: clients send requests, workers
//! announce that they are ready, and each request goes to the worker that has
//! been waiting longest; each reply goes back to the client named in it.
pub mod broker;
pub mod codec;
pub mod queue;
