//! The core of a small todo service.
//!
//! The service keeps todos in one table and offers them over HTTP: list,
//! read, create, delete. This library holds what the service decides: the
//! statements it sends to the store, what each statement does to the table,
//! and the response to each request. Talking to the database and to the
//! network is left to the program around it.
//!
//! - [`entity`]: the todo, and the bodies of requests and failures
//! - [`statement`]: the statements, with their parameters bound beside them
//! - [`table`]: the table as a contract sees it, and what the statements do
//!   to it
//! - [`repository`]: what the repository returns to the handlers
//! - [`handlers`]: the response of each endpoint to what the repository
//!   returned
//! - [`memory`]: a store in memory that can stand in for the database
//! - [`service`]: the service as a whole, over the store in memory
//! - [`routes`]: the methods and paths of the endpoints, and the cross-origin
//!   policy
//! - [`status`], [`decimal`], [`config`]: status codes, decimal texts, fixed
//!   settings

pub mod config;
pub mod decimal;
pub mod entity;
pub mod handlers;
pub mod memory;
pub mod repository;
pub mod routes;
pub mod service;
pub mod statement;
pub mod status;
pub mod table;
