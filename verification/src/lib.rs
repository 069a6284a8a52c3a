//! A conformance harness for two backends of one driver interface.
//!
//! The same scenario is run against a reimplemented driver stack and against
//! the vendor's native driver; what each backend answered is recorded call by
//! call, judged against the scenario's expectations, and compared between the
//! two backends.
//!
//! - [`result`] and [`handle`] hold the values that cross the interface.
//! - [`call`] holds the record of one call.
//! - [`driver`] holds the interface itself, [`notcuda`] and [`cuda`] the two
//!   backends of it.
//! - [`scenario`] holds the scenarios and the runner, [`parity`] the
//!   comparison of two runs, and [`generator`] the naming of one test per
//!   scenario and backend.
#![allow(non_snake_case)]

pub mod call;
pub mod cuda;
pub mod driver;
pub mod generator;
pub mod handle;
pub mod notcuda;
pub mod parity;
pub mod result;
pub mod scenario;
