//! Host resource monitoring: the verified core of a metrics service and of
//! the client session that watches it.

pub mod window;
pub mod bytesize;
pub mod protocol;
pub mod task;
pub mod session;
pub mod sample;
pub mod service;
pub mod plot;
