pub mod device;
pub mod experiment;
pub mod service;
