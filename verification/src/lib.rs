pub mod adapters;
pub mod domain;
pub mod ports;
pub mod services;
