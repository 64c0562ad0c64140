//! The virtual machine service.
pub mod boot;
pub mod config;
pub mod parameters;
pub mod virtual_machine;
pub mod virtualization_service;
