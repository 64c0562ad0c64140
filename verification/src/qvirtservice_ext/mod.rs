//! The virtual machine service with restart of subsystems and automatic shutdown.
pub mod virtualization_service;
