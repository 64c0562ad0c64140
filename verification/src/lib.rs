//! Management of virtual machines on the host: the virtual machine service with
//! its configuration, kernel events and boot sequence, and the client that
//! drives the test payload of a guest.
pub mod json;
pub mod keyed;
pub mod native_test;
pub mod payload;
pub mod qvirtservice;
pub mod qvirtservice_ext;
pub mod status;
pub mod text;
pub mod uevent;
