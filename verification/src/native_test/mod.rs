//! The client that runs the test payload in a virtual machine.
pub mod session;
pub mod test_instance;
pub mod timeouts;
pub mod vm_client_lib;
