//! The payload that runs in the virtual machine.
pub mod test_payload;
