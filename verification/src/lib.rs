//! Verified model of the container, device and key/value objects of a
//! Podman desktop client, together with the decisions its container
//! details page takes.

pub mod text;
pub mod status;
pub mod param;
pub mod container;
pub mod device;
pub mod key_val;
pub mod details_page;
