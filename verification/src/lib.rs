//! Platform-aware directory layout for an application's persistent state.
//!
//! The directories are laid out from path templates in which placeholders stand
//! for the roots: the user's home directory, the data directory and the local
//! directory. The platform decides which templates are used and under what
//! identity the operating system is asked for the roots.

pub mod directories;
pub mod helpers;
pub mod legacy;
pub mod platform;
pub mod roots;
pub mod text;

pub use directories::{Directories, Layout};
pub use legacy::{geth, parity};
pub use platform::Platform;
pub use roots::{default_data_path, default_hypervisor_path, default_local_path};
