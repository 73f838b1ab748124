//! Validation of directory declarations and their rendering into rpm file
//! options for empty, owned directories inside a package.

pub mod value;
pub mod mode;
pub mod error;
pub mod backend;
pub mod dir_info;
