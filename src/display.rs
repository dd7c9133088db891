//! One renderer per column. Each turns an entry into styled spans.
pub mod header;
pub mod modified;
pub mod name;
pub mod owner;
pub mod permissions;
pub mod size;

pub use header::HeaderDisplay;
pub use modified::ModifiedDisplay;
pub use name::{LinkTarget, NameDisplay};
pub use owner::OwnerDisplay;
pub use permissions::{PermissionsDisplay, WindowsPermissions};
pub use size::SizeDisplay;
