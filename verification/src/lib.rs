//! An arena-backed container for tree-shaped values whose fields point at
//! data the container itself owns.
//!
//! A caller supplies a construction function that, given a live [`arena::Arena`],
//! builds a value of some shape; the resulting container bundles the
//! value together with its backing store behind a single handle with one owner
//! and one drop.  Interior data (strings, here) is reached through stable
//! [`arena::StrRef`] handles that stay valid however much the store grows and
//! wherever the container is moved, because a handle names a slot of the store
//! rather than a machine address.

pub mod arena;
pub mod boxed;
pub mod shapes;

pub use arena::Arena;
pub use arena::StrRef;
pub use boxed::ArenaBox;
pub use boxed::ArenaEq;
pub use boxed::Describe;
pub use boxed::MutHandle;
pub use boxed::WithLifetime;
