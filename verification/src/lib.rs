//! Provisioning of the `rumdl` language server for an editor.
//!
//! The editor asks for a binary to launch. One may be on the command path of
//! the project; one may be left from an earlier installation; otherwise the
//! latest release is fetched for the platform at hand, unpacked into a
//! directory of its own, and the versions it replaces are removed.
//!
//! This crate holds the decisions and none of the effects. [`Rumdl`] walks
//! through the phases of a resolution; in each phase it names the one thing
//! it needs from its host (a lookup, a download, a removal) and decides on
//! the answer how to go on. The pieces it decides with stand on their own:
//! the choice of a release asset in [`release`], the layout of the
//! installation directory in [`layout`], the errors in [`error`]. What holds
//! of every resolution, whatever the host answers, is stated and proved in
//! [`guarantees`].

pub mod binary;
pub mod error;
pub mod guarantees;
pub mod layout;
pub mod plan;
pub mod platform;
pub mod protocol;
pub mod provision;
pub mod release;
pub mod text;

pub use crate::provision::Rumdl;
