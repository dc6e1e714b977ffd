//! A model of Linux process capabilities: staged capability sets for the
//! four capability kinds, batched updates applied fail-fast and in order,
//! classification queries, snapshot/restore, identity-transition planning,
//! and rendering of capability sets as numeric or symbolic text.
//!
//! The staged state lives entirely in process memory; committing it to the
//! kernel (and reading it back) is left to a thin unverified layer around
//! this crate that owns the system calls.

pub mod caps;
pub mod error;
pub mod filecap;
pub mod flags;
pub mod ident;
pub mod render;
pub mod state;
pub mod text;

pub use caps::{capability_to_name, name_to_capability, CAP_LAST_CAP};
pub use error::Error;
pub use filecap::{decode_file_caps, encode_file_caps, FILE_CAPS_LEN};
pub use ident::{change_id_plan, IdStep};
pub use render::{print_caps_numeric, print_caps_text};
pub use state::{
    bounding_to_drop, clear, fill, have_capabilities, have_capability,
    have_permitted_capabilities, load_process_sets, restore_state, save_state, setpid, update,
    updatev, CapngState, StagedState, CAP_MASK_ALL,
};
pub use flags::{Action, CUpdate, Capability, Flags, HaveCapsResult, Pid, Print, Scope, Type};
