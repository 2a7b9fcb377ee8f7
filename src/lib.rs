//! The "open file" finder of an editor: a background-built path index,
//! a query buffer and a selectable list of ranked matches.
pub mod index;
pub mod open_mode;
pub mod selectable_vec;

pub use open_mode::{results_from_matches, DisplayablePath, OpenMode, OpenModeIndex, SearchSelectConfig};
pub use selectable_vec::SelectableVec;
