//! The screens the main window can show.

use vstd::prelude::*;
use crate::edit_form::EditState;

verus! {

/// The screen the window shows. There is exactly one of these in the program; the edit screen
/// carries the form being filled in.
pub enum View {
    List,
    Edit(EditState),
    Settings,
    Tips,
    Onboarding,
}

} // verus!
