//! The first-run screen: a trial expansion the user can type to see espanso work, kept in a file
//! of its own beside `base.yml` so that it is never one of the user's expansions.

use vstd::prelude::*;
use crate::text::{owned, push_str};

verus! {

/// What the trial expansion is typed as. Espanso's own example, kept so that someone who later
/// reads espanso's documentation meets the same one.
pub const PROBE_TRIGGER: &'static str = ":espanso";

/// What the trial expansion produces.
pub const PROBE_REPLACE: &'static str = "Hi there!";

/// The name of the file, in the match folder, that holds the trial expansion.
pub const PROBE_FILE_NAME: &'static str = "onboarding.yml";

/// The contents of the trial file: a note saying whose it is, and the one match.
pub open spec fn probe_file_spec() -> Seq<char> {
    "# Temporary — created by EspansoManager for its first-run screen and deleted as soon\n"@
        + "# as that screen is finished with. Nothing here is yours; edit base.yml instead.\n"@
        + "matches:\n- trigger: '"@ + PROBE_TRIGGER@ + "'\n  replace: "@ + PROBE_REPLACE@ + "\n"@
}

/// The contents of the trial file.
pub fn probe_file_body() -> (r: String)
    ensures
        r@ == probe_file_spec(),
{
    let mut s = owned("# Temporary — created by EspansoManager for its first-run screen and deleted as soon\n");
    push_str(&mut s, "# as that screen is finished with. Nothing here is yours; edit base.yml instead.\n");
    push_str(&mut s, "matches:\n- trigger: '");
    push_str(&mut s, PROBE_TRIGGER);
    push_str(&mut s, "'\n  replace: ");
    push_str(&mut s, PROBE_REPLACE);
    push_str(&mut s, "\n");
    s
}

/// Which optional font faces could not be found when the interface's fonts were installed.
#[derive(Debug, Clone, Copy, PartialEq, Eq, Structural)]
pub struct FontStatus {
    /// The Devanagari face was wanted (Hindi is the language) and none was on the machine.
    pub devanagari_missing: bool,
    /// Neither symbols face was there. Nothing warns about it: both are core Windows faces.
    pub symbols_missing: bool,
}

} // verus!
