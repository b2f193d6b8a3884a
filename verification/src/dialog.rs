//! The executable-picker interface: the extension filter offered to the
//! native file dialog, and the reply handed to the frontend once the
//! dialog has closed.

use vstd::prelude::*;

verus! {

/// The reply reported when the user dismissed the dialog without picking
/// a file. The frontend recognizes exactly this string as absence.
pub open spec fn no_selection_sentinel() -> Seq<char> {
    "None"@
}

/// The file extensions the executable picker is restricted to.
pub fn executable_extensions() -> (exts: Vec<String>)
    ensures
        exts@.len() == 5,
        exts@[0]@ == "exe"@,
        exts@[1]@ == "com"@,
        exts@[2]@ == "lnk"@,
        exts@[3]@ == "cmd"@,
        exts@[4]@ == "bat"@,
{
    let mut exts: Vec<String> = Vec::new();
    exts.push("exe".to_owned());
    exts.push("com".to_owned());
    exts.push("lnk".to_owned());
    exts.push("cmd".to_owned());
    exts.push("bat".to_owned());
    exts
}

/// Folds the picker's answer into the string reply handed to the
/// frontend: the selected path itself, unchanged, when a file was picked,
/// and exactly the sentinel `"None"` when the dialog was dismissed —
/// never an empty string, never a partial path.
///
/// A picked path names an actual file, so it is never empty; that is the
/// one thing required of the caller.
pub fn dialog_reply(selection: Option<String>) -> (reply: String)
    requires
        selection matches Some(path) ==> path@.len() > 0,
    ensures
        (match selection {
            Some(path) => reply@ == path@,
            None => reply@ == no_selection_sentinel(),
        }),
        reply@.len() > 0,
{
    match selection {
        Some(path) => path,
        None => {
            proof {
                reveal_strlit("None");
            }
            "None".to_owned()
        },
    }
}

} // verus!
