//! The clipboard read decision.
//!
//! The platform hands over the string objects the pasteboard currently
//! holds, already decoded — or nothing when the pasteboard could not be
//! read at all. An empty pasteboard means "no content", which is not an
//! error; otherwise the first object's text is the content. No write
//! path exists: the clipboard is read-only from the toolkit's side.

use vstd::prelude::*;

verus! {

/// The content a pasteboard's string objects decode to: nothing when no
/// string object is present, otherwise the first object's text.
pub open spec fn spec_clipboard_content(strings: Seq<String>) -> Option<String> {
    if strings.len() == 0 {
        Option::None
    } else {
        Option::Some(strings[0])
    }
}

/// Decides what a pasteboard read returns: no content for a failed read
/// or an empty pasteboard, otherwise the first string object.
pub fn clipboard_content(objects: Option<Vec<String>>) -> (r: Option<String>)
    ensures
        objects matches Option::Some(strings) ==> r == spec_clipboard_content(strings@),
        objects is None ==> r is None,
{
    match objects {
        Option::None => Option::None,
        Option::Some(mut strings) => {
            if strings.len() == 0 {
                Option::None
            } else {
                Option::Some(strings.remove(0))
            }
        },
    }
}

} // verus!
