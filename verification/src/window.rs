//! The main window: its label in the static configuration and the title it is given.

use vstd::prelude::*;

verus! {

/// The label under which the main window is declared.
pub const MAIN_WINDOW_LABEL: &'static str = "main";

/// The title that the main window is given at setup.
pub const PRODUCT_TITLE: &'static str = "Regia - Document Intelligence";

/// A window as the application's static configuration declares it.
#[derive(Debug)]
pub struct WindowDecl {
    pub label: String,
    pub title: String,
}

/// `windows` declares a window under `label`.
pub open spec fn declares(windows: Seq<WindowDecl>, label: Seq<char>) -> bool {
    exists|i: int| 0 <= i < windows.len() && (#[trigger] windows[i]).label@ == label
}

/// `index` is the first place in `windows` at which a window is declared under `label`.
pub open spec fn is_first(windows: Seq<WindowDecl>, label: Seq<char>, index: int) -> bool {
    &&& 0 <= index < windows.len()
    &&& windows[index].label@ == label
    &&& forall|j: int| 0 <= j < index ==> (#[trigger] windows[j]).label@ != label
}

/// Looks `label` up among the declared windows and returns the first place it is
/// declared at, or `None` if it is not declared.
pub fn find_window(windows: &Vec<WindowDecl>, label: &str) -> (found: Option<usize>)
    ensures
        match found {
            Some(index) => is_first(windows@, label@, index as int),
            None => !declares(windows@, label@),
        },
{
    let wanted: String = label.to_owned();
    let mut i: usize = 0;
    while i < windows.len()
        invariant
            i <= windows@.len(),
            wanted@ == label@,
            forall|j: int| 0 <= j < i ==> (#[trigger] windows@[j]).label@ != label@,
        decreases windows@.len() - i,
    {
        if windows[i].label == wanted {
            return Some(i);
        }
        i += 1;
    }
    None
}

} // verus!
