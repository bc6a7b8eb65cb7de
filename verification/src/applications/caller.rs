//! APPLICATIONS/CALLER: call home with bidirectional audio.

use vstd::prelude::*;
use super::Page;

verus! {

/// Opening the caller shows the call page.
pub fn open_app() -> (r: Page)
    ensures
        r == Page::Call,
{
    Page::Call
}

} // verus!
