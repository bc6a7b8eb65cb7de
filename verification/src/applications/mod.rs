//! The launcher's applications.

use vstd::prelude::*;

pub mod caller;
pub mod duck_tv;
pub mod gallery;
pub mod zigduck;

verus! {

/// The pages of the user interface that applications open.
#[derive(Debug, Clone, Copy, PartialEq, Eq, Structural)]
pub enum Page {
    DuckTv,
    Call,
    Gallery,
    Zigduck,
}

/// DESCRIBES AN APPLICATION: its name, a description, the page that
/// launching it opens, and its PNG icon.
pub struct AppDescriptor {
    pub name: &'static str,
    pub description: &'static str,
    pub launch: Page,
    pub icon: &'static [u8],
}

} // verus!
