//! The platform that a component is installed for.

use vstd::prelude::*;

verus! {

/// A target platform. It renders in two ways: as a target triple, and as the
/// shorter name under which release assets are published.
#[derive(Clone, Debug, PartialEq, Eq)]
pub struct Platform {
    target_triple: String,
    name: String,
}

/// The mathematical content of a `Platform`: its two renderings.
pub struct PlatformView {
    pub target_triple: Seq<char>,
    pub name: Seq<char>,
}

impl View for Platform {
    type V = PlatformView;

    closed spec fn view(&self) -> PlatformView {
        PlatformView { target_triple: self.target_triple@, name: self.name@ }
    }
}

impl Platform {
    /// The platform with the given target triple and display name.
    pub fn new(target_triple: &str, name: &str) -> (platform: Platform)
        ensures
            platform@.target_triple == target_triple@,
            platform@.name == name@,
    {
        Platform { target_triple: String::from_str(target_triple), name: String::from_str(name) }
    }

    /// The target triple, the same at every call.
    pub fn target_triple(&self) -> (text: &str)
        ensures
            text@ == self@.target_triple,
    {
        self.target_triple.as_str()
    }

    /// The display name, the same at every call.
    pub fn to_string(&self) -> (text: String)
        ensures
            text@ == self@.name,
    {
        self.name.clone()
    }
}

} // verus!
