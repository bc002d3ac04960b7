use vstd::prelude::*;

verus! {

/// Build information describing a virtual machine.
#[derive(Debug)]
pub struct VMInfo {
    /// The machine's version number.
    pub version: u32,
    /// Whether this build is experimental.
    pub experimental: bool,
    /// The machine's name.
    pub name: &'static str,
    /// The machine's authors.
    pub authors: &'static str,
}

} // verus!
