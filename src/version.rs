//! Schema versions of the form `major.minor.patch-build`.

use vstd::prelude::*;

verus! {

/// A schema version.
#[derive(Clone, Copy, Debug, PartialEq, Eq, Structural)]
pub struct Version {
    pub major: u32,
    pub minor: u32,
    pub patch: u32,
    pub build_number: u32,
}

impl Version {
    pub fn new(major: u32, minor: u32, patch: u32, build_number: u32) -> (r: Version)
        ensures
            r == (Version { major, minor, patch, build_number }),
    {
        Version { major, minor, patch, build_number }
    }

    /// Whether any one component of this version is greater than the same
    /// component of `other`.
    pub fn is_after(&self, other: &Version) -> (r: bool)
        ensures
            r == (self.major > other.major || self.minor > other.minor || self.patch > other.patch
                || self.build_number > other.build_number),
    {
        if self.major > other.major {
            true
        } else if self.minor > other.minor {
            true
        } else if self.patch > other.patch {
            true
        } else {
            self.build_number > other.build_number
        }
    }

    /// Whether any one component of this version is less than the same
    /// component of `other`.
    pub fn is_before(&self, other: &Version) -> (r: bool)
        ensures
            r == (self.major < other.major || self.minor < other.minor || self.patch < other.patch
                || self.build_number < other.build_number),
    {
        if self.major < other.major {
            true
        } else if self.minor < other.minor {
            true
        } else if self.patch < other.patch {
            true
        } else {
            self.build_number < other.build_number
        }
    }
}

} // verus!
