//! Operating systems and sets of them.

use vstd::prelude::*;

verus! {

/// A recognised operating system and word size.
#[allow(non_camel_case_types)]
#[derive(Clone, Copy, Debug, PartialEq, Eq, Structural)]
pub enum Os {
    Linux32,
    Linux64,
    Windows32,
    Windows64,
    Windows10_32,
    Windows10_64,
    OSX32,
    OSX64,
    MacOS32,
    MacOS64,
}

pub const ALL_BITS: u16 = 0x3ff;

/// Every recognised system, in table order.
pub open spec fn all_os() -> Seq<Os> {
    seq![
        Os::Linux32,
        Os::Linux64,
        Os::Windows32,
        Os::Windows64,
        Os::Windows10_32,
        Os::Windows10_64,
        Os::OSX32,
        Os::OSX64,
        Os::MacOS32,
        Os::MacOS64,
    ]
}

impl Os {
    pub open spec fn bit(self) -> u16 {
        match self {
            Os::Linux32 => 0x1,
            Os::Linux64 => 0x2,
            Os::Windows32 => 0x4,
            Os::Windows64 => 0x8,
            Os::Windows10_32 => 0x10,
            Os::Windows10_64 => 0x20,
            Os::OSX32 => 0x40,
            Os::OSX64 => 0x80,
            Os::MacOS32 => 0x100,
            Os::MacOS64 => 0x200,
        }
    }

    /// The name under which library natives are listed for this system.
    pub open spec fn name_spec(self) -> Seq<char> {
        match self {
            Os::Linux32 | Os::Linux64 => "linux"@,
            Os::Windows32 | Os::Windows64 | Os::Windows10_32 | Os::Windows10_64 => "windows"@,
            _ => "osx"@,
        }
    }

    /// The word size substituted for `${arch}`.
    pub open spec fn arch_spec(self) -> Seq<char> {
        match self {
            Os::Linux32 | Os::Windows32 | Os::Windows10_32 | Os::OSX32 | Os::MacOS32 => "32"@,
            _ => "64"@,
        }
    }

    pub fn mask(self) -> (r: u16)
        ensures
            r == self.bit(),
    {
        match self {
            Os::Linux32 => 0x1,
            Os::Linux64 => 0x2,
            Os::Windows32 => 0x4,
            Os::Windows64 => 0x8,
            Os::Windows10_32 => 0x10,
            Os::Windows10_64 => 0x20,
            Os::OSX32 => 0x40,
            Os::OSX64 => 0x80,
            Os::MacOS32 => 0x100,
            Os::MacOS64 => 0x200,
        }
    }

    pub fn name(self) -> (r: &'static str)
        ensures
            r@ == self.name_spec(),
    {
        match self {
            Os::Linux32 | Os::Linux64 => "linux",
            Os::Windows32 | Os::Windows64 | Os::Windows10_32 | Os::Windows10_64 => "windows",
            _ => "osx",
        }
    }

    pub fn arch(self) -> (r: &'static str)
        ensures
            r@ == self.arch_spec(),
    {
        match self {
            Os::Linux32 | Os::Windows32 | Os::Windows10_32 | Os::OSX32 | Os::MacOS32 => "32",
            _ => "64",
        }
    }
}

/// A set of recognised systems, one bit each.
#[derive(Clone, Copy, Debug, PartialEq, Eq, Structural)]
pub struct OsSelector {
    pub bits: u16,
}

impl OsSelector {
    pub open spec fn has(self, os: Os) -> bool {
        self.bits & os.bit() != 0
    }

    /// Whether the two sets share a system.
    pub open spec fn meets(self, other: OsSelector) -> bool {
        self.bits & other.bits != 0
    }

    pub fn empty() -> (r: OsSelector)
        ensures
            r.bits == 0,
    {
        OsSelector { bits: 0 }
    }

    pub fn all() -> (r: OsSelector)
        ensures
            r.bits == ALL_BITS,
    {
        OsSelector { bits: ALL_BITS }
    }

    pub fn single(os: Os) -> (r: OsSelector)
        ensures
            r.bits == os.bit(),
    {
        OsSelector { bits: os.mask() }
    }

    /// This set with `os` added.
    pub fn with(self, os: Os) -> (r: OsSelector)
        ensures
            r.bits == self.bits | os.bit(),
    {
        OsSelector { bits: self.bits | os.mask() }
    }

    pub fn union(self, other: OsSelector) -> (r: OsSelector)
        ensures
            r.bits == self.bits | other.bits,
    {
        OsSelector { bits: self.bits | other.bits }
    }

    pub fn contains(&self, os: Os) -> (r: bool)
        ensures
            r == self.has(os),
    {
        self.bits & os.mask() != 0
    }

    pub fn intersects(&self, other: &OsSelector) -> (r: bool)
        ensures
            r == self.meets(*other),
    {
        self.bits & other.bits != 0
    }
}

} // verus!
