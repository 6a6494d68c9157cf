//! Platform enumerations used by the configuration schema.
use vstd::prelude::*;

use crate::text::owned;

verus! {

/// Target operating system.
#[derive(Clone, Copy, Debug, PartialEq, Eq, Structural)]
pub enum OS {
    Linux,
    Windows,
    Macos,
}

/// C library flavour of a Linux target.
#[derive(Clone, Copy, Debug, PartialEq, Eq, Structural)]
pub enum LibC {
    Gnu,
    Musl,
}

/// CPU architecture.
#[derive(Clone, Copy, Debug, PartialEq, Eq, Structural)]
pub enum Arch {
    X86_64,
    I686,
    Aarch64,
}

/// Kind of library artifact.
#[derive(Clone, Copy, Debug, PartialEq, Eq, Structural)]
pub enum LibType {
    Static,
    Dynamic,
}

/// The architecture component of a target triple.
pub open spec fn arch_part(a: Arch) -> Seq<char> {
    match a {
        Arch::X86_64 => "x86_64"@,
        Arch::I686 => "i686"@,
        Arch::Aarch64 => "aarch64"@,
    }
}

/// The lowercase name of an operating system.
pub open spec fn os_name(os: OS) -> Seq<char> {
    match os {
        OS::Linux => "linux"@,
        OS::Windows => "windows"@,
        OS::Macos => "macos"@,
    }
}

/// The lowercase name of a C library flavour.
pub open spec fn libc_name(l: LibC) -> Seq<char> {
    match l {
        LibC::Gnu => "gnu"@,
        LibC::Musl => "musl"@,
    }
}

/// The crate type that Cargo uses for a library kind.
pub open spec fn crate_type_name(t: LibType) -> Seq<char> {
    match t {
        LibType::Dynamic => "cdylib"@,
        LibType::Static => "staticlib"@,
    }
}

impl Arch {
    /// The architecture component of a target triple (`x86_64`, `i686`, `aarch64`).
    pub fn to_triple_part(&self) -> (r: String)
        ensures
            r@ == arch_part(*self),
    {
        match self {
            Arch::X86_64 => owned("x86_64"),
            Arch::I686 => owned("i686"),
            Arch::Aarch64 => owned("aarch64"),
        }
    }
}

impl OS {
    /// The lowercase name of the operating system, as shown to users.
    pub fn to_string(&self) -> (r: String)
        ensures
            r@ == os_name(*self),
    {
        match self {
            OS::Linux => owned("linux"),
            OS::Windows => owned("windows"),
            OS::Macos => owned("macos"),
        }
    }
}

impl LibC {
    /// The lowercase name of the C library flavour.
    pub fn to_string(&self) -> (r: String)
        ensures
            r@ == libc_name(*self),
    {
        match self {
            LibC::Gnu => owned("gnu"),
            LibC::Musl => owned("musl"),
        }
    }
}

impl LibType {
    /// The Cargo crate type of a library kind (`cdylib` or `staticlib`).
    pub fn crate_type(&self) -> (r: String)
        ensures
            r@ == crate_type_name(*self),
    {
        match self {
            LibType::Dynamic => owned("cdylib"),
            LibType::Static => owned("staticlib"),
        }
    }
}

} // verus!
