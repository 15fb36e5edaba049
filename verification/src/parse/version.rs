//! Zip versions, and the host system encoded in them (APPNOTE 4.4.2).
use vstd::prelude::*;

use super::ParseError;

verus! {

/// System on which an archive was created, as encoded into a version u16.
///
/// See APPNOTE, section 4.4.2.2
#[derive(Debug, Clone, Copy, PartialEq, Eq, Hash, Structural)]
pub enum HostSystem {
    /// MS-DOS and OS/2 (FAT / VFAT / FAT32 file systems)
    MsDos,
    /// Amiga
    Amiga,
    /// OpenVMS
    OpenVms,
    /// UNIX
    Unix,
    /// VM/CMS
    VmCms,
    /// Atari ST
    AtariSt,
    /// OS/2 H.P.F.S
    Os2Hpfs,
    /// Macintosh (see `Osx`)
    Macintosh,
    /// Z-System
    ZSystem,
    /// CP/M
    CpM,
    /// Windows NTFS
    WindowsNtfs,
    /// MVS (OS/390 - Z/OS)
    Mvs,
    /// VSE
    Vse,
    /// Acorn Risc
    AcornRisc,
    /// VFAT
    Vfat,
    /// alternate MVS
    AlternateMvs,
    /// BeOS
    BeOs,
    /// Tandem
    Tandem,
    /// OS/400
    Os400,
    /// OS X (Darwin)
    Osx,
    /// Unknown host system
    ///
    /// Values 20 through 255 are currently unused, as of
    /// APPNOTE.TXT 6.3.10
    Unknown(u8),
}

/// The host system that the byte `u` stands for.
pub open spec fn spec_host_system_from_u8(u: u8) -> HostSystem {
    if u == 0 {
        HostSystem::MsDos
    } else if u == 1 {
        HostSystem::Amiga
    } else if u == 2 {
        HostSystem::OpenVms
    } else if u == 3 {
        HostSystem::Unix
    } else if u == 4 {
        HostSystem::VmCms
    } else if u == 5 {
        HostSystem::AtariSt
    } else if u == 6 {
        HostSystem::Os2Hpfs
    } else if u == 7 {
        HostSystem::Macintosh
    } else if u == 8 {
        HostSystem::ZSystem
    } else if u == 9 {
        HostSystem::CpM
    } else if u == 10 {
        HostSystem::WindowsNtfs
    } else if u == 11 {
        HostSystem::Mvs
    } else if u == 12 {
        HostSystem::Vse
    } else if u == 13 {
        HostSystem::AcornRisc
    } else if u == 14 {
        HostSystem::Vfat
    } else if u == 15 {
        HostSystem::AlternateMvs
    } else if u == 16 {
        HostSystem::BeOs
    } else if u == 17 {
        HostSystem::Tandem
    } else if u == 18 {
        HostSystem::Os400
    } else if u == 19 {
        HostSystem::Osx
    } else {
        HostSystem::Unknown(u)
    }
}

/// The byte that stands for host system `h`.
pub open spec fn spec_u8_from_host_system(h: HostSystem) -> u8 {
    match h {
        HostSystem::MsDos => 0,
        HostSystem::Amiga => 1,
        HostSystem::OpenVms => 2,
        HostSystem::Unix => 3,
        HostSystem::VmCms => 4,
        HostSystem::AtariSt => 5,
        HostSystem::Os2Hpfs => 6,
        HostSystem::Macintosh => 7,
        HostSystem::ZSystem => 8,
        HostSystem::CpM => 9,
        HostSystem::WindowsNtfs => 10,
        HostSystem::Mvs => 11,
        HostSystem::Vse => 12,
        HostSystem::AcornRisc => 13,
        HostSystem::Vfat => 14,
        HostSystem::AlternateMvs => 15,
        HostSystem::BeOs => 16,
        HostSystem::Tandem => 17,
        HostSystem::Os400 => 18,
        HostSystem::Osx => 19,
        HostSystem::Unknown(u) => u,
    }
}

/// A host system value that some byte decodes to: a named system, or
/// `Unknown` holding a byte that names no system.
pub open spec fn host_system_is_canonical(h: HostSystem) -> bool {
    match h {
        HostSystem::Unknown(u) => u >= 20,
        _ => true,
    }
}

impl From<u8> for HostSystem {
    fn from(u: u8) -> (r: Self) {
        match u {
            0 => HostSystem::MsDos,
            1 => HostSystem::Amiga,
            2 => HostSystem::OpenVms,
            3 => HostSystem::Unix,
            4 => HostSystem::VmCms,
            5 => HostSystem::AtariSt,
            6 => HostSystem::Os2Hpfs,
            7 => HostSystem::Macintosh,
            8 => HostSystem::ZSystem,
            9 => HostSystem::CpM,
            10 => HostSystem::WindowsNtfs,
            11 => HostSystem::Mvs,
            12 => HostSystem::Vse,
            13 => HostSystem::AcornRisc,
            14 => HostSystem::Vfat,
            15 => HostSystem::AlternateMvs,
            16 => HostSystem::BeOs,
            17 => HostSystem::Tandem,
            18 => HostSystem::Os400,
            19 => HostSystem::Osx,
            u => HostSystem::Unknown(u),
        }
    }
}

impl vstd::std_specs::convert::FromSpecImpl<u8> for HostSystem {
    open spec fn obeys_from_spec() -> bool {
        true
    }

    open spec fn from_spec(u: u8) -> Self {
        spec_host_system_from_u8(u)
    }
}

impl From<HostSystem> for u8 {
    fn from(h: HostSystem) -> (r: u8) {
        match h {
            HostSystem::MsDos => 0,
            HostSystem::Amiga => 1,
            HostSystem::OpenVms => 2,
            HostSystem::Unix => 3,
            HostSystem::VmCms => 4,
            HostSystem::AtariSt => 5,
            HostSystem::Os2Hpfs => 6,
            HostSystem::Macintosh => 7,
            HostSystem::ZSystem => 8,
            HostSystem::CpM => 9,
            HostSystem::WindowsNtfs => 10,
            HostSystem::Mvs => 11,
            HostSystem::Vse => 12,
            HostSystem::AcornRisc => 13,
            HostSystem::Vfat => 14,
            HostSystem::AlternateMvs => 15,
            HostSystem::BeOs => 16,
            HostSystem::Tandem => 17,
            HostSystem::Os400 => 18,
            HostSystem::Osx => 19,
            HostSystem::Unknown(u) => u,
        }
    }
}

impl vstd::std_specs::convert::FromSpecImpl<HostSystem> for u8 {
    open spec fn obeys_from_spec() -> bool {
        true
    }

    open spec fn from_spec(h: HostSystem) -> Self {
        spec_u8_from_host_system(h)
    }
}

/// Decoding a byte as a host system and encoding it again gives the byte back.
pub proof fn lemma_host_system_u8_roundtrip(u: u8)
    ensures
        spec_u8_from_host_system(spec_host_system_from_u8(u)) == u,
        host_system_is_canonical(spec_host_system_from_u8(u)),
{
}

/// Encoding a host system as a byte and decoding it again gives the host
/// system back, for every value that decoding can produce.
pub proof fn lemma_u8_host_system_roundtrip(h: HostSystem)
    requires
        host_system_is_canonical(h),
    ensures
        spec_host_system_from_u8(spec_u8_from_host_system(h)) == h,
{
}

/// A zip version (either created by, or required when reading an archive).
///
/// Versions determine which features are supported by a tool, and
/// which features are required when reading a file.
///
/// For more information, see the .ZIP Application Note, section 4.4.2.
#[derive(Debug, Clone, Copy, PartialEq, Eq, Hash, Structural)]
pub struct Version {
    /// The host system on which
    pub host_system: HostSystem,
    /// Integer version, e.g. 45 for Zip version 4.5
    /// See APPNOTE, section 4.4.2.1
    pub version: u8,
}

impl Version {
    /// The version stored in the two bytes `s[i..i + 2]`.
    pub open spec fn spec_at(s: Seq<u8>, i: int) -> Version {
        Version { version: s[i], host_system: spec_host_system_from_u8(s[i + 1]) }
    }

    /// Parses a version from the start of `input`: the version byte, then
    /// the host system byte.
    pub fn parser(input: &[u8]) -> (r: Result<(usize, Self), ParseError>)
        ensures
            r is Err <==> input@.len() < 2,
            r is Err ==> r == Err::<(usize, Self), ParseError>(ParseError::Incomplete),
            r matches Ok((n, v)) ==> n == 2 && v == Version::spec_at(input@, 0),
    {
        if input.len() < 2 {
            return Err(ParseError::Incomplete);
        }
        Ok((2, Version::read_at(input, 0)))
    }

    /// Reads the version stored at `input[pos..pos + 2]`.
    pub fn read_at(input: &[u8], pos: usize) -> (v: Self)
        requires
            pos + 2 <= input.len(),
        ensures
            v == Version::spec_at(input@, pos as int),
    {
        Version { version: input[pos], host_system: HostSystem::from(input[pos + 1]) }
    }
}

} // verus!
