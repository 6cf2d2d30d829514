//! The platform identity: the operating system family of the host, the
//! aliases of its version, and its processor architecture.

use vstd::prelude::*;
use vstd::string::*;
use crate::scanning::windows::version::{
    get_platform_version,
    platform_version,
    product_name,
    VersionInfo,
};
use crate::text::str_eq;

verus! {

/// Retrieves information about the platform that the program runs on.
pub struct PlatformScanner;

/// The aliases of a platform's version: product name, build number, release
/// label and the like.
pub type PlatformVersionAliases = Vec<String>;

/// The operating system families that a manifest can name.
#[derive(Clone, Copy, Debug, PartialEq, Eq, Hash, Structural)]
pub enum PlatformName {
    Arch,
    CentOS,
    Debian,
    MacOSX,
    Manjaro,
    Redhat,
    Ubuntu,
    Unknown,
    Windows,
}

/// Why a text is no platform name.
#[derive(Clone, Copy, Debug, PartialEq, Eq, Structural)]
pub enum PlatformNameParsingError {
    InvalidPlatform,
}

impl PlatformName {
    /// The text by which a manifest names the platform.
    pub open spec fn text(self) -> Seq<char> {
        match self {
            PlatformName::Arch => "arch"@,
            PlatformName::CentOS => "centos"@,
            PlatformName::Debian => "debian"@,
            PlatformName::MacOSX => "macos"@,
            PlatformName::Manjaro => "manjaro"@,
            PlatformName::Redhat => "redhat"@,
            PlatformName::Ubuntu => "ubuntu"@,
            PlatformName::Unknown => "unknown"@,
            PlatformName::Windows => "windows"@,
        }
    }

    /// Reads a platform name from its text.
    ///
    /// Succeeds on exactly the nine texts that `text` gives, with the
    /// platform of that text.
    pub fn from_str(name: &str) -> (parsed: Result<PlatformName, PlatformNameParsingError>)
        ensures
            match parsed {
                Ok(platform) => name@ == platform.text(),
                Err(_) => forall|platform: PlatformName| name@ != platform.text(),
            },
    {
        if str_eq(name, "arch") {
            Ok(PlatformName::Arch)
        } else if str_eq(name, "centos") {
            Ok(PlatformName::CentOS)
        } else if str_eq(name, "debian") {
            Ok(PlatformName::Debian)
        } else if str_eq(name, "macos") {
            Ok(PlatformName::MacOSX)
        } else if str_eq(name, "manjaro") {
            Ok(PlatformName::Manjaro)
        } else if str_eq(name, "redhat") {
            Ok(PlatformName::Redhat)
        } else if str_eq(name, "ubuntu") {
            Ok(PlatformName::Ubuntu)
        } else if str_eq(name, "unknown") {
            Ok(PlatformName::Unknown)
        } else if str_eq(name, "windows") {
            Ok(PlatformName::Windows)
        } else {
            Err(PlatformNameParsingError::InvalidPlatform)
        }
    }

    /// The text by which a manifest names the platform.
    pub fn to_string(&self) -> (text: String)
        ensures
            text@ == self.text(),
    {
        let text = match self {
            PlatformName::Arch => "arch",
            PlatformName::CentOS => "centos",
            PlatformName::Debian => "debian",
            PlatformName::MacOSX => "macos",
            PlatformName::Manjaro => "manjaro",
            PlatformName::Redhat => "redhat",
            PlatformName::Ubuntu => "ubuntu",
            PlatformName::Unknown => "unknown",
            PlatformName::Windows => "windows",
        };
        text.to_owned()
    }
}

impl std::str::FromStr for PlatformName {
    type Err = PlatformNameParsingError;

    /// Reads a platform name from its text, as `PlatformName::from_str`
    /// does: succeeds on exactly the nine texts that `text` gives, with the
    /// platform of that text.
    fn from_str(name: &str) -> (parsed: Result<PlatformName, PlatformNameParsingError>)
        ensures
            match parsed {
                Ok(platform) => name@ == platform.text(),
                Err(_) => forall|platform: PlatformName| name@ != platform.text(),
            },
    {
        PlatformName::from_str(name)
    }
}

proof fn lemma_text_shape(platform: PlatformName)
    ensures
        platform.text().len() >= 4,
        platform.text()[0] == (match platform {
            PlatformName::Arch => 'a',
            PlatformName::CentOS => 'c',
            PlatformName::Debian => 'd',
            PlatformName::MacOSX | PlatformName::Manjaro => 'm',
            PlatformName::Redhat => 'r',
            PlatformName::Ubuntu | PlatformName::Unknown => 'u',
            PlatformName::Windows => 'w',
        }),
        platform.text()[2] == (match platform {
            PlatformName::Arch => 'c',
            PlatformName::CentOS => 'n',
            PlatformName::Debian => 'b',
            PlatformName::MacOSX => 'c',
            PlatformName::Manjaro => 'n',
            PlatformName::Redhat => 'd',
            PlatformName::Ubuntu => 'u',
            PlatformName::Unknown => 'k',
            PlatformName::Windows => 'n',
        }),
{
    reveal_strlit("arch");
    reveal_strlit("centos");
    reveal_strlit("debian");
    reveal_strlit("macos");
    reveal_strlit("manjaro");
    reveal_strlit("redhat");
    reveal_strlit("ubuntu");
    reveal_strlit("unknown");
    reveal_strlit("windows");
}

/// No two platforms share a text: reading the text that `to_string` wrote
/// gives the platform back, and no other.
pub proof fn lemma_text_is_injective(a: PlatformName, b: PlatformName)
    requires
        a.text() == b.text(),
    ensures
        a == b,
{
    lemma_text_shape(a);
    lemma_text_shape(b);
}

/// The processor architectures that are told apart.
#[derive(Clone, Copy, Debug, PartialEq, Eq, Structural)]
pub enum Architecture {
    X86_32,
    X86_64,
    Unknown,
}

/// The architecture that a target architecture name stands for.
pub open spec fn architecture_of(target_arch: Seq<char>) -> Architecture {
    if target_arch == "x86"@ {
        Architecture::X86_32
    } else if target_arch == "x86_64"@ {
        Architecture::X86_64
    } else {
        Architecture::Unknown
    }
}

/// The architecture of the host, given the name of the architecture that the
/// program was built for.
pub fn get_architecture(target_arch: &str) -> (arch: Architecture)
    ensures
        arch == architecture_of(target_arch@),
{
    if str_eq(target_arch, "x86") {
        Architecture::X86_32
    } else if str_eq(target_arch, "x86_64") {
        Architecture::X86_64
    } else {
        Architecture::Unknown
    }
}

/// The operating system families that a Unix-like host can report.
#[derive(Clone, Copy, Debug, PartialEq, Eq, Structural)]
pub enum OsType {
    Unknown,
    Redhat,
    OSX,
    Ubuntu,
    Debian,
    Arch,
    Manjaro,
    CentOS,
    OpenSUSE,
    Alpine,
    Deepin,
    NixOS,
    Kali,
}

impl OsType {
    /// The platform of a family: the family itself where a manifest can name
    /// it, and `Unknown` for every other.
    pub open spec fn platform_name(self) -> PlatformName {
        match self {
            OsType::Arch => PlatformName::Arch,
            OsType::CentOS => PlatformName::CentOS,
            OsType::Debian => PlatformName::Debian,
            OsType::OSX => PlatformName::MacOSX,
            OsType::Manjaro => PlatformName::Manjaro,
            OsType::Redhat => PlatformName::Redhat,
            OsType::Ubuntu => PlatformName::Ubuntu,
            _ => PlatformName::Unknown,
        }
    }
}

/// What a Unix-like host reports about itself.
#[derive(Clone, Debug)]
pub struct OsInformation {
    pub os_type: OsType,
    pub version: String,
}

/// What the host reports about itself, by the kind of host.
#[derive(Clone, Debug)]
pub enum HostInfo {
    /// A Windows host, with its version record where that could be read.
    Windows(Option<VersionInfo>),
    /// Any other host.
    Unix(OsInformation),
}

impl HostInfo {
    /// Whether a platform can be derived from the report: a Windows host
    /// whose version record was read must be a known product.
    pub open spec fn is_known(self) -> bool {
        self matches HostInfo::Windows(Some(info)) ==> product_name(info) is Some
    }

    /// The platform of the host.
    pub open spec fn platform_name(self) -> PlatformName {
        match self {
            HostInfo::Windows(_) => PlatformName::Windows,
            HostInfo::Unix(os) => os.os_type.platform_name(),
        }
    }

    /// The version aliases of the host: for a Unix-like host its version
    /// alone.
    pub open spec fn versions(self) -> Seq<Seq<char>> {
        match self {
            HostInfo::Windows(info) => platform_version(info),
            HostInfo::Unix(os) => seq![os.version@],
        }
    }
}

/// The identity of a host.
#[derive(Clone, Debug, PartialEq)]
pub struct Platform {
    pub arch: Architecture,
    pub name: PlatformName,
    pub versions: PlatformVersionAliases,
}

impl PlatformScanner {
    /// The architecture of the host, given the name of the architecture that
    /// the program was built for.
    pub fn _get_architecture(target_arch: &str) -> (arch: Architecture)
        ensures
            arch == architecture_of(target_arch@),
    {
        get_architecture(target_arch)
    }

    /// The platform and the version aliases of a Unix-like host.
    pub fn _get_unix_platform_info(os: OsInformation) -> (info: (
        PlatformName,
        PlatformVersionAliases,
    ))
        ensures
            info.0 == os.os_type.platform_name(),
            info.1.deep_view() == seq![os.version@],
    {
        let name = match os.os_type {
            OsType::Arch => PlatformName::Arch,
            OsType::CentOS => PlatformName::CentOS,
            OsType::Debian => PlatformName::Debian,
            OsType::OSX => PlatformName::MacOSX,
            OsType::Manjaro => PlatformName::Manjaro,
            OsType::Redhat => PlatformName::Redhat,
            OsType::Ubuntu => PlatformName::Ubuntu,
            _ => PlatformName::Unknown,
        };
        let mut versions: Vec<String> = Vec::new();
        versions.push(os.version);
        (name, versions)
    }

    /// The platform and the version aliases of a Windows host, given its
    /// version record where that could be read.
    pub fn _get_windows_platform_info(version_info: Option<&VersionInfo>) -> (info: (
        PlatformName,
        PlatformVersionAliases,
    ))
        requires
            version_info matches Some(record) ==> product_name(*record) is Some,
        ensures
            info.0 == PlatformName::Windows,
            info.1.deep_view() == platform_version(
                match version_info {
                    Some(record) => Some(*record),
                    None => None,
                },
            ),
    {
        let versions = get_platform_version(version_info);
        (PlatformName::Windows, versions)
    }

    /// The identity of the host, from the name of the architecture that the
    /// program was built for and from what the host reports about itself.
    pub fn get_current_platform(target_arch: &str, host: HostInfo) -> (platform: Platform)
        requires
            host.is_known(),
        ensures
            platform.arch == architecture_of(target_arch@),
            platform.name == host.platform_name(),
            platform.versions.deep_view() == host.versions(),
    {
        let arch = get_architecture(target_arch);
        match host {
            HostInfo::Windows(version_info) => {
                let (name, versions) = PlatformScanner::_get_windows_platform_info(
                    version_info.as_ref(),
                );
                Platform { arch, name, versions }
            },
            HostInfo::Unix(os) => {
                let (name, versions) = PlatformScanner::_get_unix_platform_info(os);
                Platform { arch, name, versions }
            },
        }
    }
}

} // verus!
