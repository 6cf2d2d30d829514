//! The product name and the version aliases of a Windows host.

use vstd::prelude::*;
use vstd::string::*;
use crate::scanning::windows::release_id::{get_release_id, release_label};
use crate::text::{decimal, decimal_string};

verus! {

/// Product type of a workstation; any other product type is a server.
pub const VER_NT_WORKSTATION: u8 = 1;

/// Suite flag of Windows Home Server.
pub const VER_SUITE_WH_SERVER: u16 = 0x8000;

/// Processor architecture code of x64.
pub const PROCESSOR_ARCHITECTURE_AMD64: u16 = 9;

/// What a Windows host reports about itself: its version record, and the two
/// further facts that tell the editions of version 5.2 apart.
#[derive(Clone, Copy, Debug)]
pub struct VersionInfo {
    pub major_version: u32,
    pub minor_version: u32,
    pub build_number: u32,
    pub product_type: u8,
    pub suite_mask: u16,
    /// The "server R2" system metric; zero unless the host is an R2 server.
    pub server_r2: i32,
    /// The processor architecture code of the host.
    pub processor_architecture: u16,
}

impl VersionInfo {
    /// Whether the host is a workstation rather than a server.
    pub open spec fn is_workstation(self) -> bool {
        self.product_type == VER_NT_WORKSTATION
    }

    /// Whether the suite mask carries the Home Server flag.
    pub open spec fn is_home_server(self) -> bool {
        self.suite_mask & VER_SUITE_WH_SERVER == VER_SUITE_WH_SERVER
    }
}

/// The edition of a host of version 5.2 that is no R2 server.
pub open spec fn legacy_product_name(info: VersionInfo) -> Seq<char> {
    if info.is_home_server() {
        "Windows Home Server"@
    } else if info.is_workstation() && info.processor_architecture
        == PROCESSOR_ARCHITECTURE_AMD64 {
        "Windows XP Professional x64 Edition"@
    } else {
        "Windows Server 2003"@
    }
}

/// The product name of a host, by major version, minor version and product
/// type; `None` for a combination that is not known.
pub open spec fn product_name(info: VersionInfo) -> Option<Seq<char>> {
    let workstation = info.is_workstation();
    let (major, minor) = (info.major_version, info.minor_version);
    if major == 10 && minor == 0 {
        Some(if workstation { "Windows 10"@ } else { "Windows Server 2016"@ })
    } else if major == 6 && minor == 0 {
        Some(if workstation { "Windows Vista"@ } else { "Windows Server 2008"@ })
    } else if major == 6 && minor == 1 {
        Some(if workstation { "Windows 7"@ } else { "Windows Server 2008 R2"@ })
    } else if major == 6 && minor == 2 {
        Some(if workstation { "Windows 8"@ } else { "Windows Server 2012"@ })
    } else if major == 6 && minor == 3 {
        Some(if workstation { "Windows 8.1"@ } else { "Windows Server 2012 R2"@ })
    } else if major == 5 && minor == 0 {
        Some("Windows 2000"@)
    } else if major == 5 && minor == 1 {
        Some("Windows XP"@)
    } else if major == 5 && minor == 2 && info.server_r2 == 0 {
        Some(legacy_product_name(info))
    } else {
        None
    }
}

/// The version aliases of a host: the product name, the build number in
/// base ten, and the release label where the build number has one. A host
/// whose version record could not be read has the single alias
/// "Unknown Windows".
pub open spec fn platform_version(info: Option<VersionInfo>) -> Seq<Seq<char>> {
    match info {
        None => seq!["Unknown Windows"@],
        Some(info) => {
            let named = seq![product_name(info).unwrap(), decimal(info.build_number as nat)];
            match release_label(info.build_number as int) {
                Some(label) => named.push(label),
                None => named,
            }
        },
    }
}

fn workstation_or_server(
    version_info: &VersionInfo,
    workstation: &'static str,
    server: &'static str,
) -> (name: &'static str)
    ensures
        name@ == (if version_info.is_workstation() {
            workstation@
        } else {
            server@
        }),
{
    if version_info.product_type == VER_NT_WORKSTATION {
        workstation
    } else {
        server
    }
}

/// Determines the Windows edition from the version record.
pub fn get_product_name(version_info: &VersionInfo) -> (name: Option<String>)
    ensures
        name.deep_view() == product_name(*version_info),
{
    let major = version_info.major_version;
    let minor = version_info.minor_version;
    let name: Option<&'static str> = if major == 10 && minor == 0 {
        Some(workstation_or_server(version_info, "Windows 10", "Windows Server 2016"))
    } else if major == 6 && minor == 0 {
        Some(workstation_or_server(version_info, "Windows Vista", "Windows Server 2008"))
    } else if major == 6 && minor == 1 {
        Some(workstation_or_server(version_info, "Windows 7", "Windows Server 2008 R2"))
    } else if major == 6 && minor == 2 {
        Some(workstation_or_server(version_info, "Windows 8", "Windows Server 2012"))
    } else if major == 6 && minor == 3 {
        Some(workstation_or_server(version_info, "Windows 8.1", "Windows Server 2012 R2"))
    } else if major == 5 && minor == 0 {
        Some("Windows 2000")
    } else if major == 5 && minor == 1 {
        Some("Windows XP")
    } else if major == 5 && minor == 2 && version_info.server_r2 == 0 {
        if version_info.suite_mask & VER_SUITE_WH_SERVER == VER_SUITE_WH_SERVER {
            Some("Windows Home Server")
        } else if version_info.product_type == VER_NT_WORKSTATION
            && version_info.processor_architecture == PROCESSOR_ARCHITECTURE_AMD64 {
            Some("Windows XP Professional x64 Edition")
        } else {
            Some("Windows Server 2003")
        }
    } else {
        None
    };
    match name {
        Some(name) => Some(name.to_owned()),
        None => None,
    }
}

/// Lists the version aliases of the host, given its version record, or `None`
/// where the record could not be read.
///
/// The host's product must be known: no aliases can be given for a version
/// record that `get_product_name` does not recognise.
pub fn get_platform_version(version_info: Option<&VersionInfo>) -> (versions: Vec<String>)
    requires
        version_info matches Some(info) ==> product_name(*info) is Some,
    ensures
        versions.deep_view() == platform_version(
            match version_info {
                Some(info) => Some(*info),
                None => None,
            },
        ),
{
    let mut versions: Vec<String> = Vec::new();
    match version_info {
        None => {
            versions.push("Unknown Windows".to_owned());
        },
        Some(info) => {
            let build_number: u64 = info.build_number as u64;
            versions.push(get_product_name(info).unwrap());
            versions.push(decimal_string(build_number));
            match get_release_id(&build_number) {
                Some(id) => {
                    versions.push(id);
                },
                None => {},
            }
        },
    }
    versions
}

} // verus!
