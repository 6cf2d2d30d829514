//! The manifest model: a project's name and version, what it depends on, on
//! which platforms, and which ports it exposes.

use vstd::prelude::*;
use crate::uri::Url;

verus! {

/// The setup manifest of one project.
#[derive(Clone, Debug)]
pub struct OffSetup {
    pub name: String,
    pub version: String,
    pub dependencies: Option<Dependencies>,
    pub exposes: Option<Exposes>,
    pub debug: Option<bool>,
    pub dry_run: Option<bool>,
}

/// The arguments handed to each package manager, by the manager's name.
#[derive(Clone, Debug)]
pub struct System {
    pub apt: Option<Vec<String>>,
    pub apt_get: Option<Vec<String>>,
    pub aptitude: Option<Vec<String>>,
    pub equo: Option<Vec<String>>,
    pub emerge: Option<Vec<String>>,
    pub flatpak: Option<Vec<String>>,
    pub guix: Option<Vec<String>>,
    pub nix: Option<Vec<String>>,
    pub openpkg: Option<Vec<String>>,
    pub opkg: Option<Vec<String>>,
    pub pacman: Option<Vec<String>>,
    pub ppm: Option<Vec<String>>,
    pub pisi: Option<Vec<String>>,
    pub yum: Option<Vec<String>>,
    pub dnf: Option<Vec<String>>,
    pub up2date: Option<Vec<String>>,
    pub urpmi: Option<Vec<String>>,
    pub slackpkg: Option<Vec<String>>,
    pub slapt_get: Option<Vec<String>>,
    pub snap: Option<Vec<String>>,
    pub swaret: Option<Vec<String>>,
    pub choco: Option<Vec<String>>,
    pub brew: Option<Vec<String>>,
    pub pkg: Option<Vec<String>>,
    pub _0install: Option<Vec<String>>,
    pub apk: Option<Vec<String>>,
}

/// What a project depends on: applications by name, and what each platform
/// needs, by the platform's key. Each list stands for a mapping: in a
/// well-formed manifest no key occurs twice in it.
#[derive(Clone, Debug)]
pub struct Dependencies {
    pub applications: Option<Vec<(String, Application)>>,
    pub platforms: Option<Vec<(String, Platform)>>,
}

/// One application that a project depends on.
#[derive(Clone, Debug)]
pub struct Application {
    pub pkg: Option<String>,
    pub version: Option<String>,
    pub env: Option<String>,
    pub install_priority: Option<Vec<String>>,
    pub skip_install: Option<bool>,
    pub fail_silently: Option<bool>,
}

/// What a project needs on one platform.
#[derive(Clone, Debug)]
pub struct Platform {
    pub versions: Vec<String>,
    pub arch: Option<String>,
    pub source: Option<Source>,
    pub system: Option<System>,
    pub pre_install: Option<Vec<String>>,
    pub install_priority: Option<Vec<String>>,
    pub skip_install: Option<bool>,
    pub fail_silently: Option<bool>,
}

/// Where the sources of a dependency come from.
#[derive(Clone, Debug)]
pub struct Source {
    pub download_directory: Option<String>,
    pub download: Option<Download>,
    pub system: Option<System>,
}

/// One file to download.
#[derive(Clone, Debug)]
pub struct Download {
    pub extract: Option<bool>,
    pub sha512: String,
    pub shareable: Option<bool>,
    pub uri: Url,
}

/// What a project exposes to the network.
#[derive(Clone, Debug)]
pub enum Exposes {
    Ports { tcp: Option<Vec<u16>>, udp: Option<Vec<u16>> },
}

/// The keys of a list of entries, in the order of the list.
pub open spec fn keys<V>(entries: Seq<(String, V)>) -> Seq<Seq<char>> {
    entries.map_values(|entry: (String, V)| entry.0@)
}

impl Platform {
    /// Whether `self` is `before` with its install priority replaced by
    /// `priorities`, and nothing else changed.
    pub open spec fn is_prioritised(self, before: Platform, priorities: Seq<Seq<char>>) -> bool {
        &&& self.versions == before.versions
        &&& self.arch == before.arch
        &&& self.source == before.source
        &&& self.system == before.system
        &&& self.pre_install == before.pre_install
        &&& self.install_priority.deep_view() == Some(priorities)
        &&& self.skip_install == before.skip_install
        &&& self.fail_silently == before.fail_silently
    }
}

impl Dependencies {
    /// Whether each of the two lists is a mapping: no key occurs twice.
    pub open spec fn well_formed(self) -> bool {
        &&& self.applications matches Some(applications) ==> keys(applications@).no_duplicates()
        &&& self.platforms matches Some(platforms) ==> keys(platforms@).no_duplicates()
    }

    /// Whether `self` is `before` with the install priority of every
    /// platform replaced by `priorities`, and nothing else changed.
    pub open spec fn is_prioritised(self, before: Dependencies, priorities: Seq<Seq<char>>) -> bool {
        &&& self.applications == before.applications
        &&& self.platforms is Some <==> before.platforms is Some
        &&& self.platforms matches Some(platforms) ==> {
            let earlier = before.platforms.unwrap();
            &&& platforms.len() == earlier.len()
            &&& forall|i: int|
                0 <= i < platforms.len() ==> {
                    &&& (#[trigger] platforms[i]).0 == earlier[i].0
                    &&& platforms[i].1.is_prioritised(earlier[i].1, priorities)
                }
        }
    }

    /// Replaces the install priority of every platform by `priorities`.
    pub fn set_install_priority(&mut self, priorities: &Vec<String>)
        ensures
            final(self).is_prioritised(*old(self), priorities.deep_view()),
            old(self).well_formed() ==> final(self).well_formed(),
    {
        match &mut self.platforms {
            Some(platforms) => {
                let ghost earlier = platforms@;
                let mut i: usize = 0;
                while i < platforms.len()
                    invariant
                        i <= platforms.len(),
                        platforms.len() == earlier.len(),
                        forall|j: int| i <= j < platforms.len() ==> platforms[j] == earlier[j],
                        forall|j: int|
                            0 <= j < i ==> {
                                &&& (#[trigger] platforms[j]).0 == earlier[j].0
                                &&& platforms[j].1.is_prioritised(
                                    earlier[j].1,
                                    priorities.deep_view(),
                                )
                            },
                    decreases platforms.len() - i,
                {
                    let copy = priorities.clone();
                    platforms[i].1.install_priority = Some(copy);
                    i += 1;
                }
                assert(keys(platforms@) =~= keys(earlier));
            },
            None => {},
        }
    }
}

} // verus!
