//! The versioned binary acquirer: a state machine that decides, step by
//! step, how a locally runnable release binary is located.
//!
//! The machine itself performs no I/O. Each phase names the one operation
//! the driver must perform (a file stat, a release-registry query, a
//! download, a directory listing), and the driver feeds the outcome back
//! through the matching transition. Every transition's result is pinned
//! down by a `*_post` relation, so the decisions — cache probing, asset
//! selection, failure classification, stale-version pruning — are verified
//! for every possible outcome of the outside world.

use vstd::prelude::*;

use crate::cleanup::stale_entries;
use crate::cleanup::stale_of;
use crate::error::AcquireError;
use crate::names::asset_name_of;
use crate::names::binary_path_name;
use crate::names::binary_path_of;
use crate::names::expected_asset_name;
use crate::names::version_dir_name;
use crate::names::version_dir_of;
use crate::platform::Arch;
use crate::platform::ArchiveKind;
use crate::platform::Os;
use crate::platform::arch_supported;
use crate::platform::archive_kind_of;
use crate::release::Asset;
use crate::release::Release;
use crate::release::find_asset;
use crate::release::has_asset;

verus! {

/// The single piece of state that outlives a resolution: the path a
/// previous successful resolution ended in, if any.
pub struct Acquirer {
    pub cached_binary_path: Option<String>,
}

/// Where a resolution stands, and which outside operation it waits for.
#[derive(Debug)]
pub enum Phase {
    /// Waiting for a stat of the cached path: is it still a regular file?
    CheckCache { path: String },
    /// Waiting for the latest qualifying release from the registry.
    NeedRelease,
    /// Waiting for a stat of the target binary path: is this version
    /// already extracted?
    CheckInstalled { version: String, version_dir: String, binary_path: String, assets: Vec<Asset> },
    /// Waiting for the asset at `url` to be downloaded and extracted into
    /// `version_dir`.
    NeedDownload {
        version: String,
        version_dir: String,
        binary_path: String,
        url: String,
        kind: ArchiveKind,
    },
    /// Waiting for a listing of the working directory, to prune stale
    /// version directories.
    NeedCleanup { version: String, version_dir: String, binary_path: String },
    /// The resolution succeeded; `path` is the runnable binary.
    Done { path: String },
    /// The resolution failed; no further step may be taken.
    Failed { error: AcquireError },
}

/// One in-progress resolution: the platform it runs for and its phase.
pub struct Resolution {
    pub os: Os,
    pub arch: Arch,
    pub phase: Phase,
}

impl Resolution {
    /// Internal consistency: phases past the cache probe exist only for
    /// supported architectures, and the names carried along are the ones
    /// derived from the release version.
    pub open spec fn wf(self) -> bool {
        match self.phase {
            Phase::NeedRelease => arch_supported(self.arch),
            Phase::CheckInstalled { version, version_dir, binary_path, assets } => {
                &&& arch_supported(self.arch)
                &&& version_dir@ == version_dir_of(version@)
                &&& binary_path@ == binary_path_of(version@, self.os)
            },
            Phase::NeedDownload { version, version_dir, binary_path, url, kind } => {
                &&& arch_supported(self.arch)
                &&& kind == archive_kind_of(self.os)
                &&& version_dir@ == version_dir_of(version@)
                &&& binary_path@ == binary_path_of(version@, self.os)
            },
            Phase::NeedCleanup { version, version_dir, binary_path } => {
                &&& arch_supported(self.arch)
                &&& version_dir@ == version_dir_of(version@)
                &&& binary_path@ == binary_path_of(version@, self.os)
            },
            _ => true,
        }
    }
}

/// What a cache miss steps to: the release fetch on a supported
/// architecture, and an immediate failure — before any network traffic —
/// on an unsupported one.
pub open spec fn cache_miss_step(arch: Arch, phase: Phase) -> bool {
    if arch_supported(arch) {
        phase is NeedRelease
    } else {
        (phase matches Phase::Failed { error } && error is UnsupportedArchitecture)
    }
}

/// Relates an acquirer and the platform to the phase a resolution starts
/// in: probing the cached path if one is recorded, a cache miss otherwise.
pub open spec fn start_post(a: Acquirer, os: Os, arch: Arch, r: Resolution) -> bool {
    &&& r.os == os
    &&& r.arch == arch
    &&& match a.cached_binary_path {
        Option::Some(p) => (r.phase matches Phase::CheckCache { path } && path@ == p@),
        Option::None => cache_miss_step(arch, r.phase),
    }
}

/// Relates the cache probe's outcome to the next phase: the cached path is
/// returned unchanged when it is still a file, and the resolution otherwise
/// proceeds exactly as if nothing were cached.
pub open spec fn cache_stat_post(before: Resolution, is_file: bool, r: Resolution) -> bool {
    &&& r.os == before.os
    &&& r.arch == before.arch
    &&& (before.phase matches Phase::CheckCache { path } ==> (if is_file {
        (r.phase matches Phase::Done { path: done } && done@ == path@)
    } else {
        cache_miss_step(before.arch, r.phase)
    }))
}

/// Relates the registry's answer to the next phase: on success the names
/// derived from the release version are fixed and the install check begins;
/// a registry failure is terminal and carries the registry's message.
pub open spec fn release_post(before: Resolution, result: Result<Release, String>, r: Resolution) -> bool {
    &&& r.os == before.os
    &&& r.arch == before.arch
    &&& match result {
        Result::Ok(rel) => {
            &&& (r.phase matches Phase::CheckInstalled { version, version_dir, binary_path, assets }
                && version@ == rel.version@
                && version_dir@ == version_dir_of(rel.version@)
                && binary_path@ == binary_path_of(rel.version@, before.os)
                && assets.deep_view() == rel.assets.deep_view())
        },
        Result::Err(m) => {
            &&& (r.phase matches Phase::Failed { error }
                && error matches AcquireError::ReleaseFetch(e)
                && e@ == m@)
        },
    }
}

/// Relates the install probe's outcome to the next phase: an existing
/// binary finishes the resolution with no download and no cleanup; a
/// missing one selects the first asset carrying the expected name, or fails
/// naming exactly the name that was looked for.
pub open spec fn install_stat_post(before: Resolution, is_file: bool, r: Resolution) -> bool {
    &&& r.os == before.os
    &&& r.arch == before.arch
    &&& (before.phase matches Phase::CheckInstalled { version, version_dir, binary_path, assets }
        ==> ({
        let expected = asset_name_of(before.os, before.arch);
        if is_file {
            (r.phase matches Phase::Done { path } && path@ == binary_path@)
        } else if has_asset(assets.deep_view(), expected) {
            (r.phase matches Phase::NeedDownload {
                version: v2,
                version_dir: d2,
                binary_path: b2,
                url,
                kind,
            } && v2@ == version@ && d2@ == version_dir@ && b2@ == binary_path@ && kind
                == archive_kind_of(before.os) && (exists|i: int|
                0 <= i < assets.deep_view().len() && assets.deep_view()[i].name == expected && url@
                    == assets.deep_view()[i].download_url && (forall|j: int|
                    0 <= j < i ==> assets.deep_view()[j].name != expected)))
        } else {
            (r.phase matches Phase::Failed { error }
                && error matches AcquireError::NoMatchingAsset(n)
                && n@ == expected)
        }
    }))
}

/// Relates the download's outcome to the next phase: only a successful
/// download and extraction reaches the cleanup step; a failure is terminal
/// and carries the transport error's message.
pub open spec fn download_post(before: Resolution, result: Result<(), String>, r: Resolution) -> bool {
    &&& r.os == before.os
    &&& r.arch == before.arch
    &&& (before.phase matches Phase::NeedDownload { version, version_dir, binary_path, url, kind }
        ==> match result {
        Result::Ok(u) => {
            (r.phase matches Phase::NeedCleanup { version: v2, version_dir: d2, binary_path: b2 }
                && v2@ == version@ && d2@ == version_dir@ && b2@ == binary_path@)
        },
        Result::Err(m) => {
            (r.phase matches Phase::Failed { error }
                && error matches AcquireError::Download(e)
                && e@ == m@)
        },
    })
}

/// Relates the directory listing's outcome to the finished resolution: on
/// success the resolution is done at the binary path and the stale entries
/// — exactly those differing from the version directory — are scheduled
/// for deletion; a listing failure is terminal.
pub open spec fn dir_entries_post(
    before: Resolution,
    result: Result<Vec<String>, String>,
    r: Resolution,
    stale: Vec<String>,
) -> bool {
    &&& r.os == before.os
    &&& r.arch == before.arch
    &&& (before.phase matches Phase::NeedCleanup { version, version_dir, binary_path }
        ==> match result {
        Result::Ok(entries) => {
            &&& (r.phase matches Phase::Done { path } && path@ == binary_path@)
            &&& stale.deep_view() == stale_of(entries.deep_view(), version_dir@)
        },
        Result::Err(m) => {
            &&& (r.phase matches Phase::Failed { error }
                && error matches AcquireError::ListDir(e)
                && e@ == m@)
            &&& stale.deep_view() == Seq::<Seq<char>>::empty()
        },
    })
}

/// Relates recording a finished resolution to the acquirer's new state:
/// the resolved path becomes the cached path.
pub open spec fn record_post(before: Acquirer, done: Resolution, after: Acquirer) -> bool {
    done.phase matches Phase::Done { path } ==> (after.cached_binary_path
        matches Option::Some(p) && p@ == path@)
}

/// A cached path that the filesystem still reports as a regular file is
/// returned unchanged: the resolution that began on it is complete after
/// the single stat, never having reached the release-fetch phase — so no
/// network traffic, no download and no cleanup can have occurred.
pub proof fn lemma_cache_hit_returns_cached_path(
    a: Acquirer,
    os: Os,
    arch: Arch,
    r1: Resolution,
    r2: Resolution,
)
    requires
        a.cached_binary_path is Some,
        start_post(a, os, arch, r1),
        cache_stat_post(r1, true, r2),
    ensures
        r1.phase is CheckCache,
        (a.cached_binary_path matches Option::Some(p) ==> (r2.phase matches Phase::Done { path }
            && path@ == p@)),
{
}

/// A cached path whose file is gone does not end the resolution: the
/// machine proceeds exactly as it would with nothing cached, beginning a
/// full re-resolution at the release fetch (or failing at once on an
/// unsupported architecture).
pub proof fn lemma_cache_miss_re_resolves(
    a: Acquirer,
    os: Os,
    arch: Arch,
    r1: Resolution,
    r2: Resolution,
)
    requires
        arch_supported(arch),
        start_post(a, os, arch, r1),
        r1.phase is CheckCache,
        cache_stat_post(r1, false, r2),
    ensures
        r2.phase is NeedRelease,
{
}

/// On an architecture no binary is published for, a resolution never
/// enters any phase that touches the network or the release registry: a
/// cache miss fails immediately with the architecture error.
pub proof fn lemma_unsupported_arch_stays_offline(r: Resolution)
    requires
        r.wf(),
        !arch_supported(r.arch),
    ensures
        r.phase !is NeedRelease,
        r.phase !is CheckInstalled,
        r.phase !is NeedDownload,
        r.phase !is NeedCleanup,
{
}

/// The immediate failure itself: with nothing cached, starting a
/// resolution on an unsupported architecture fails with the architecture
/// error before any other phase is entered.
pub proof fn lemma_unsupported_arch_fails_at_start(a: Acquirer, os: Os, arch: Arch, r: Resolution)
    requires
        !arch_supported(arch),
        a.cached_binary_path is None,
        start_post(a, os, arch, r),
    ensures
        (r.phase matches Phase::Failed { error } && error is UnsupportedArchitecture),
{
}

/// Idempotence: once a resolution has finished and its path been recorded,
/// a second resolution that finds that file on disk yields the identical
/// path, completing at the cache probe — no second fetch, download or
/// cleanup takes place.
pub proof fn lemma_second_resolution_idempotent(
    a0: Acquirer,
    done: Resolution,
    a1: Acquirer,
    os: Os,
    arch: Arch,
    r1: Resolution,
    r2: Resolution,
)
    requires
        done.phase is Done,
        record_post(a0, done, a1),
        start_post(a1, os, arch, r1),
        cache_stat_post(r1, true, r2),
    ensures
        r1.phase is CheckCache,
        (done.phase matches Phase::Done { path } ==> (r2.phase matches Phase::Done { path: p2 }
            && p2@ == path@)),
{
}

/// The phase a cache miss steps to, executed.
fn cache_miss_phase(arch: Arch) -> (r: Phase)
    ensures
        cache_miss_step(arch, r),
{
    match arch {
        Arch::X86 => Phase::Failed { error: AcquireError::UnsupportedArchitecture },
        _ => Phase::NeedRelease,
    }
}

impl Acquirer {
    /// A fresh acquirer with nothing cached.
    pub fn new() -> (r: Acquirer)
        ensures
            r.cached_binary_path is None,
    {
        Acquirer { cached_binary_path: None }
    }

    /// Begins a resolution for the given platform.
    pub fn start(&self, os: Os, arch: Arch) -> (r: Resolution)
        ensures
            start_post(*self, os, arch, r),
            r.wf(),
    {
        match &self.cached_binary_path {
            Some(p) => Resolution { os, arch, phase: Phase::CheckCache { path: p.clone() } },
            None => Resolution { os, arch, phase: cache_miss_phase(arch) },
        }
    }

    /// Records a finished resolution's path as the cached path.
    pub fn record(&mut self, done: &Resolution)
        requires
            done.phase is Done,
        ensures
            record_post(*old(self), *done, *final(self)),
    {
        match &done.phase {
            Phase::Done { path } => {
                self.cached_binary_path = Some(path.clone());
            },
            _ => {},
        }
    }
}

impl Resolution {
    /// Feeds back whether the cached path is still a regular file.
    pub fn on_cache_stat(self, is_file: bool) -> (r: Resolution)
        requires
            self.phase is CheckCache,
        ensures
            cache_stat_post(self, is_file, r),
            r.wf(),
    {
        let Resolution { os, arch, phase } = self;
        match phase {
            Phase::CheckCache { path } => {
                if is_file {
                    Resolution { os, arch, phase: Phase::Done { path } }
                } else {
                    Resolution { os, arch, phase: cache_miss_phase(arch) }
                }
            },
            _ => unreached(),
        }
    }

    /// Feeds back the release registry's answer.
    pub fn on_release(self, result: Result<Release, String>) -> (r: Resolution)
        requires
            self.phase is NeedRelease,
            self.wf(),
        ensures
            release_post(self, result, r),
            r.wf(),
    {
        let Resolution { os, arch, phase: _ } = self;
        match result {
            Ok(rel) => {
                let Release { version, assets } = rel;
                let version_dir = version_dir_name(version.as_str());
                let binary_path = binary_path_name(version.as_str(), os);
                Resolution {
                    os,
                    arch,
                    phase: Phase::CheckInstalled { version, version_dir, binary_path, assets },
                }
            },
            Err(m) => Resolution {
                os,
                arch,
                phase: Phase::Failed { error: AcquireError::ReleaseFetch(m) },
            },
        }
    }

    /// Feeds back whether the target binary path is already a regular file.
    pub fn on_install_stat(self, is_file: bool) -> (r: Resolution)
        requires
            self.phase is CheckInstalled,
            self.wf(),
        ensures
            install_stat_post(self, is_file, r),
            r.wf(),
    {
        let Resolution { os, arch, phase } = self;
        match phase {
            Phase::CheckInstalled { version, version_dir, binary_path, assets } => {
                if is_file {
                    Resolution { os, arch, phase: Phase::Done { path: binary_path } }
                } else {
                    let expected = match expected_asset_name(os, arch) {
                        Ok(n) => n,
                        Err(e) => unreached(),
                    };
                    match find_asset(&assets, &expected) {
                        Some(i) => {
                            let url = assets[i].download_url.clone();
                            proof {
                                assert(assets.deep_view()[i as int].name == asset_name_of(
                                    os,
                                    arch,
                                ));
                                assert(url@ == assets.deep_view()[i as int].download_url);
                                assert(forall|j: int|
                                    0 <= j < i ==> assets.deep_view()[j].name != asset_name_of(
                                        os,
                                        arch,
                                    ));
                            }
                            Resolution {
                                os,
                                arch,
                                phase: Phase::NeedDownload {
                                    version,
                                    version_dir,
                                    binary_path,
                                    url,
                                    kind: os.archive_kind(),
                                },
                            }
                        },
                        None => Resolution {
                            os,
                            arch,
                            phase: Phase::Failed {
                                error: AcquireError::NoMatchingAsset(expected),
                            },
                        },
                    }
                }
            },
            _ => unreached(),
        }
    }

    /// Feeds back whether the download and extraction succeeded.
    pub fn on_download(self, result: Result<(), String>) -> (r: Resolution)
        requires
            self.phase is NeedDownload,
            self.wf(),
        ensures
            download_post(self, result, r),
            r.wf(),
    {
        let Resolution { os, arch, phase } = self;
        match phase {
            Phase::NeedDownload { version, version_dir, binary_path, url, kind } => {
                match result {
                    Ok(u) => Resolution {
                        os,
                        arch,
                        phase: Phase::NeedCleanup { version, version_dir, binary_path },
                    },
                    Err(m) => Resolution {
                        os,
                        arch,
                        phase: Phase::Failed { error: AcquireError::Download(m) },
                    },
                }
            },
            _ => unreached(),
        }
    }

    /// Feeds back the working-directory listing. Besides the finished
    /// resolution, returns the entries to delete: deletion itself is the
    /// driver's, and each failure of it is deliberately ignored.
    pub fn on_dir_entries(self, result: Result<Vec<String>, String>) -> (r: (
        Resolution,
        Vec<String>,
    ))
        requires
            self.phase is NeedCleanup,
            self.wf(),
        ensures
            dir_entries_post(self, result, r.0, r.1),
            r.0.wf(),
    {
        let Resolution { os, arch, phase } = self;
        match phase {
            Phase::NeedCleanup { version, version_dir, binary_path } => {
                match result {
                    Ok(entries) => {
                        let stale = stale_entries(&entries, &version_dir);
                        (
                            Resolution { os, arch, phase: Phase::Done { path: binary_path } },
                            stale,
                        )
                    },
                    Err(m) => {
                        let stale: Vec<String> = Vec::new();
                        proof {
                            assert(stale.deep_view() =~= Seq::<Seq<char>>::empty());
                        }
                        (
                            Resolution {
                                os,
                                arch,
                                phase: Phase::Failed { error: AcquireError::ListDir(m) },
                            },
                            stale,
                        )
                    },
                }
            },
            _ => unreached(),
        }
    }
}

} // verus!
