//! What holds of every resolution.
use vstd::prelude::*;
use crate::error::{asset_not_found_message, ErrorKind};
use crate::install::{
    find_asset_spec, plan_of, stale_indices, unsupported_message, version_dir_of, Release,
};
use crate::platform::{asset_name_of, executable_name_of, is_supported, Architecture, Os};
use crate::resolver::{
    acquire, installed, start_spec, transition, ActionView, Event, InstallStatus, ResolverView,
    Stage, release_repo,
};

verus! {

/// The install location is a function of the platform and the release
/// version alone: two releases of one version, whatever their assets, are
/// installed at the same path, and under the executable name of the platform.
pub proof fn lemma_layout_follows_platform_and_version(
    os: Os,
    arch: Architecture,
    a: Release,
    b: Release,
)
    requires
        a.version@ == b.version@,
        plan_of(os, arch, a) is Ok,
        plan_of(os, arch, b) is Ok,
    ensures
        plan_of(os, arch, a)->Ok_0.binary_path == plan_of(os, arch, b)->Ok_0.binary_path,
        plan_of(os, arch, a)->Ok_0.binary_dir == plan_of(os, arch, b)->Ok_0.binary_dir,
        plan_of(os, arch, a)->Ok_0.binary_path.subrange(
            plan_of(os, arch, a)->Ok_0.binary_path.len() - executable_name_of(os).len(),
            plan_of(os, arch, a)->Ok_0.binary_path.len() as int,
        ) == executable_name_of(os),
{
    let p = plan_of(os, arch, a)->Ok_0;
    let n = executable_name_of(os);
    assert(p.binary_path.subrange(p.binary_path.len() - n.len(), p.binary_path.len() as int) =~= n);
}

/// On an architecture without assets, the resolution that the ambient lookup
/// does not settle ends at once with an unsupported-platform error: neither
/// the file system nor the release feed is asked anything.
pub proof fn lemma_unsupported_fails_at_once(s: ResolverView, os: Os, arch: Architecture)
    requires
        !is_supported(arch),
    ensures
        start_spec(s, os, arch).1 == ActionView::LookupAmbient("superhtml"@),
        transition(start_spec(s, os, arch).0, Event::Ambient(None)).1 == ActionView::Finish(
            Err((ErrorKind::UnsupportedPlatform, unsupported_message())),
        ),
        transition(start_spec(s, os, arch).0, Event::Ambient(None)).0.stage == Stage::Idle,
{
}

/// A release without the expected asset fails the resolution with an
/// asset-not-found error whose message holds the expected name.
pub proof fn lemma_missing_asset_is_named(os: Os, arch: Architecture, release: Release)
    requires
        is_supported(arch),
        forall|i: int|
            0 <= i < release.assets@.len() ==> release.assets@[i].name@ != asset_name_of(os, arch),
    ensures
        plan_of(os, arch, release) is Err,
        plan_of(os, arch, release)->Err_0.0 == ErrorKind::AssetNotFound,
        exists|k: int|
            0 <= k && k + asset_name_of(os, arch).len() <= plan_of(
                os,
                arch,
                release,
            )->Err_0.1.len() && #[trigger] plan_of(os, arch, release)->Err_0.1.subrange(
                k,
                k + asset_name_of(os, arch).len(),
            ) == asset_name_of(os, arch),
{
    lemma_find_none(release, asset_name_of(os, arch), 0);
    let name = asset_name_of(os, arch);
    let m = plan_of(os, arch, release)->Err_0.1;
    let k = "no asset found matching \""@.len() as int;
    assert(m.subrange(k, k + name.len()) =~= name);
}

proof fn lemma_find_none(release: Release, name: Seq<char>, start: int)
    requires
        0 <= start,
        forall|i: int| 0 <= i < release.assets@.len() ==> release.assets@[i].name@ != name,
    ensures
        crate::install::find_from(release.assets@, name, start) is None,
    decreases release.assets@.len() - start,
{
    if start < release.assets@.len() {
        lemma_find_none(release, name, start + 1);
    }
}

/// Once a resolution has installed the executable, the next one that finds
/// it still on disk returns the same path, without downloading or unpacking
/// anything and without asking the release feed.
pub proof fn lemma_repeat_resolution_reuses_install(
    s: ResolverView,
    os: Os,
    arch: Architecture,
)
    requires
        is_supported(arch),
    ensures
        ({
            let (done, first) = installed(s);
            let (s1, a1) = start_spec(done, os, arch);
            let (s2, a2) = transition(s1, Event::Ambient(None));
            let (s3, a3) = transition(s2, Event::FileChecked(true));
            &&& first == ActionView::Finish(Ok(s.plan.binary_path))
            &&& a1 == ActionView::LookupAmbient("superhtml"@)
            &&& a2 == ActionView::CheckFile(s.plan.binary_path)
            &&& a3 == first
            &&& s3.cached == Some(s.plan.binary_path)
            &&& s3.stage == Stage::Idle
        }),
{
}

/// A remembered path whose file has gone is not returned: the resolution
/// turns to acquisition and asks the release feed.
pub proof fn lemma_missing_cached_file_reacquires(
    s: ResolverView,
    os: Os,
    arch: Architecture,
    path: Seq<char>,
)
    requires
        is_supported(arch),
        s.cached == Some(path),
    ensures
        ({
            let (s1, a1) = start_spec(s, os, arch);
            let (s2, a2) = transition(s1, Event::Ambient(None));
            let (s3, a3) = transition(s2, Event::FileChecked(false));
            let (s4, a4) = transition(s3, Event::Acknowledged);
            &&& a2 == ActionView::CheckFile(path)
            &&& a3 == ActionView::ReportStatus(InstallStatus::CheckingForUpdate)
            &&& a4 == ActionView::QueryRelease(release_repo(), true, false)
            &&& s4.stage == Stage::Querying
        }),
{
}

/// The sweep after an install removes every entry of the working directory
/// but the version directory just installed, and nothing else.
pub proof fn lemma_sweep_keeps_only_installed_version(
    names: Seq<Option<Seq<char>>>,
    keep: Seq<char>,
)
    requires
        names.len() <= usize::MAX,
    ensures
        forall|k: int|
            0 <= k < stale_indices(names, keep).len() ==> {
                let i = #[trigger] stale_indices(names, keep)[k];
                i < names.len() && names[i as int] != Some(keep)
            },
        forall|i: int|
            0 <= i < names.len() && !stale_indices(names, keep).contains(i as usize) ==> #[trigger] names[i]
                == Some(keep),
    decreases names.len(),
{
    if names.len() > 0 {
        let earlier = names.drop_last();
        lemma_sweep_keeps_only_installed_version(earlier, keep);
        let r = stale_indices(names, keep);
        let e = stale_indices(earlier, keep);
        assert forall|k: int| 0 <= k < r.len() implies {
            let i = #[trigger] r[k];
            i < names.len() && names[i as int] != Some(keep)
        } by {
            if k < e.len() {
                assert(r[k] == e[k]);
                assert(names[e[k] as int] == earlier[e[k] as int]);
            }
        }
        assert forall|i: int|
            0 <= i < names.len() && !r.contains(i as usize) implies #[trigger] names[i] == Some(keep) by {
            if i < names.len() - 1 {
                assert(names[i] == earlier[i]);
                if e.contains(i as usize) {
                    let k = choose|k: int| 0 <= k < e.len() && e[k] == i as usize;
                    assert(r[k] == i as usize);
                }
            } else {
                if names.last() != Some(keep) {
                    assert(r[r.len() - 1] == i as usize);
                }
            }
        }
    }
}

/// Every version directory other than the one installed is swept: once the
/// listing of the working directory comes in, the resolver asks to remove
/// exactly the entries not named `superhtml-<version>` of the release
/// installed.
pub proof fn lemma_install_sweeps_other_versions(
    s: ResolverView,
    release: Release,
    names: Vec<Option<String>>,
)
    requires
        s.stage == Stage::Listing,
        plan_of(s.os, s.arch, release) is Ok,
        s.plan == plan_of(s.os, s.arch, release)->Ok_0,
    ensures
        s.plan.version_dir == version_dir_of(release.version@),
        transition(s, Event::Listed(Ok(names))).1 == ActionView::RemoveEntries(
            stale_indices(crate::install::entry_names(names@), version_dir_of(release.version@)),
        ),
        transition(s, Event::Listed(Ok(names))).0.stage == Stage::Sweeping,
{
}

/// An executable that the project's environment already exposes wins: it is
/// returned as found, the remembered path is left as it was, and the release
/// feed is never asked.
pub proof fn lemma_ambient_lookup_wins(s: ResolverView, os: Os, arch: Architecture, found: String)
    ensures
        ({
            let (s1, a1) = start_spec(s, os, arch);
            let (s2, a2) = transition(s1, Event::Ambient(Some(found)));
            &&& a1 == ActionView::LookupAmbient("superhtml"@)
            &&& a2 == ActionView::Finish(Ok(found@))
            &&& s2.cached == s.cached
            &&& s2.stage == Stage::Idle
        }),
{
}

} // verus!
