//! The install layout: which asset of a release to fetch, where it goes, how
//! it is unpacked, and which old entries of the working directory go away.
use vstd::prelude::*;
use vstd::string::StringExecFns;
use crate::error::{asset_not_found, asset_not_found_message, ErrorKind, ResolveError};
use crate::platform::{
    asset_name, asset_name_of, asset_stem, executable_name, executable_name_of, is_supported,
    stem_of, Architecture, Os,
};

verus! {

/// A downloadable file of a release.
#[derive(Clone, Debug)]
pub struct Asset {
    pub name: String,
    pub download_url: String,
}

/// A release of the feed: its version and its assets.
#[derive(Clone, Debug)]
pub struct Release {
    pub version: String,
    pub assets: Vec<Asset>,
}

pub open spec fn asset_names(assets: Seq<Asset>) -> Seq<Seq<char>> {
    assets.map_values(|a: Asset| a.name@)
}

/// The first index at or after `start` whose asset is named `name`.
pub open spec fn find_from(assets: Seq<Asset>, name: Seq<char>, start: int) -> Option<int>
    decreases assets.len() - start,
{
    if start < 0 || start >= assets.len() {
        None
    } else if assets[start].name@ == name {
        Some(start)
    } else {
        find_from(assets, name, start + 1)
    }
}

/// The first asset named `name`, if any.
pub open spec fn find_asset_spec(assets: Seq<Asset>, name: Seq<char>) -> Option<int> {
    find_from(assets, name, 0)
}

proof fn lemma_find_from_spec(assets: Seq<Asset>, name: Seq<char>, start: int)
    requires
        0 <= start,
    ensures
        find_from(assets, name, start) matches Some(i) ==> start <= i < assets.len()
            && assets[i].name@ == name && forall|j: int| start <= j < i ==> assets[j].name@ != name,
        find_from(assets, name, start) is None ==> forall|j: int|
            start <= j < assets.len() ==> assets[j].name@ != name,
    decreases assets.len() - start,
{
    if start < assets.len() && assets[start].name@ != name {
        lemma_find_from_spec(assets, name, start + 1);
    }
}

/// The index of the first asset named `name`.
pub fn find_asset(assets: &Vec<Asset>, name: &String) -> (r: Option<usize>)
    ensures
        r is None <==> find_asset_spec(assets@, name@) is None,
        r matches Some(i) ==> find_asset_spec(assets@, name@) == Some(i as int),
        r matches Some(i) ==> i < assets@.len() && assets@[i as int].name@ == name@,
        r is None ==> forall|j: int| 0 <= j < assets@.len() ==> assets@[j].name@ != name@,
{
    proof {
        lemma_find_from_spec(assets@, name@, 0);
    }
    let mut i: usize = 0;
    while i < assets.len()
        invariant
            i <= assets@.len(),
            find_from(assets@, name@, 0) == find_from(assets@, name@, i as int),
        decreases assets@.len() - i,
    {
        if assets[i].name == *name {
            return Some(i);
        }
        i = i + 1;
    }
    None
}

/// Where a release is installed, and from where it is fetched.
#[derive(Clone, Debug)]
pub struct InstallPlan {
    /// `superhtml-<version>`: the one entry of the working directory kept.
    pub version_dir: String,
    /// `<version_dir>/<arch>-<os>`.
    pub binary_dir: String,
    /// `<binary_dir>/<executable>`.
    pub binary_path: String,
    pub download_url: String,
}

pub struct PlanView {
    pub version_dir: Seq<char>,
    pub binary_dir: Seq<char>,
    pub binary_path: Seq<char>,
    pub download_url: Seq<char>,
}

impl View for InstallPlan {
    type V = PlanView;

    open spec fn view(&self) -> PlanView {
        PlanView {
            version_dir: self.version_dir@,
            binary_dir: self.binary_dir@,
            binary_path: self.binary_path@,
            download_url: self.download_url@,
        }
    }
}

pub open spec fn version_dir_of(version: Seq<char>) -> Seq<char> {
    "superhtml-"@ + version
}

pub open spec fn binary_dir_of(os: Os, arch: Architecture, version: Seq<char>) -> Seq<char> {
    version_dir_of(version) + "/"@ + stem_of(os, arch)
}

pub open spec fn binary_path_of(os: Os, arch: Architecture, version: Seq<char>) -> Seq<char> {
    binary_dir_of(os, arch, version) + "/"@ + executable_name_of(os)
}

pub open spec fn unsupported_message() -> Seq<char> {
    "unsupported architecture"@
}

/// The install of `release` on the platform, or why there is none.
pub open spec fn plan_of(os: Os, arch: Architecture, release: Release) -> Result<
    PlanView,
    (ErrorKind, Seq<char>),
> {
    if !is_supported(arch) {
        Err((ErrorKind::UnsupportedPlatform, unsupported_message()))
    } else {
        match find_asset_spec(release.assets@, asset_name_of(os, arch)) {
            None => Err(
                (
                    ErrorKind::AssetNotFound,
                    asset_not_found_message(
                        asset_name_of(os, arch),
                        asset_names(release.assets@),
                    ),
                ),
            ),
            Some(i) => Ok(
                PlanView {
                    version_dir: version_dir_of(release.version@),
                    binary_dir: binary_dir_of(os, arch, release.version@),
                    binary_path: binary_path_of(os, arch, release.version@),
                    download_url: release.assets@[i].download_url@,
                },
            ),
        }
    }
}

/// The error for an architecture without release assets.
pub fn unsupported_error() -> (r: ResolveError)
    ensures
        r@ == (ErrorKind::UnsupportedPlatform, unsupported_message()),
{
    ResolveError {
        kind: ErrorKind::UnsupportedPlatform,
        message: String::from_str("unsupported architecture"),
    }
}

/// Picks the asset of `release` for the platform and lays out its install.
pub fn plan_install(os: Os, arch: Architecture, release: &Release) -> (r: Result<
    InstallPlan,
    ResolveError,
>)
    ensures
        match (r, plan_of(os, arch, *release)) {
            (Ok(p), Ok(v)) => p@ == v,
            (Err(e), Err(v)) => e@ == v,
            _ => false,
        },
{
    let name = match asset_name(os, arch) {
        Some(n) => n,
        None => {
            return Err(unsupported_error());
        },
    };
    let stem = match asset_stem(os, arch) {
        Some(s) => s,
        None => {
            return Err(unsupported_error());
        },
    };
    match find_asset(&release.assets, &name) {
        None => {
            let mut offered: Vec<String> = Vec::new();
            let mut i: usize = 0;
            while i < release.assets.len()
                invariant
                    i <= release.assets@.len(),
                    offered@.map_values(|n: String| n@) =~= asset_names(
                        release.assets@.take(i as int),
                    ),
                decreases release.assets@.len() - i,
            {
                let ghost before = offered@;
                offered.push(release.assets[i].name.clone());
                proof {
                    assert(offered@.map_values(|n: String| n@) =~= before.map_values(
                        |n: String| n@,
                    ).push(release.assets@[i as int].name@));
                    assert(release.assets@.take(i + 1) =~= release.assets@.take(i as int).push(
                        release.assets@[i as int],
                    ));
                }
                i = i + 1;
            }
            assert(release.assets@.take(release.assets@.len() as int) =~= release.assets@);
            Err(asset_not_found(&name, &offered))
        },
        Some(i) => {
            let mut version_dir = String::from_str("superhtml-");
            version_dir.append(release.version.as_str());
            let mut binary_dir = version_dir.clone();
            binary_dir.append("/");
            binary_dir.append(stem.as_str());
            let mut binary_path = binary_dir.clone();
            binary_path.append("/");
            let exe = executable_name(os);
            binary_path.append(exe.as_str());
            Ok(
                InstallPlan {
                    version_dir,
                    binary_dir,
                    binary_path,
                    download_url: release.assets[i].download_url.clone(),
                },
            )
        },
    }
}

/// What a listed entry's name is seen as: `None` where it is not valid text.
pub open spec fn entry_names(names: Seq<Option<String>>) -> Seq<Option<Seq<char>>> {
    names.map_values(
        |n: Option<String>|
            match n {
                Some(t) => Some(t@),
                None => None,
            },
    )
}

/// The indices, in increasing order, of the entries not named `keep`.
pub open spec fn stale_indices(names: Seq<Option<Seq<char>>>, keep: Seq<char>) -> Seq<usize>
    decreases names.len(),
{
    if names.len() == 0 {
        Seq::empty()
    } else {
        let earlier = stale_indices(names.drop_last(), keep);
        if names.last() == Some(keep) {
            earlier
        } else {
            earlier.push((names.len() - 1) as usize)
        }
    }
}

/// The working directory's entries to remove once `keep` is installed: all
/// others, whatever their names.
pub fn stale_entries(names: &Vec<Option<String>>, keep: &String) -> (r: Vec<usize>)
    ensures
        r@ == stale_indices(entry_names(names@), keep@),
{
    let ghost all = entry_names(names@);
    let mut r: Vec<usize> = Vec::new();
    let mut i: usize = 0;
    while i < names.len()
        invariant
            i <= names@.len(),
            all == entry_names(names@),
            r@ == stale_indices(all.take(i as int), keep@),
        decreases names@.len() - i,
    {
        proof {
            assert(all.take(i + 1).drop_last() =~= all.take(i as int));
        }
        let matches_keep = match &names[i] {
            Some(n) => *n == *keep,
            None => false,
        };
        if !matches_keep {
            r.push(i);
        }
        i = i + 1;
    }
    assert(all.take(names@.len() as int) =~= all);
    r
}

/// `dir/rel`, as a path of `rel` under the absolute directory `dir`.
pub open spec fn joined(dir: Seq<char>, rel: Seq<char>) -> Seq<char> {
    if dir.len() > 0 && dir.last() == '/' {
        dir + rel
    } else {
        dir + "/"@ + rel
    }
}

/// The path of `rel` under the absolute directory `dir`.
pub fn join_path(dir: &String, rel: &String) -> (r: String)
    ensures
        r@ == joined(dir@, rel@),
{
    let mut r = dir.clone();
    let n = dir.unicode_len();
    if n > 0 && dir.get_char(n - 1) == '/' {
        r.append(rel.as_str());
    } else {
        r.append("/");
        r.append(rel.as_str());
    }
    r
}

/// The arguments of `tar` that unpack the archive at `binary_path` into
/// `binary_dir`, both taken under the working directory `cwd`.
pub open spec fn tar_args_of(cwd: Seq<char>, binary_path: Seq<char>, binary_dir: Seq<char>) -> Seq<
    Seq<char>,
> {
    seq!["-xf"@, joined(cwd, binary_path), "-C"@, joined(cwd, binary_dir)]
}

/// The arguments of `tar` for unpacking `plan`'s archive in place.
pub fn tar_args(cwd: &String, plan: &InstallPlan) -> (r: Vec<String>)
    ensures
        r@.map_values(|a: String| a@) == tar_args_of(cwd@, plan.binary_path@, plan.binary_dir@),
{
    let mut r: Vec<String> = Vec::new();
    r.push(String::from_str("-xf"));
    r.push(join_path(cwd, &plan.binary_path));
    r.push(String::from_str("-C"));
    r.push(join_path(cwd, &plan.binary_dir));
    assert(r@.map_values(|a: String| a@) =~= tar_args_of(
        cwd@,
        plan.binary_path@,
        plan.binary_dir@,
    ));
    r
}

} // verus!
