//! Platform identity and the names derived from it: release asset, archive
//! kind and executable.
use vstd::prelude::*;
use vstd::string::StringExecFns;

verus! {

/// The operating systems the host reports.
#[derive(Clone, Copy, Debug, PartialEq, Eq, Structural)]
pub enum Os {
    Mac,
    Linux,
    Windows,
}

/// The processor architectures the host reports.
#[derive(Clone, Copy, Debug, PartialEq, Eq, Structural)]
pub enum Architecture {
    Aarch64,
    X8664,
    X86,
}

/// How the host downloader treats a fetched asset.
#[derive(Clone, Copy, Debug, PartialEq, Eq, Structural)]
pub enum DownloadKind {
    /// Stored as fetched.
    Uncompressed,
    /// Unzipped in place.
    Zip,
}

/// Release assets exist for these architectures only.
pub open spec fn is_supported(arch: Architecture) -> bool {
    arch != Architecture::X86
}

pub open spec fn arch_token_of(arch: Architecture) -> Seq<char> {
    match arch {
        Architecture::Aarch64 => "aarch64"@,
        Architecture::X8664 => "x86_64"@,
        Architecture::X86 => Seq::empty(),
    }
}

pub open spec fn os_token_of(os: Os) -> Seq<char> {
    match os {
        Os::Mac => "macos"@,
        Os::Linux => "linux-musl"@,
        Os::Windows => "windows"@,
    }
}

/// `<arch>-<os>`: the asset name without its extension, also the name of the
/// per-platform directory inside a version directory.
pub open spec fn stem_of(os: Os, arch: Architecture) -> Seq<char> {
    arch_token_of(arch) + "-"@ + os_token_of(os)
}

pub open spec fn extension_of(os: Os) -> Seq<char> {
    match os {
        Os::Linux => "tar.xz"@,
        Os::Mac | Os::Windows => "zip"@,
    }
}

/// `<arch>-<os>.<ext>`: the release asset that fits the platform.
pub open spec fn asset_name_of(os: Os, arch: Architecture) -> Seq<char> {
    stem_of(os, arch) + "."@ + extension_of(os)
}

pub open spec fn executable_name_of(os: Os) -> Seq<char> {
    match os {
        Os::Mac | Os::Linux => "superhtml"@,
        Os::Windows => "superhtml.exe"@,
    }
}

pub open spec fn download_kind_of(os: Os) -> DownloadKind {
    match os {
        Os::Linux => DownloadKind::Uncompressed,
        Os::Mac | Os::Windows => DownloadKind::Zip,
    }
}

/// Whether release assets exist for `arch`.
pub fn is_supported_architecture(arch: Architecture) -> (r: bool)
    ensures
        r == is_supported(arch),
{
    match arch {
        Architecture::X86 => false,
        _ => true,
    }
}

/// The architecture token of an asset name.
pub fn arch_token(arch: Architecture) -> (r: Option<String>)
    ensures
        r is Some <==> is_supported(arch),
        r matches Some(t) ==> t@ == arch_token_of(arch),
{
    match arch {
        Architecture::Aarch64 => Some(String::from_str("aarch64")),
        Architecture::X8664 => Some(String::from_str("x86_64")),
        Architecture::X86 => None,
    }
}

/// The operating-system token of an asset name.
pub fn os_token(os: Os) -> (r: String)
    ensures
        r@ == os_token_of(os),
{
    match os {
        Os::Mac => String::from_str("macos"),
        Os::Linux => String::from_str("linux-musl"),
        Os::Windows => String::from_str("windows"),
    }
}

/// The asset name without extension, or `None` on an unsupported
/// architecture.
pub fn asset_stem(os: Os, arch: Architecture) -> (r: Option<String>)
    ensures
        r is Some <==> is_supported(arch),
        r matches Some(s) ==> s@ == stem_of(os, arch),
{
    match arch_token(arch) {
        None => None,
        Some(mut s) => {
            s.append("-");
            let o = os_token(os);
            s.append(o.as_str());
            Some(s)
        },
    }
}

/// The archive extension of the asset, without its leading dot.
pub fn archive_extension(os: Os) -> (r: String)
    ensures
        r@ == extension_of(os),
{
    match os {
        Os::Linux => String::from_str("tar.xz"),
        Os::Mac | Os::Windows => String::from_str("zip"),
    }
}

/// The full asset name, or `None` on an unsupported architecture.
pub fn asset_name(os: Os, arch: Architecture) -> (r: Option<String>)
    ensures
        r is Some <==> is_supported(arch),
        r matches Some(s) ==> s@ == asset_name_of(os, arch),
{
    match asset_stem(os, arch) {
        None => None,
        Some(mut s) => {
            s.append(".");
            let e = archive_extension(os);
            s.append(e.as_str());
            Some(s)
        },
    }
}

/// The file name of the installed executable.
pub fn executable_name(os: Os) -> (r: String)
    ensures
        r@ == executable_name_of(os),
{
    match os {
        Os::Mac | Os::Linux => String::from_str("superhtml"),
        Os::Windows => String::from_str("superhtml.exe"),
    }
}

/// How the downloader must treat the asset.
pub fn download_kind(os: Os) -> (r: DownloadKind)
    ensures
        r == download_kind_of(os),
{
    match os {
        Os::Linux => DownloadKind::Uncompressed,
        Os::Mac | Os::Windows => DownloadKind::Zip,
    }
}

} // verus!
