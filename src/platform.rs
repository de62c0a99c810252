use vstd::prelude::*;
use crate::names::{otp_suffix, otp_suffix_of};

verus! {

/// The host operating system.
#[derive(Clone, Copy, Debug, PartialEq, Eq, Structural)]
pub enum Os {
    Mac,
    Linux,
    Windows,
}

/// The host processor architecture.
#[derive(Clone, Copy, Debug, PartialEq, Eq, Structural)]
pub enum Architecture {
    Aarch64,
    X8664,
    X86,
}

/// How a server's release assets are named.
#[derive(Clone, Copy, Debug, PartialEq, Eq, Structural)]
pub enum AssetScheme {
    /// `{stem}-{os}-{arch}-{target}-otp-{tag}.tar.gz`; 32-bit x86 has no asset.
    OsArchTarget,
    /// `{stem}-{os}-{tag}.tar.gz`, for every architecture.
    OsOnly,
}

pub open spec fn os_word(os: Os) -> Seq<char> {
    match os {
        Os::Mac => "macos"@,
        Os::Linux => "linux"@,
        Os::Windows => "windows"@,
    }
}

pub open spec fn os_target_word(os: Os) -> Seq<char> {
    match os {
        Os::Mac => "apple-darwin"@,
        Os::Linux => "unknown-linux-gnu"@,
        Os::Windows => "pc-windows-msvc"@,
    }
}

pub open spec fn arch_word(arch: Architecture) -> Seq<char> {
    match arch {
        Architecture::Aarch64 => "aarch64"@,
        Architecture::X8664 => "x86_64"@,
        Architecture::X86 => "x86"@,
    }
}

/// An architecture for which the scheme names an asset.
pub open spec fn scheme_supports(scheme: AssetScheme, arch: Architecture) -> bool {
    scheme == AssetScheme::OsOnly || arch != Architecture::X86
}

/// The asset file name that a release holds for this host and runtime tag.
pub open spec fn asset_name_of(
    scheme: AssetScheme,
    stem: Seq<char>,
    os: Os,
    arch: Architecture,
    tag: Seq<char>,
) -> Seq<char> {
    match scheme {
        AssetScheme::OsArchTarget => stem + seq!['-'] + os_word(os) + seq!['-'] + arch_word(arch)
            + seq!['-'] + os_target_word(os) + seq!['-'] + otp_suffix_of(tag) + ".tar.gz"@,
        AssetScheme::OsOnly => stem + seq!['-'] + os_word(os) + seq!['-'] + tag + ".tar.gz"@,
    }
}

/// The word naming an operating system in asset names.
pub fn os_token(os: Os) -> (r: &'static str)
    ensures
        r@ == os_word(os),
{
    match os {
        Os::Mac => "macos",
        Os::Linux => "linux",
        Os::Windows => "windows",
    }
}

/// The target triple tail of an operating system in asset names.
pub fn os_target_token(os: Os) -> (r: &'static str)
    ensures
        r@ == os_target_word(os),
{
    match os {
        Os::Mac => "apple-darwin",
        Os::Linux => "unknown-linux-gnu",
        Os::Windows => "pc-windows-msvc",
    }
}

/// The word naming an architecture in asset names.
pub fn arch_token(arch: Architecture) -> (r: &'static str)
    ensures
        r@ == arch_word(arch),
{
    match arch {
        Architecture::Aarch64 => "aarch64",
        Architecture::X8664 => "x86_64",
        Architecture::X86 => "x86",
    }
}

/// The name of the asset to download, or `None` where the scheme has no asset
/// for this architecture.
pub fn asset_name(scheme: AssetScheme, stem: &str, os: Os, arch: Architecture, tag: &str) -> (r:
    Option<String>)
    ensures
        scheme_supports(scheme, arch) <==> r is Some,
        r is Some ==> r->0@ == asset_name_of(scheme, stem@, os, arch, tag@),
{
    let mut r = String::from_str(stem);
    r.append("-");
    r.append(os_token(os));
    r.append("-");
    match scheme {
        AssetScheme::OsArchTarget => {
            if arch == Architecture::X86 {
                return None;
            }
            r.append(arch_token(arch));
            r.append("-");
            r.append(os_target_token(os));
            r.append("-");
            let suffix = otp_suffix(tag);
            r.append(suffix.as_str());
        },
        AssetScheme::OsOnly => {
            r.append(tag);
        },
    }
    r.append(".tar.gz");
    proof {
        reveal_strlit("-");
    }
    assert(r@ =~= asset_name_of(scheme, stem@, os, arch, tag@));
    Some(r)
}

} // verus!
