use vstd::prelude::*;

verus! {

/// The operating system the server runs on.
#[derive(Clone, Copy, Debug, PartialEq, Eq, Structural)]
pub enum Os {
    Mac,
    Linux,
    Windows,
}

/// The processor architecture the server runs on.
#[derive(Clone, Copy, Debug, PartialEq, Eq, Structural)]
pub enum Arch {
    Aarch64,
    X8664,
    X86,
}

/// How a release archive is packed.
#[derive(Clone, Copy, Debug, PartialEq, Eq, Structural)]
pub enum ArchiveKind {
    Zip,
    GzipTar,
}

/// Windows releases ship as zip archives, every other platform as gzip-compressed tar.
pub open spec fn archive_kind_spec(os: Os) -> ArchiveKind {
    match os {
        Os::Windows => ArchiveKind::Zip,
        _ => ArchiveKind::GzipTar,
    }
}

/// The archive kind in which the release for `os` is published.
pub fn archive_kind(os: Os) -> (r: ArchiveKind)
    ensures
        r == archive_kind_spec(os),
{
    match os {
        Os::Windows => ArchiveKind::Zip,
        _ => ArchiveKind::GzipTar,
    }
}

/// The tag that release file names use for an operating system.
pub open spec fn os_tag_spec(os: Os) -> Seq<char> {
    match os {
        Os::Mac => "mac"@,
        Os::Linux => "linux"@,
        Os::Windows => "windows"@,
    }
}

/// The tag of `os` in release file names.
pub fn os_tag(os: Os) -> (r: &'static str)
    ensures
        r@ == os_tag_spec(os),
{
    match os {
        Os::Mac => "mac",
        Os::Linux => "linux",
        Os::Windows => "windows",
    }
}

/// The tag that release file names use for an architecture; releases exist for
/// 64-bit ARM and 64-bit x86 only.
pub open spec fn arch_tag_spec(arch: Arch) -> Option<Seq<char>> {
    match arch {
        Arch::Aarch64 => Some("aarch64"@),
        Arch::X8664 => Some("x64"@),
        Arch::X86 => None,
    }
}

/// The tag of `arch` in release file names, or `None` where no release exists for it.
pub fn arch_tag(arch: Arch) -> (r: Option<&'static str>)
    ensures
        r matches Some(t) ==> arch_tag_spec(arch) == Some(t@),
        r is None <==> arch_tag_spec(arch) is None,
{
    match arch {
        Arch::Aarch64 => Some("aarch64"),
        Arch::X8664 => Some("x64"),
        Arch::X86 => None,
    }
}

/// The file extension of an archive of the given kind.
pub open spec fn archive_suffix_spec(kind: ArchiveKind) -> Seq<char> {
    match kind {
        ArchiveKind::Zip => "zip"@,
        ArchiveKind::GzipTar => "tar.gz"@,
    }
}

/// The file extension of an archive of kind `kind`.
pub fn archive_suffix(kind: ArchiveKind) -> (r: &'static str)
    ensures
        r@ == archive_suffix_spec(kind),
{
    match kind {
        ArchiveKind::Zip => "zip",
        ArchiveKind::GzipTar => "tar.gz",
    }
}

} // verus!
