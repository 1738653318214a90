use vstd::prelude::*;
use vstd::string::StringExecFns;
use crate::platform::{archive_kind, archive_kind_spec, archive_suffix, archive_suffix_spec, arch_tag,
    arch_tag_spec, os_tag, os_tag_spec, Arch, Os};

verus! {

/// The command name of the server, on the search path and inside a release.
pub open spec fn server_name_spec() -> Seq<char> {
    "ltex-ls-plus"@
}

/// The command name of the server.
pub fn server_name() -> (r: &'static str)
    ensures
        r@ == server_name_spec(),
{
    "ltex-ls-plus"
}

/// The upstream repository whose releases carry the server.
pub open spec fn repository_spec() -> Seq<char> {
    "ltex-plus/ltex-ls-plus"@
}

/// The upstream repository whose releases carry the server.
pub fn repository() -> (r: String)
    ensures
        r@ == repository_spec(),
{
    "ltex-plus/ltex-ls-plus".to_owned()
}

/// The directory into which release `version` is unpacked.
pub open spec fn version_dir_spec(version: Seq<char>) -> Seq<char> {
    "ltex-ls-plus-"@ + version
}

/// The executable inside the unpacked release `version`.
pub open spec fn binary_path_spec(version: Seq<char>) -> Seq<char> {
    version_dir_spec(version) + "/"@ + version_dir_spec(version) + "/bin/ltex-ls-plus"@
}

/// The file name of the release asset of `version` for `os` and `arch`, or `None`
/// where no release is built for `arch`.
pub open spec fn asset_name_spec(version: Seq<char>, os: Os, arch: Arch) -> Option<Seq<char>> {
    match arch_tag_spec(arch) {
        Some(tag) => Some(
            "ltex-ls-plus-"@ + version + "-"@ + os_tag_spec(os) + "-"@ + tag + "."@
                + archive_suffix_spec(archive_kind_spec(os)),
        ),
        None => None,
    }
}

/// The directory into which release `version` is unpacked.
pub fn version_dir(version: &str) -> (r: String)
    ensures
        r@ == version_dir_spec(version@),
{
    let mut r = "ltex-ls-plus-".to_owned();
    r.append(version);
    r
}

/// The executable inside the unpacked release `version`.
pub fn binary_path(version: &str) -> (r: String)
    ensures
        r@ == binary_path_spec(version@),
{
    let dir = version_dir(version);
    let mut r = dir.clone();
    r.append("/");
    r.append(dir.as_str());
    r.append("/bin/ltex-ls-plus");
    r
}

/// The file name of the release asset of `version` for `os` and `arch`.
pub fn asset_name(version: &str, os: Os, arch: Arch) -> (r: Option<String>)
    ensures
        r matches Some(n) ==> asset_name_spec(version@, os, arch) == Some(n@),
        r is None <==> asset_name_spec(version@, os, arch) is None,
{
    match arch_tag(arch) {
        Some(tag) => {
            let mut r = "ltex-ls-plus-".to_owned();
            r.append(version);
            r.append("-");
            r.append(os_tag(os));
            r.append("-");
            r.append(tag);
            r.append(".");
            r.append(archive_suffix(archive_kind(os)));
            Some(r)
        },
        None => None,
    }
}

} // verus!
