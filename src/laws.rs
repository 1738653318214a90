use vstd::prelude::*;
use crate::cleanup::{is_stale, stale_entries};
use crate::naming::{binary_path_spec, version_dir_spec};
use crate::platform::{arch_tag_spec, archive_kind_spec, Arch, ArchiveKind, Os};
use crate::resolver::{
    enter_download, installed_binary, next, start_spec, ActionView, BinaryView, ConfiguredView,
    ErrorView, EventView, InstallStatus, ResolverView, StageView,
};

verus! {

broadcast use vstd::seq_lib::group_filter_ensures;

/// A resolution asks for the settings before anything else, and a configured
/// binary path is returned as it stands, with its configured arguments. Nothing
/// else is asked for: neither the search path, nor the cache, nor the network.
pub proof fn configured_path_wins(s: ResolverView, c: ConfiguredView)
    requires
        c.path is Some,
    ensures
        start_spec(s).1 == ActionView::ReadSettings,
        next(start_spec(s).0, EventView::Settings(Ok(Some(c)))).1 == ActionView::Finish(
            Ok(BinaryView { path: c.path->0, args: c.arguments }),
        ),
        next(start_spec(s).0, EventView::Settings(Ok(Some(c)))).0.stage == StageView::Idle,
        next(start_spec(s).0, EventView::Settings(Ok(Some(c)))).0.cached == s.cached,
{
}

/// A binary found on the search path is returned without arguments, whether or
/// not a download is cached.
pub proof fn search_path_wins_over_cache(s: ResolverView, p: Seq<char>)
    requires
        s.stage == StageView::AwaitSearchPath,
    ensures
        next(s, EventView::Located(Some(p))).1 == ActionView::Finish(Ok(BinaryView { path: p, args: None })),
{
}

/// Where nothing is configured and nothing is on the search path, a cached
/// binary is checked on disk, and returned, without any fetch, if it is there.
pub proof fn cached_binary_is_reused(s: ResolverView, c: Seq<char>)
    requires
        s.stage == StageView::AwaitSearchPath,
        s.cached == Some(c),
    ensures
        next(s, EventView::Located(None)).1 == ActionView::CheckFile(c),
        next(next(s, EventView::Located(None)).0, EventView::FileChecked(true)).1 == ActionView::Finish(
            Ok(BinaryView { path: c, args: Some(Seq::empty()) }),
        ),
{
}

/// A cached binary that is no longer on disk leads to the download branch.
pub proof fn missing_cached_binary_downloads(s: ResolverView, c: Seq<char>)
    requires
        s.stage == StageView::AwaitCacheCheck(c),
        arch_tag_spec(s.arch) is Some,
    ensures
        next(s, EventView::FileChecked(false)) == enter_download(s),
        next(s, EventView::FileChecked(false)).1 == ActionView::ReportStatus(InstallStatus::CheckingForUpdate),
        next(next(s, EventView::FileChecked(false)).0, EventView::StatusReported).1 is FetchLatestRelease,
{
}

/// Windows releases are zip archives, all others gzip-compressed tar archives,
/// and the download asks for the archive kind of the resolver's platform.
pub proof fn archive_kind_by_platform(s: ResolverView, version: Seq<char>, url: Seq<char>)
    requires
        s.stage == (StageView::AwaitDownloadingReported { version, url }),
    ensures
        archive_kind_spec(Os::Windows) == ArchiveKind::Zip,
        archive_kind_spec(Os::Mac) == ArchiveKind::GzipTar,
        archive_kind_spec(Os::Linux) == ArchiveKind::GzipTar,
        next(s, EventView::StatusReported).1 == (ActionView::Download {
            url,
            directory: version_dir_spec(version),
            kind: if s.os == Os::Windows { ArchiveKind::Zip } else { ArchiveKind::GzipTar },
        }),
{
}

/// On an architecture without releases the download branch fails at once with
/// `UnsupportedArchitecture`, before any fetch, whichever way it is reached.
pub proof fn unsupported_architecture_fails_early(s: ResolverView, c: Seq<char>)
    requires
        s.arch == Arch::X86,
    ensures
        enter_download(s).1 == ActionView::Finish(Err(ErrorView::UnsupportedArchitecture)),
        s.stage == StageView::AwaitSearchPath && s.cached is None ==> next(s, EventView::Located(None)).1
            == ActionView::Finish(Err(ErrorView::UnsupportedArchitecture)),
        s.stage == StageView::AwaitCacheCheck(c) ==> next(s, EventView::FileChecked(false)).1
            == ActionView::Finish(Err(ErrorView::UnsupportedArchitecture)),
{
}

/// After release `version` is downloaded and cleaned up, the cache holds its
/// binary path, which is returned; the next resolution, with nothing configured
/// and nothing on the search path, finds that binary on disk and returns it
/// without downloading again. A release already unpacked is not downloaded.
pub proof fn download_is_cached(s: ResolverView, version: Seq<char>, url: Seq<char>, failed: Seq<Seq<char>>)
    requires
        s.stage == (StageView::AwaitRemoval { version }),
    ensures
        ({
            let (s1, a1) = next(s, EventView::Removed(failed));
            let s2 = start_spec(s1).0;
            let s3 = next(s2, EventView::Settings(Ok(None))).0;
            let (s4, a4) = next(s3, EventView::Located(None));
            &&& a1 == ActionView::Finish(Ok(installed_binary(version)))
            &&& s1.cached == Some(binary_path_spec(version))
            &&& a4 == ActionView::CheckFile(binary_path_spec(version))
            &&& next(s4, EventView::FileChecked(true)).1 == ActionView::Finish(Ok(installed_binary(version)))
        }),
        ({
            let t = ResolverView { stage: StageView::AwaitInstalledCheck { version, url }, ..s };
            &&& next(t, EventView::FileChecked(true)).1 == ActionView::Finish(Ok(installed_binary(version)))
            &&& next(t, EventView::FileChecked(true)).0.cached == Some(binary_path_spec(version))
        }),
{
}

/// The cleanup removes exactly the entries of the working directory not named
/// after the current version's directory, and a failed removal does not fail
/// the resolution.
pub proof fn cleanup_keeps_only_current_version(
    s: ResolverView,
    version: Seq<char>,
    names: Seq<Seq<char>>,
    failed: Seq<Seq<char>>,
)
    requires
        s.stage == (StageView::AwaitListing { version }),
    ensures
        next(s, EventView::Listed(Ok(names))).1 == ActionView::RemoveEntries(
            stale_entries(names, version_dir_spec(version)),
        ),
        forall|n: Seq<char>| #[trigger]
            stale_entries(names, version_dir_spec(version)).contains(n) <==> names.contains(n) && n
                != version_dir_spec(version),
        next(next(s, EventView::Listed(Ok(names))).0, EventView::Removed(failed)).1 == ActionView::Finish(
            Ok(installed_binary(version)),
        ),
{
    assert forall|n: Seq<char>| #[trigger]
        stale_entries(names, version_dir_spec(version)).contains(n) <==> names.contains(n) && n
            != version_dir_spec(version) by {
        let keep = version_dir_spec(version);
        let pred = is_stale(keep);
        if names.contains(n) && n != keep {
            let i = choose|i: int| 0 <= i < names.len() && names[i] == n;
            names.lemma_filter_contains(pred, i);
        }
        if stale_entries(names, keep).contains(n) {
            let j = choose|j: int| 0 <= j < names.filter(pred).len() && names.filter(pred)[j] == n;
            names.lemma_filter_pred(pred, j);
            names.lemma_filter_contains_rev(pred, n);
        }
    }
}

} // verus!
