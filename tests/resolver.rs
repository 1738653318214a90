use ltex_resolver::cleanup::entries_to_remove;
use ltex_resolver::naming::{asset_name, binary_path, repository, server_name, version_dir};
use ltex_resolver::platform::{arch_tag, archive_kind, archive_suffix, os_tag, Arch, ArchiveKind, Os};
use ltex_resolver::release::{find_asset, Asset, Release};
use ltex_resolver::resolver::{
    Action, Binary, ConfiguredBinary, Event, InstallStatus, ResolveError, Resolver,
};

fn s(text: &str) -> String {
    text.to_string()
}

fn asset(name: &str, url: &str) -> Asset {
    Asset { name: s(name), download_url: s(url) }
}

fn release(version: &str) -> Release {
    Release {
        version: s(version),
        assets: vec![
            asset("ltex-ls-plus-18.2.0-linux-x64.tar.gz", "https://example.org/linux-x64"),
            asset("ltex-ls-plus-18.2.0-linux-aarch64.tar.gz", "https://example.org/linux-aarch64"),
            asset("ltex-ls-plus-18.2.0-mac-aarch64.tar.gz", "https://example.org/mac-aarch64"),
            asset("ltex-ls-plus-18.2.0-windows-x64.zip", "https://example.org/windows-x64"),
        ],
    }
}

fn step(r: &mut Resolver, e: Event) -> Action {
    assert!(r.accepts(&e));
    r.step(e)
}

/// Runs a resolution with nothing configured, nothing on the search path and no
/// cached binary, up to the fetch of the latest release.
fn to_release_fetch(r: &mut Resolver) {
    assert_eq!(r.start(), Action::ReadSettings);
    assert_eq!(step(r, Event::Settings(Ok(None))), Action::FindOnPath(s("ltex-ls-plus")));
    assert_eq!(
        step(r, Event::Located(None)),
        Action::ReportStatus(InstallStatus::CheckingForUpdate)
    );
    assert_eq!(
        step(r, Event::StatusReported),
        Action::FetchLatestRelease {
            repository: s("ltex-plus/ltex-ls-plus"),
            require_assets: true,
            pre_release: false,
        }
    );
}

const BINARY: &str = "ltex-ls-plus-18.2.0/ltex-ls-plus-18.2.0/bin/ltex-ls-plus";

fn installed() -> Binary {
    Binary { path: s(BINARY), args: Some(vec![]) }
}

/// Runs a full download of release 18.2.0 on Linux x86-64.
fn download(r: &mut Resolver, listing: Vec<String>, failed: Vec<String>) -> Action {
    to_release_fetch(r);
    assert_eq!(step(r, Event::ReleaseFetched(Ok(release("18.2.0")))), Action::CheckFile(s(BINARY)));
    assert_eq!(step(r, Event::FileChecked(false)), Action::ReportStatus(InstallStatus::Downloading));
    assert_eq!(
        step(r, Event::StatusReported),
        Action::Download {
            url: s("https://example.org/linux-x64"),
            directory: s("ltex-ls-plus-18.2.0"),
            kind: ArchiveKind::GzipTar,
        }
    );
    assert_eq!(step(r, Event::Downloaded(Ok(()))), Action::ListWorkingDirectory);
    let remove = step(r, Event::Listed(Ok(listing)));
    assert!(matches!(remove, Action::RemoveEntries(_)));
    step(r, Event::Removed(failed))
}

#[test]
fn configured_path_is_used_verbatim() {
    let mut r = Resolver::new(Os::Linux, Arch::X8664);
    assert_eq!(r.start(), Action::ReadSettings);
    let configured = ConfiguredBinary {
        path: Some(s("/opt/ltex/bin/ltex-ls-plus")),
        arguments: Some(vec![s("--log-file"), s("/tmp/ltex.log")]),
    };
    assert_eq!(
        step(&mut r, Event::Settings(Ok(Some(configured)))),
        Action::Finish(Ok(Binary {
            path: s("/opt/ltex/bin/ltex-ls-plus"),
            args: Some(vec![s("--log-file"), s("/tmp/ltex.log")]),
        }))
    );
    assert_eq!(r.cached_path(), None);
}

#[test]
fn configured_arguments_without_path_fall_through() {
    let mut r = Resolver::new(Os::Linux, Arch::X8664);
    r.start();
    let configured = ConfiguredBinary { path: None, arguments: Some(vec![s("--x")]) };
    assert_eq!(
        step(&mut r, Event::Settings(Ok(Some(configured)))),
        Action::FindOnPath(s("ltex-ls-plus"))
    );
}

#[test]
fn unreadable_settings_fail() {
    let mut r = Resolver::new(Os::Linux, Arch::X8664);
    r.start();
    assert_eq!(
        step(&mut r, Event::Settings(Err(s("bad json")))),
        Action::Finish(Err(ResolveError::Settings(s("bad json"))))
    );
}

#[test]
fn search_path_wins_even_with_cache() {
    let mut r = Resolver::new(Os::Linux, Arch::X8664);
    assert_eq!(download(&mut r, vec![], vec![]), Action::Finish(Ok(installed())));
    assert_eq!(r.cached_path(), Some(s(BINARY)));
    r.start();
    step(&mut r, Event::Settings(Ok(None)));
    assert_eq!(
        step(&mut r, Event::Located(Some(s("/usr/bin/ltex-ls-plus")))),
        Action::Finish(Ok(Binary { path: s("/usr/bin/ltex-ls-plus"), args: None }))
    );
}

#[test]
fn cached_binary_is_reused_without_fetch() {
    let mut r = Resolver::new(Os::Linux, Arch::X8664);
    download(&mut r, vec![], vec![]);
    assert_eq!(r.start(), Action::ReadSettings);
    assert_eq!(step(&mut r, Event::Settings(Ok(None))), Action::FindOnPath(s("ltex-ls-plus")));
    assert_eq!(step(&mut r, Event::Located(None)), Action::CheckFile(s(BINARY)));
    assert_eq!(step(&mut r, Event::FileChecked(true)), Action::Finish(Ok(installed())));
}

#[test]
fn deleted_cached_binary_leads_to_download() {
    let mut r = Resolver::new(Os::Linux, Arch::X8664);
    download(&mut r, vec![], vec![]);
    r.start();
    step(&mut r, Event::Settings(Ok(None)));
    assert_eq!(step(&mut r, Event::Located(None)), Action::CheckFile(s(BINARY)));
    assert_eq!(
        step(&mut r, Event::FileChecked(false)),
        Action::ReportStatus(InstallStatus::CheckingForUpdate)
    );
    assert!(matches!(step(&mut r, Event::StatusReported), Action::FetchLatestRelease { .. }));
}

#[test]
fn windows_downloads_zip() {
    let mut r = Resolver::new(Os::Windows, Arch::X8664);
    to_release_fetch(&mut r);
    assert_eq!(step(&mut r, Event::ReleaseFetched(Ok(release("18.2.0")))), Action::CheckFile(s(BINARY)));
    step(&mut r, Event::FileChecked(false));
    assert_eq!(
        step(&mut r, Event::StatusReported),
        Action::Download {
            url: s("https://example.org/windows-x64"),
            directory: s("ltex-ls-plus-18.2.0"),
            kind: ArchiveKind::Zip,
        }
    );
}

#[test]
fn archive_kind_by_os() {
    assert_eq!(archive_kind(Os::Windows), ArchiveKind::Zip);
    assert_eq!(archive_kind(Os::Linux), ArchiveKind::GzipTar);
    assert_eq!(archive_kind(Os::Mac), ArchiveKind::GzipTar);
    assert_eq!(archive_suffix(ArchiveKind::Zip), "zip");
    assert_eq!(archive_suffix(ArchiveKind::GzipTar), "tar.gz");
}

#[test]
fn x86_fails_before_any_fetch() {
    let mut r = Resolver::new(Os::Linux, Arch::X86);
    r.start();
    step(&mut r, Event::Settings(Ok(None)));
    assert_eq!(
        step(&mut r, Event::Located(None)),
        Action::Finish(Err(ResolveError::UnsupportedArchitecture))
    );
    assert!(!r.accepts(&Event::StatusReported));
}

#[test]
fn download_records_binary_and_second_run_does_not_download() {
    let mut r = Resolver::new(Os::Linux, Arch::X8664);
    assert_eq!(download(&mut r, vec![], vec![]), Action::Finish(Ok(installed())));
    assert_eq!(r.cached_path(), Some(s(BINARY)));
    r.start();
    step(&mut r, Event::Settings(Ok(None)));
    assert_eq!(step(&mut r, Event::Located(None)), Action::CheckFile(s(BINARY)));
    assert_eq!(step(&mut r, Event::FileChecked(true)), Action::Finish(Ok(installed())));
}

#[test]
fn unpacked_release_is_not_downloaded_again() {
    let mut r = Resolver::new(Os::Linux, Arch::X8664);
    to_release_fetch(&mut r);
    assert_eq!(step(&mut r, Event::ReleaseFetched(Ok(release("18.2.0")))), Action::CheckFile(s(BINARY)));
    assert_eq!(step(&mut r, Event::FileChecked(true)), Action::Finish(Ok(installed())));
    assert_eq!(r.cached_path(), Some(s(BINARY)));
}

#[test]
fn cleanup_removes_all_but_current_version() {
    let mut r = Resolver::new(Os::Linux, Arch::X8664);
    to_release_fetch(&mut r);
    step(&mut r, Event::ReleaseFetched(Ok(release("18.2.0"))));
    step(&mut r, Event::FileChecked(false));
    step(&mut r, Event::StatusReported);
    step(&mut r, Event::Downloaded(Ok(())));
    let listing = vec![s("ltex-ls-plus-18.1.0"), s("ltex-ls-plus-18.2.0"), s("notes.txt")];
    assert_eq!(
        step(&mut r, Event::Listed(Ok(listing))),
        Action::RemoveEntries(vec![s("ltex-ls-plus-18.1.0"), s("notes.txt")])
    );
    assert_eq!(
        step(&mut r, Event::Removed(vec![s("notes.txt")])),
        Action::Finish(Ok(installed()))
    );
    assert_eq!(r.cleanup_failures(), &vec![s("notes.txt")]);
}

#[test]
fn entries_to_remove_keeps_only_named_entry() {
    let entries = vec![s("a"), s("keep"), s("b"), s("keep")];
    assert_eq!(entries_to_remove(&entries, &s("keep")), vec![s("a"), s("b")]);
    assert_eq!(entries_to_remove(&vec![], &s("keep")), Vec::<String>::new());
    assert_eq!(entries_to_remove(&vec![s("keep")], &s("keep")), Vec::<String>::new());
}

#[test]
fn missing_asset_is_an_error() {
    let mut r = Resolver::new(Os::Mac, Arch::X8664);
    to_release_fetch(&mut r);
    assert_eq!(
        step(&mut r, Event::ReleaseFetched(Ok(release("18.2.0")))),
        Action::Finish(Err(ResolveError::AssetNotFound(s("ltex-ls-plus-18.2.0-mac-x64.tar.gz"))))
    );
}

#[test]
fn fetch_download_and_listing_failures_are_errors() {
    let mut r = Resolver::new(Os::Linux, Arch::Aarch64);
    to_release_fetch(&mut r);
    assert_eq!(
        step(&mut r, Event::ReleaseFetched(Err(s("rate limited")))),
        Action::Finish(Err(ResolveError::NetworkOrFilesystemFailure(s("rate limited"))))
    );

    to_release_fetch(&mut r);
    let binary = "ltex-ls-plus-18.2.0/ltex-ls-plus-18.2.0/bin/ltex-ls-plus";
    assert_eq!(step(&mut r, Event::ReleaseFetched(Ok(release("18.2.0")))), Action::CheckFile(s(binary)));
    step(&mut r, Event::FileChecked(false));
    assert_eq!(
        step(&mut r, Event::StatusReported),
        Action::Download {
            url: s("https://example.org/linux-aarch64"),
            directory: s("ltex-ls-plus-18.2.0"),
            kind: ArchiveKind::GzipTar,
        }
    );
    assert_eq!(
        step(&mut r, Event::Downloaded(Err(s("failed to download file: timeout")))),
        Action::Finish(Err(ResolveError::NetworkOrFilesystemFailure(s(
            "failed to download file: timeout"
        ))))
    );
    assert_eq!(r.cached_path(), None);

    to_release_fetch(&mut r);
    step(&mut r, Event::ReleaseFetched(Ok(release("18.2.0"))));
    step(&mut r, Event::FileChecked(false));
    step(&mut r, Event::StatusReported);
    step(&mut r, Event::Downloaded(Ok(())));
    assert_eq!(
        step(&mut r, Event::Listed(Err(s("failed to list working directory")))),
        Action::Finish(Err(ResolveError::NetworkOrFilesystemFailure(s(
            "failed to list working directory"
        ))))
    );
}

#[test]
fn out_of_order_reports_are_not_accepted() {
    let mut r = Resolver::new(Os::Linux, Arch::X8664);
    assert!(!r.accepts(&Event::Settings(Ok(None))));
    r.start();
    assert!(r.accepts(&Event::Settings(Ok(None))));
    assert!(!r.accepts(&Event::Located(None)));
    assert!(!r.accepts(&Event::FileChecked(true)));
}

#[test]
fn names_follow_the_release_layout() {
    assert_eq!(server_name(), "ltex-ls-plus");
    assert_eq!(repository(), "ltex-plus/ltex-ls-plus");
    assert_eq!(version_dir("18.2.0"), "ltex-ls-plus-18.2.0");
    assert_eq!(binary_path("18.2.0"), BINARY);
    assert_eq!(asset_name("1.0", Os::Mac, Arch::Aarch64), Some(s("ltex-ls-plus-1.0-mac-aarch64.tar.gz")));
    assert_eq!(asset_name("1.0", Os::Windows, Arch::X8664), Some(s("ltex-ls-plus-1.0-windows-x64.zip")));
    assert_eq!(asset_name("1.0", Os::Linux, Arch::X86), None);
    assert_eq!(os_tag(Os::Linux), "linux");
    assert_eq!(arch_tag(Arch::X8664), Some("x64"));
    assert_eq!(arch_tag(Arch::X86), None);
}

#[test]
fn find_asset_picks_first_exact_match() {
    let assets = vec![asset("a.zip", "u1"), asset("b.zip", "u2"), asset("b.zip", "u3")];
    assert_eq!(find_asset(&assets, &s("b.zip")), Some(1));
    assert_eq!(find_asset(&assets, &s("b")), None);
    assert_eq!(find_asset(&vec![], &s("a.zip")), None);
}
