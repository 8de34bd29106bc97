use superhtml::error::ErrorKind;
use superhtml::install::{Asset, Release};
use superhtml::platform::{Architecture, DownloadKind, Os};
use superhtml::resolver::{
    language_server_args, Action, Event, InstallStatus, ListError, SuperHtmlExtension, TarOutput,
};

fn release_with(version: &str, names: &[&str]) -> Release {
    Release {
        version: version.to_string(),
        assets: names
            .iter()
            .map(|n| Asset {
                name: n.to_string(),
                download_url: format!("https://example.com/{n}"),
            })
            .collect(),
    }
}

fn finished_ok(a: Action) -> String {
    match a {
        Action::Finish(Ok(p)) => p,
        other => panic!("expected a found path, got {other:?}"),
    }
}

fn finished_err(a: Action) -> (ErrorKind, String) {
    match a {
        Action::Finish(Err(e)) => (e.kind, e.message),
        other => panic!("expected an error, got {other:?}"),
    }
}

/// Drives a Linux resolver from the ambient lookup up to the download.
fn up_to_download(r: &mut SuperHtmlExtension, version: &str) {
    assert!(matches!(r.start(Os::Linux, Architecture::X8664), Action::LookupAmbient { .. }));
    let a = r.step(Event::Ambient(None));
    if let Action::CheckFile { .. } = a {
        let a = r.step(Event::FileChecked(false));
        assert!(matches!(a, Action::ReportStatus(InstallStatus::CheckingForUpdate)));
    } else {
        assert!(matches!(a, Action::ReportStatus(InstallStatus::CheckingForUpdate)));
    }
    match r.step(Event::Acknowledged) {
        Action::QueryRelease { repo, require_assets, pre_release } => {
            assert_eq!(repo, "kristoff-it/superhtml");
            assert!(require_assets);
            assert!(!pre_release);
        }
        other => panic!("{other:?}"),
    }
    let rel = release_with(version, &["x86_64-linux-musl.tar.xz", "aarch64-macos.zip"]);
    match r.step(Event::Release(Ok(rel))) {
        Action::CreateDir { path } => {
            assert_eq!(path, format!("superhtml-{version}/x86_64-linux-musl"))
        }
        other => panic!("{other:?}"),
    }
    match r.step(Event::DirCreated(Ok(()))) {
        Action::CheckFile { path } => {
            assert_eq!(path, format!("superhtml-{version}/x86_64-linux-musl/superhtml"))
        }
        other => panic!("{other:?}"),
    }
    assert!(matches!(
        r.step(Event::FileChecked(false)),
        Action::ReportStatus(InstallStatus::Downloading)
    ));
}

/// A full fresh Linux install of `version`; returns the installed path.
fn fresh_linux_install(r: &mut SuperHtmlExtension, version: &str) -> String {
    up_to_download(r, version);
    match r.step(Event::Acknowledged) {
        Action::Download { url, path, kind } => {
            assert_eq!(url, "https://example.com/x86_64-linux-musl.tar.xz");
            assert_eq!(path, format!("superhtml-{version}/x86_64-linux-musl/superhtml"));
            assert_eq!(kind, DownloadKind::Uncompressed);
        }
        other => panic!("{other:?}"),
    }
    assert!(matches!(r.step(Event::Downloaded(Ok(()))), Action::QueryWorkingDir));
    match r.step(Event::WorkingDir(Ok("/ext".to_string()))) {
        Action::RunTar { args } => assert_eq!(
            args,
            vec![
                "-xf".to_string(),
                format!("/ext/superhtml-{version}/x86_64-linux-musl/superhtml"),
                "-C".to_string(),
                format!("/ext/superhtml-{version}/x86_64-linux-musl"),
            ]
        ),
        other => panic!("{other:?}"),
    }
    let out = TarOutput { status: Some(0), stderr: String::new() };
    assert!(matches!(r.step(Event::TarFinished(Ok(out))), Action::ListWorkingDir));
    let names = vec![
        Some("superhtml-0.0.1".to_string()),
        Some(format!("superhtml-{version}")),
        Some("superhtml-0.0.2".to_string()),
    ];
    match r.step(Event::Listed(Ok(names))) {
        Action::RemoveEntries { indices } => assert_eq!(indices, vec![0, 2]),
        other => panic!("{other:?}"),
    }
    finished_ok(r.step(Event::Acknowledged))
}

#[test]
fn ambient_executable_wins() {
    let mut r = SuperHtmlExtension::new();
    match r.start(Os::Linux, Architecture::X8664) {
        Action::LookupAmbient { name } => assert_eq!(name, "superhtml"),
        other => panic!("{other:?}"),
    }
    let p = finished_ok(r.step(Event::Ambient(Some("/usr/bin/superhtml".to_string()))));
    assert_eq!(p, "/usr/bin/superhtml");
}

#[test]
fn ambient_executable_wins_on_unsupported_architecture() {
    let mut r = SuperHtmlExtension::new();
    r.start(Os::Linux, Architecture::X86);
    let p = finished_ok(r.step(Event::Ambient(Some("/opt/superhtml".to_string()))));
    assert_eq!(p, "/opt/superhtml");
}

#[test]
fn unsupported_architecture_fails_before_io() {
    let mut r = SuperHtmlExtension::new();
    r.start(Os::Windows, Architecture::X86);
    let (kind, message) = finished_err(r.step(Event::Ambient(None)));
    assert_eq!(kind, ErrorKind::UnsupportedPlatform);
    assert_eq!(message, "unsupported architecture");
}

#[test]
fn missing_asset_names_expected_asset() {
    let mut r = SuperHtmlExtension::new();
    r.start(Os::Linux, Architecture::Aarch64);
    r.step(Event::Ambient(None));
    r.step(Event::Acknowledged);
    let rel = release_with("0.5.3", &["x86_64-linux-musl.tar.xz"]);
    let (kind, message) = finished_err(r.step(Event::Release(Ok(rel))));
    assert_eq!(kind, ErrorKind::AssetNotFound);
    assert!(message.contains("aarch64-linux-musl.tar.xz"));
    assert!(message.contains("x86_64-linux-musl.tar.xz"));
}

#[test]
fn fresh_install_sweeps_other_versions() {
    let mut r = SuperHtmlExtension::new();
    let p = fresh_linux_install(&mut r, "0.5.3");
    assert_eq!(p, "superhtml-0.5.3/x86_64-linux-musl/superhtml");
}

#[test]
fn second_resolution_reuses_install() {
    let mut r = SuperHtmlExtension::new();
    let first = fresh_linux_install(&mut r, "0.5.3");
    r.start(Os::Linux, Architecture::X8664);
    match r.step(Event::Ambient(None)) {
        Action::CheckFile { path } => assert_eq!(path, first),
        other => panic!("{other:?}"),
    }
    let second = finished_ok(r.step(Event::FileChecked(true)));
    assert_eq!(first, second);
}

#[test]
fn deleted_cached_file_reacquires() {
    let mut r = SuperHtmlExtension::new();
    fresh_linux_install(&mut r, "0.5.3");
    r.start(Os::Linux, Architecture::X8664);
    assert!(matches!(r.step(Event::Ambient(None)), Action::CheckFile { .. }));
    assert!(matches!(
        r.step(Event::FileChecked(false)),
        Action::ReportStatus(InstallStatus::CheckingForUpdate)
    ));
    assert!(matches!(r.step(Event::Acknowledged), Action::QueryRelease { .. }));
}

#[test]
fn present_binary_skips_download() {
    let mut r = SuperHtmlExtension::new();
    r.start(Os::Mac, Architecture::Aarch64);
    r.step(Event::Ambient(None));
    r.step(Event::Acknowledged);
    let rel = release_with("0.5.3", &["aarch64-macos.zip"]);
    assert!(matches!(r.step(Event::Release(Ok(rel))), Action::CreateDir { .. }));
    assert!(matches!(r.step(Event::DirCreated(Ok(()))), Action::CheckFile { .. }));
    let p = finished_ok(r.step(Event::FileChecked(true)));
    assert_eq!(p, "superhtml-0.5.3/aarch64-macos/superhtml");
    r.start(Os::Mac, Architecture::Aarch64);
    assert!(matches!(r.step(Event::Ambient(None)), Action::CheckFile { .. }));
    assert_eq!(finished_ok(r.step(Event::FileChecked(true))), p);
}

#[test]
fn windows_install_marks_executable() {
    let mut r = SuperHtmlExtension::new();
    r.start(Os::Windows, Architecture::X8664);
    r.step(Event::Ambient(None));
    r.step(Event::Acknowledged);
    let rel = release_with("0.6.0", &["x86_64-windows.zip"]);
    r.step(Event::Release(Ok(rel)));
    r.step(Event::DirCreated(Ok(())));
    r.step(Event::FileChecked(false));
    match r.step(Event::Acknowledged) {
        Action::Download { kind, path, .. } => {
            assert_eq!(kind, DownloadKind::Zip);
            assert_eq!(path, "superhtml-0.6.0/x86_64-windows/superhtml.exe");
        }
        other => panic!("{other:?}"),
    }
    match r.step(Event::Downloaded(Ok(()))) {
        Action::MakeExecutable { path } => {
            assert_eq!(path, "superhtml-0.6.0/x86_64-windows/superhtml.exe")
        }
        other => panic!("{other:?}"),
    }
    assert!(matches!(r.step(Event::MadeExecutable(Ok(()))), Action::ListWorkingDir));
    let names = vec![Some("superhtml-0.6.0".to_string())];
    match r.step(Event::Listed(Ok(names))) {
        Action::RemoveEntries { indices } => assert!(indices.is_empty()),
        other => panic!("{other:?}"),
    }
    assert_eq!(
        finished_ok(r.step(Event::Acknowledged)),
        "superhtml-0.6.0/x86_64-windows/superhtml.exe"
    );
}

#[test]
fn feed_error_is_passed_on() {
    let mut r = SuperHtmlExtension::new();
    r.start(Os::Linux, Architecture::X8664);
    r.step(Event::Ambient(None));
    r.step(Event::Acknowledged);
    let (kind, message) = finished_err(r.step(Event::Release(Err("rate limited".to_string()))));
    assert_eq!(kind, ErrorKind::FeedQuery);
    assert_eq!(message, "rate limited");
}

#[test]
fn directory_creation_error() {
    let mut r = SuperHtmlExtension::new();
    r.start(Os::Linux, Architecture::X8664);
    r.step(Event::Ambient(None));
    r.step(Event::Acknowledged);
    r.step(Event::Release(Ok(release_with("1", &["x86_64-linux-musl.tar.xz"]))));
    let (kind, message) = finished_err(r.step(Event::DirCreated(Err("denied".to_string()))));
    assert_eq!(kind, ErrorKind::FileSystem);
    assert_eq!(message, "failed to create directory: denied");
}

#[test]
fn download_error() {
    let mut r = SuperHtmlExtension::new();
    up_to_download(&mut r, "1");
    r.step(Event::Acknowledged);
    let (kind, message) = finished_err(r.step(Event::Downloaded(Err("timeout".to_string()))));
    assert_eq!(kind, ErrorKind::Download);
    assert_eq!(message, "failed to download file: timeout");
}

#[test]
fn working_dir_error() {
    let mut r = SuperHtmlExtension::new();
    up_to_download(&mut r, "1");
    r.step(Event::Acknowledged);
    r.step(Event::Downloaded(Ok(())));
    let (kind, message) = finished_err(r.step(Event::WorkingDir(Err("gone".to_string()))));
    assert_eq!(kind, ErrorKind::FileSystem);
    assert_eq!(message, "can't get current dir: gone");
}

#[test]
fn tar_launch_error() {
    let mut r = SuperHtmlExtension::new();
    up_to_download(&mut r, "1");
    r.step(Event::Acknowledged);
    r.step(Event::Downloaded(Ok(())));
    r.step(Event::WorkingDir(Ok("/ext".to_string())));
    let (kind, message) = finished_err(r.step(Event::TarFinished(Err("not found".to_string()))));
    assert_eq!(kind, ErrorKind::Extraction);
    assert_eq!(message, "failed to extract language server, tar required: not found");
}

#[test]
fn tar_exit_status_errors() {
    for status in [Some(2), None] {
        let mut r = SuperHtmlExtension::new();
        up_to_download(&mut r, "1");
        r.step(Event::Acknowledged);
        r.step(Event::Downloaded(Ok(())));
        r.step(Event::WorkingDir(Ok("/ext".to_string())));
        let out = TarOutput { status, stderr: "bad archive".to_string() };
        let (kind, message) = finished_err(r.step(Event::TarFinished(Ok(out))));
        assert_eq!(kind, ErrorKind::Extraction);
        assert_eq!(message, "failed to extract language server: bad archive");
    }
}

#[test]
fn listing_errors() {
    let cases = [
        (ListError::Directory("no dir".to_string()), "failed to list working directory no dir"),
        (ListError::Entry("bad entry".to_string()), "failed to load directory entry bad entry"),
    ];
    for (err, expected) in cases {
        let mut r = SuperHtmlExtension::new();
        up_to_download(&mut r, "1");
        r.step(Event::Acknowledged);
        r.step(Event::Downloaded(Ok(())));
        r.step(Event::WorkingDir(Ok("/ext".to_string())));
        r.step(Event::TarFinished(Ok(TarOutput { status: Some(0), stderr: String::new() })));
        let (kind, message) = finished_err(r.step(Event::Listed(Err(err))));
        assert_eq!(kind, ErrorKind::FileSystem);
        assert_eq!(message, expected);
    }
}

#[test]
fn make_executable_error() {
    let mut r = SuperHtmlExtension::new();
    r.start(Os::Mac, Architecture::X8664);
    r.step(Event::Ambient(None));
    r.step(Event::Acknowledged);
    r.step(Event::Release(Ok(release_with("1", &["x86_64-macos.zip"]))));
    r.step(Event::DirCreated(Ok(())));
    r.step(Event::FileChecked(false));
    r.step(Event::Acknowledged);
    r.step(Event::Downloaded(Ok(())));
    let (kind, message) = finished_err(r.step(Event::MadeExecutable(Err("chmod".to_string()))));
    assert_eq!(kind, ErrorKind::FileSystem);
    assert_eq!(message, "chmod");
}

#[test]
fn out_of_order_event() {
    let mut r = SuperHtmlExtension::new();
    let (kind, _) = finished_err(r.step(Event::Acknowledged));
    assert_eq!(kind, ErrorKind::OutOfOrder);
    r.start(Os::Linux, Architecture::X8664);
    let (kind, message) = finished_err(r.step(Event::FileChecked(true)));
    assert_eq!(kind, ErrorKind::OutOfOrder);
    assert_eq!(message, "event does not answer the pending action");
}

#[test]
fn failed_install_leaves_cache_empty() {
    let mut r = SuperHtmlExtension::new();
    up_to_download(&mut r, "1");
    r.step(Event::Acknowledged);
    r.step(Event::Downloaded(Err("x".to_string())));
    r.start(Os::Linux, Architecture::X8664);
    assert!(matches!(
        r.step(Event::Ambient(None)),
        Action::ReportStatus(InstallStatus::CheckingForUpdate)
    ));
}

#[test]
fn server_is_started_with_lsp_argument() {
    assert_eq!(language_server_args(), vec!["lsp".to_string()]);
}
