use hack_installer::installer::{
    accepts, zip_name, Action, DirEntry, Event, ExtractOutcome, InstallRequest, Installer, Stage,
};
use hack_installer::patch::{patcher_path, platform, Platform};
use hack_installer::validate::PathKind;

fn request(source: &str, open_after: bool) -> InstallRequest {
    InstallRequest {
        game_directory: "~/games".to_string(),
        game_original_copy: "~/roms/base.sfc".to_string(),
        hack_name: "".to_string(),
        hack_source: source.to_string(),
        auth_cookie: "session=1".to_string(),
        open_after,
    }
}

fn entry(name: &str, kind: PathKind) -> DirEntry {
    DirEntry { name: name.to_string(), kind }
}

fn expect_error(a: Action, msg: &str) {
    match a {
        Action::Finish(Err(e)) => assert_eq!(e, msg),
        _ => panic!("expected a failure"),
    }
}

/// An installer of a local archive, brought to the listing before flattening.
fn extracted_local(os: &str) -> Installer {
    let (mut inst, a) = Installer::new(&request("~/dl/myhack.zip", false), Some("/home/ann"), os);
    assert!(matches!(a, Action::Probe(ref p) if p == "/home/ann/games"));
    let a = inst.step(Event::Probed(PathKind::Directory));
    assert!(matches!(a, Action::Probe(ref p) if p == "/home/ann/roms/base.sfc"));
    let a = inst.step(Event::Probed(PathKind::File));
    assert!(matches!(a, Action::Probe(ref p) if p == "/home/ann/dl/myhack.zip"));
    let a = inst.step(Event::Probed(PathKind::File));
    match a {
        Action::ExtractFile { archive, into } => {
            assert_eq!(archive, "/home/ann/dl/myhack.zip");
            assert_eq!(into, "/home/ann/games/myhack");
        }
        _ => panic!("expected an extraction"),
    }
    let a = inst.step(Event::Extracted(ExtractOutcome::Extracted));
    assert!(matches!(a, Action::List(ref p) if p == "/home/ann/games/myhack"));
    assert_eq!(inst.stage, Stage::ListingForFlatten);
    inst
}

fn expect_locate(a: Action) {
    assert!(matches!(a, Action::Locate(ref r) if r == "resources/flips.exe"));
}

#[test]
fn plan_paths() {
    let (inst, _) = Installer::new(&request("~/dl/myhack.zip", true), Some("/home/ann"), "windows");
    assert_eq!(inst.plan.install_directory, "/home/ann/games/myhack");
    assert_eq!(inst.plan.temp_directory, "/home/ann/games/myhack_tmp");
    assert_eq!(inst.plan.platform, Platform::Windows);
    assert!(!inst.plan.remote);
}

#[test]
fn flatten_empty_directory_is_noop() {
    let mut inst = extracted_local("windows");
    expect_locate(inst.step(Event::Listed(Some(vec![]))));
    assert_eq!(inst.stage, Stage::LocatingPatcher);
}

#[test]
fn flatten_single_directory() {
    let mut inst = extracted_local("windows");
    let a = inst.step(Event::Listed(Some(vec![entry("Release v1", PathKind::Directory)])));
    match a {
        Action::Rename { from, to } => {
            assert_eq!(from, "/home/ann/games/myhack/Release v1");
            assert_eq!(to, "/home/ann/games/myhack_tmp");
        }
        _ => panic!("expected a rename"),
    }
    let a = inst.step(Event::Done(true));
    assert!(matches!(a, Action::RemoveDir(ref p) if p == "/home/ann/games/myhack"));
    let a = inst.step(Event::Done(true));
    match a {
        Action::Rename { from, to } => {
            assert_eq!(from, "/home/ann/games/myhack_tmp");
            assert_eq!(to, "/home/ann/games/myhack");
        }
        _ => panic!("expected a rename"),
    }
    expect_locate(inst.step(Event::Done(true)));
}

#[test]
fn flatten_single_file_is_noop() {
    let mut inst = extracted_local("windows");
    expect_locate(inst.step(Event::Listed(Some(vec![entry("a.bps", PathKind::File)]))));
}

#[test]
fn flatten_several_entries_is_noop() {
    let mut inst = extracted_local("windows");
    let es = vec![entry("a", PathKind::Directory), entry("b", PathKind::Directory)];
    expect_locate(inst.step(Event::Listed(Some(es))));
}

#[test]
fn flatten_failures_are_distinct() {
    let mut inst = extracted_local("windows");
    expect_error(
        inst.step(Event::Listed(None)),
        "Failed to flatten hack directory: Failed to read directory",
    );
    let mut inst = extracted_local("windows");
    expect_error(
        inst.step(Event::Listed(Some(vec![entry("a", PathKind::Unreadable)]))),
        "Failed to flatten hack directory: Failed to read entry metadata",
    );
    let mut inst = extracted_local("windows");
    inst.step(Event::Listed(Some(vec![entry("a", PathKind::Directory)])));
    expect_error(
        inst.step(Event::Done(false)),
        "Failed to flatten hack directory: Failed to move single sub directory to temp directory",
    );
    let mut inst = extracted_local("windows");
    inst.step(Event::Listed(Some(vec![entry("a", PathKind::Directory)])));
    inst.step(Event::Done(true));
    expect_error(inst.step(Event::Done(false)), "Failed to flatten hack directory: Failed to remove directory");
    let mut inst = extracted_local("windows");
    inst.step(Event::Listed(Some(vec![entry("a", PathKind::Directory)])));
    inst.step(Event::Done(true));
    inst.step(Event::Done(true));
    expect_error(
        inst.step(Event::Done(false)),
        "Failed to flatten hack directory: Failed to move temp directory to directory",
    );
    assert_eq!(inst.stage, Stage::Finished);
}

#[test]
fn download_404_stops_before_extraction() {
    let (mut inst, _) = Installer::new(
        &request("https://example.com/hacks/super-hack.zip?token=abc", false),
        Some("/home/ann"),
        "macos",
    );
    inst.step(Event::Probed(PathKind::Directory));
    let a = inst.step(Event::Probed(PathKind::File));
    match a {
        Action::Request { url, cookie } => {
            assert_eq!(url, "https://example.com/hacks/super-hack.zip?token=abc");
            assert_eq!(cookie, "session=1");
        }
        _ => panic!("expected a request"),
    }
    expect_error(inst.step(Event::Responded(Some(404))), "Failed to download archive");
    assert_eq!(inst.stage, Stage::Finished);
    assert!(!accepts(inst.stage, &Event::Extracted(ExtractOutcome::Extracted)));
}

#[test]
fn download_transport_and_body_failures() {
    let (mut inst, _) = Installer::new(&request("http://x.org/a.zip", false), None, "macos");
    inst.step(Event::Probed(PathKind::Directory));
    inst.step(Event::Probed(PathKind::File));
    expect_error(inst.step(Event::Responded(None)), "Failed to download archive");
    let (mut inst, _) = Installer::new(&request("http://x.org/a.zip", false), None, "macos");
    inst.step(Event::Probed(PathKind::Directory));
    inst.step(Event::Probed(PathKind::File));
    assert!(matches!(inst.step(Event::Responded(Some(200))), Action::ReadBody));
    expect_error(inst.step(Event::BodyRead(false)), "Failed to download archive");
}

#[test]
fn download_then_extract() {
    let (mut inst, _) = Installer::new(&request("http://x.org/a.zip", false), None, "macos");
    inst.step(Event::Probed(PathKind::Directory));
    inst.step(Event::Probed(PathKind::File));
    inst.step(Event::Responded(Some(200)));
    let a = inst.step(Event::BodyRead(true));
    assert!(matches!(a, Action::ExtractBody { ref into } if into == "~/games/a"));
    expect_error(inst.step(Event::Extracted(ExtractOutcome::Failed)), "Failed to extract archive");
}

#[test]
fn input_failures() {
    let (mut inst, _) = Installer::new(&request("/dl/a.zip", false), None, "macos");
    expect_error(inst.step(Event::Probed(PathKind::Missing)), "Directory doesn't exist");
    let (mut inst, _) = Installer::new(&request("/dl/a.zip", false), None, "macos");
    inst.step(Event::Probed(PathKind::Directory));
    expect_error(inst.step(Event::Probed(PathKind::Directory)), "This is not a file");
    let (mut inst, _) = Installer::new(&request("/dl/a.rar", false), None, "macos");
    inst.step(Event::Probed(PathKind::Directory));
    inst.step(Event::Probed(PathKind::File));
    expect_error(inst.step(Event::Probed(PathKind::File)), "This is not a zip file");
    let (mut inst, _) = Installer::new(&request("/dl/a.zip", false), None, "macos");
    inst.step(Event::Probed(PathKind::Directory));
    inst.step(Event::Probed(PathKind::File));
    inst.step(Event::Probed(PathKind::File));
    expect_error(inst.step(Event::Extracted(ExtractOutcome::CannotOpen)), "Failed to open archive");
}

#[test]
fn patcher_is_launched_once_per_patch() {
    let mut inst = extracted_local("windows");
    expect_locate(inst.step(Event::Listed(Some(vec![]))));
    let a = inst.step(Event::Located(Some("/app/resources/flips.exe".to_string()), PathKind::File));
    assert!(matches!(a, Action::List(ref p) if p == "/home/ann/games/myhack"));
    let es = vec![
        entry("patch1.bps", PathKind::File),
        entry("readme.txt", PathKind::File),
        entry("patch2.ips", PathKind::File),
        entry("old.BPS", PathKind::File),
    ];
    let a = inst.step(Event::Listed(Some(es)));
    let launches = match a {
        Action::Launch(ls) => ls,
        _ => panic!("expected launches"),
    };
    assert_eq!(launches.len(), 2);
    let d = "/home/ann/games/myhack";
    assert_eq!(launches[0].program, "/app/resources/flips.exe");
    assert_eq!(
        launches[0].args,
        vec![
            "--apply".to_string(),
            format!("{}/patch1.bps", d),
            "/home/ann/roms/base.sfc".to_string(),
            format!("{}/patch1.sfc", d)
        ]
    );
    assert_eq!(
        launches[1].args,
        vec![
            "--apply".to_string(),
            format!("{}/patch2.ips", d),
            "/home/ann/roms/base.sfc".to_string(),
            format!("{}/patch2.sfc", d)
        ]
    );
    let a = inst.step(Event::Done(true));
    assert!(matches!(a, Action::Finish(Ok(()))));
}

#[test]
fn open_after_install() {
    let (mut inst, _) = Installer::new(&request("/dl/h.zip", true), None, "macos");
    inst.step(Event::Probed(PathKind::Directory));
    inst.step(Event::Probed(PathKind::File));
    inst.step(Event::Probed(PathKind::File));
    inst.step(Event::Extracted(ExtractOutcome::Extracted));
    let a = inst.step(Event::Listed(Some(vec![])));
    assert!(matches!(a, Action::Locate(ref r) if r == "resources/multipatch"));
    inst.step(Event::Located(Some("/r/multipatch".to_string()), PathKind::File));
    inst.step(Event::Listed(Some(vec![])));
    let a = inst.step(Event::Done(true));
    assert!(matches!(a, Action::Open(ref p) if p == "~/games/h"));
    let a = inst.step(Event::Done(false));
    assert!(matches!(a, Action::Finish(Ok(()))));
}

#[test]
fn patcher_failures() {
    let mut inst = extracted_local("linux");
    expect_error(inst.step(Event::Listed(Some(vec![]))), "Failed to locate patcher");
    let mut inst = extracted_local("windows");
    inst.step(Event::Listed(Some(vec![])));
    expect_error(inst.step(Event::Located(None, PathKind::Missing)), "Failed to locate patcher");
    let mut inst = extracted_local("windows");
    inst.step(Event::Listed(Some(vec![])));
    expect_error(
        inst.step(Event::Located(Some("/r/flips.exe".to_string()), PathKind::Missing)),
        "Patcher not found",
    );
    let mut inst = extracted_local("windows");
    inst.step(Event::Listed(Some(vec![])));
    inst.step(Event::Located(Some("/r/flips.exe".to_string()), PathKind::File));
    expect_error(inst.step(Event::Listed(None)), "Failed to read hack directory");
}

#[test]
fn platforms_and_zip_names() {
    assert_eq!(platform("macos"), Platform::MacOs);
    assert_eq!(platform("windows"), Platform::Windows);
    assert_eq!(platform("linux"), Platform::Unsupported);
    assert_eq!(patcher_path(Platform::MacOs), Some("resources/multipatch".to_string()));
    assert_eq!(patcher_path(Platform::Unsupported), None);
    assert!(zip_name("a.ZiP"));
    assert!(!zip_name("a.zipx"));
    assert!(!zip_name(".zip"));
}
