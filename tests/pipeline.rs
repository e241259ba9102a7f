use srt_rs::fetch::StagedEntry;
use srt_rs::native_build::BuildPhase;
use srt_rs::pipeline::{Action, Event, Failure, Provisioner, Stage};

const SRC: &str = "/w/depends/build";
const INST: &str = "/w/depends/srt";

fn strings(v: &[&str]) -> Vec<String> {
    v.iter().map(|s| s.to_string()).collect()
}

fn entry(name: &str, is_dir: bool) -> StagedEntry {
    StagedEntry { name: name.to_string(), is_dir }
}

fn resolved() -> Event {
    Event::Resolved { source_root: SRC.to_string(), install_root: INST.to_string() }
}

/// Starts a run and resolves the roots; returns the install check.
fn started(p: &mut Provisioner) -> Action {
    match p.step(Event::Start) {
        Action::ResolvePaths { source_root, install_root } => {
            assert_eq!(source_root, "depends/build");
            assert_eq!(install_root, "depends/srt");
        }
        a => panic!("unexpected {:?}", a),
    }
    p.step(resolved())
}

fn expect_run(a: Action, phase: BuildPhase, args: &[&str]) {
    match a {
        Action::Run(inv) => {
            assert_eq!(inv.phase, phase);
            assert_eq!(inv.program, "cmake");
            assert_eq!(inv.dir, "/w/depends/build/srt/build");
            assert_eq!(inv.args, strings(args));
        }
        a => panic!("unexpected {:?}", a),
    }
}

fn expect_declare(a: Action) {
    match a {
        Action::Declare { directives } => assert_eq!(
            directives,
            strings(&[
                "cargo:rustc-link-lib=c++",
                "cargo:rustc-link-search=native=/w/depends/srt/lib",
                "cargo:rustc-link-lib=static=srt",
                "cargo:rerun-if-changed=depends/build/srt",
                "cargo:rerun-if-changed=wrapper.h",
            ])
        ),
        a => panic!("unexpected {:?}", a),
    }
}

fn expect_generate_and_finish(p: &mut Provisioner) {
    match p.step(Event::Completed) {
        Action::Generate { header_root } => assert_eq!(header_root, "/w/depends/srt/include"),
        a => panic!("unexpected {:?}", a),
    }
    assert!(matches!(p.step(Event::Completed), Action::Finish));
    assert_eq!(p.stage(), Stage::Finished);
}

const CONFIGURE: [&str; 8] = [
    "..",
    "-DCMAKE_INSTALL_PREFIX=/w/depends/srt",
    "-DENABLE_SHARED=OFF",
    "-DENABLE_STATIC=ON",
    "-DUSE_STATIC_LIBSTDCXX=ON",
    "-DUSE_ENCLIB=openssl",
    "-DENABLE_CXX11=ON",
    "-DCMAKE_POSITION_INDEPENDENT_CODE=ON",
];

/// Drives a run from a source root that holds the release, through the build.
fn build_phases(p: &mut Provisioner) {
    expect_run(p.step(Event::Completed), BuildPhase::Configure, &CONFIGURE);
    expect_run(p.step(Event::Exited(0)), BuildPhase::Build, &["--build", ".", "--config", "Release"]);
    expect_run(p.step(Event::Exited(0)), BuildPhase::Install, &["--install", "."]);
    expect_declare(p.step(Event::Exited(0)));
}

#[test]
fn first_run_then_second_run() {
    // First run: nothing on disk yet.
    let mut p = Provisioner::new();
    match started(&mut p) {
        Action::CheckPresent { paths } => assert_eq!(
            paths,
            strings(&["/w/depends/srt/lib/libsrt.a", "/w/depends/srt/include/srt"])
        ),
        a => panic!("unexpected {:?}", a),
    }
    match p.step(Event::Present(false)) {
        Action::CheckPresent { paths } => assert_eq!(paths, strings(&["/w/depends/build/srt"])),
        a => panic!("unexpected {:?}", a),
    }
    match p.step(Event::Present(false)) {
        Action::Download { url } => assert_eq!(
            url,
            "https://github.com/Haivision/srt/archive/refs/tags/v1.5.3.tar.gz"
        ),
        a => panic!("unexpected {:?}", a),
    }
    match p.step(Event::Status(200)) {
        Action::Unpack { into } => assert_eq!(into, "/w/depends/build/temp"),
        a => panic!("unexpected {:?}", a),
    }
    match p.step(Event::Completed) {
        Action::ListDir { dir } => assert_eq!(dir, "/w/depends/build/temp"),
        a => panic!("unexpected {:?}", a),
    }
    let entries = vec![entry("pax_global_header", false), entry("srt-1.5.3", true)];
    match p.step(Event::Entries(entries)) {
        Action::Rename { from, to } => {
            assert_eq!(from, "/w/depends/build/temp/srt-1.5.3");
            assert_eq!(to, "/w/depends/build/srt");
        }
        a => panic!("unexpected {:?}", a),
    }
    match p.step(Event::Completed) {
        Action::RemoveDir { dir } => assert_eq!(dir, "/w/depends/build/temp"),
        a => panic!("unexpected {:?}", a),
    }
    match p.step(Event::Completed) {
        Action::CreateDir { dir } => assert_eq!(dir, "/w/depends/build/srt/build"),
        a => panic!("unexpected {:?}", a),
    }
    build_phases(&mut p);
    expect_generate_and_finish(&mut p);
    assert!(p.fetched());
    assert!(p.built());

    // Second run: the library and headers are installed.
    let mut q = Provisioner::new();
    assert!(matches!(started(&mut q), Action::CheckPresent { .. }));
    expect_declare(q.step(Event::Present(true)));
    expect_generate_and_finish(&mut q);
    assert!(!q.fetched());
    assert!(!q.built());
}

#[test]
fn installed_library_skips_fetch_and_build() {
    let mut p = Provisioner::new();
    started(&mut p);
    expect_declare(p.step(Event::Present(true)));
    assert_eq!(p.stage(), Stage::Declaring);
    expect_generate_and_finish(&mut p);
    // Once finished, nothing more is asked for.
    assert!(matches!(p.step(Event::Completed), Action::Finish));
}

#[test]
fn unpacked_source_skips_download() {
    let mut p = Provisioner::new();
    started(&mut p);
    p.step(Event::Present(false));
    match p.step(Event::Present(true)) {
        Action::CreateDir { dir } => assert_eq!(dir, "/w/depends/build/srt/build"),
        a => panic!("unexpected {:?}", a),
    }
    build_phases(&mut p);
    expect_generate_and_finish(&mut p);
    assert!(!p.fetched());
    assert!(p.built());
}

fn at_download() -> Provisioner {
    let mut p = Provisioner::new();
    started(&mut p);
    p.step(Event::Present(false));
    assert!(matches!(p.step(Event::Present(false)), Action::Download { .. }));
    p
}

fn at_locating() -> Provisioner {
    let mut p = at_download();
    p.step(Event::Status(200));
    assert!(matches!(p.step(Event::Completed), Action::ListDir { .. }));
    p
}

#[test]
fn failed_download_aborts_before_unpacking() {
    let mut p = at_download();
    let a = p.step(Event::Status(404));
    assert!(matches!(a, Action::Abort(Failure::HttpStatus(404))));
    assert_eq!(p.stage(), Stage::Aborted);
    // Whatever is reported afterwards, only the failure comes back.
    assert!(matches!(p.step(Event::Completed), Action::Abort(Failure::HttpStatus(404))));
    assert!(matches!(p.step(Event::Status(200)), Action::Abort(Failure::HttpStatus(404))));
    assert!(!p.fetched());
}

#[test]
fn redirect_status_is_not_success() {
    let mut p = at_download();
    assert!(matches!(p.step(Event::Status(302)), Action::Abort(Failure::HttpStatus(302))));
}

#[test]
fn network_error_aborts_download() {
    let mut p = at_download();
    assert!(matches!(
        p.step(Event::Failed),
        Action::Abort(Failure::ActionFailed(Stage::Downloading))
    ));
}

#[test]
fn single_top_level_dir_among_files_is_moved() {
    let mut p = at_locating();
    let entries = vec![
        entry("README", false),
        entry("pax_global_header", false),
        entry("srt-1.5.3", true),
        entry("LICENSE", false),
    ];
    match p.step(Event::Entries(entries)) {
        Action::Rename { from, to } => {
            assert_eq!(from, "/w/depends/build/temp/srt-1.5.3");
            assert_eq!(to, "/w/depends/build/srt");
        }
        a => panic!("unexpected {:?}", a),
    }
}

#[test]
fn archive_without_dir_aborts() {
    let mut p = at_locating();
    let a = p.step(Event::Entries(vec![entry("README", false)]));
    assert!(matches!(a, Action::Abort(Failure::NoTopLevelDir)));
    let mut q = at_locating();
    assert!(matches!(q.step(Event::Entries(vec![])), Action::Abort(Failure::NoTopLevelDir)));
}

#[test]
fn staging_removed_before_build() {
    let mut p = at_locating();
    p.step(Event::Entries(vec![entry("srt-1.5.3", true)]));
    match p.step(Event::Completed) {
        Action::RemoveDir { dir } => assert_eq!(dir, "/w/depends/build/temp"),
        a => panic!("unexpected {:?}", a),
    }
    assert!(!p.fetched());
    assert!(matches!(p.step(Event::Completed), Action::CreateDir { .. }));
    assert!(p.fetched());
}

#[test]
fn failed_removal_of_staging_aborts() {
    let mut p = at_locating();
    p.step(Event::Entries(vec![entry("srt-1.5.3", true)]));
    p.step(Event::Completed);
    assert!(matches!(
        p.step(Event::Failed),
        Action::Abort(Failure::ActionFailed(Stage::CleaningUp))
    ));
    assert!(!p.fetched());
}

#[test]
fn failed_rename_aborts() {
    let mut p = at_locating();
    p.step(Event::Entries(vec![entry("srt-1.5.3", true)]));
    assert!(matches!(
        p.step(Event::Failed),
        Action::Abort(Failure::ActionFailed(Stage::Relocating))
    ));
}

fn at_configure() -> Provisioner {
    let mut p = Provisioner::new();
    started(&mut p);
    p.step(Event::Present(false));
    p.step(Event::Present(true));
    expect_run(p.step(Event::Completed), BuildPhase::Configure, &CONFIGURE);
    p
}

#[test]
fn phases_run_in_order() {
    let mut p = at_configure();
    assert_eq!(p.stage(), Stage::Running(BuildPhase::Configure));
    expect_run(p.step(Event::Exited(0)), BuildPhase::Build, &["--build", ".", "--config", "Release"]);
    assert_eq!(p.stage(), Stage::Running(BuildPhase::Build));
    expect_run(p.step(Event::Exited(0)), BuildPhase::Install, &["--install", "."]);
    assert_eq!(p.stage(), Stage::Running(BuildPhase::Install));
}

#[test]
fn non_zero_exit_aborts_naming_phase() {
    let mut p = at_configure();
    p.step(Event::Exited(0));
    let a = p.step(Event::Exited(2));
    assert!(matches!(a, Action::Abort(Failure::ProcessExit(BuildPhase::Build, 2))));
    assert_eq!(p.failure(), Some(Failure::ProcessExit(BuildPhase::Build, 2)));
    assert!(!p.built());
}

#[test]
fn unlaunchable_process_aborts() {
    let mut p = at_configure();
    assert!(matches!(
        p.step(Event::Failed),
        Action::Abort(Failure::ActionFailed(Stage::Running(BuildPhase::Configure)))
    ));
}

#[test]
fn failed_generation_aborts() {
    let mut p = Provisioner::new();
    started(&mut p);
    p.step(Event::Present(true));
    p.step(Event::Completed);
    assert!(matches!(
        p.step(Event::Failed),
        Action::Abort(Failure::ActionFailed(Stage::Generating))
    ));
}

#[test]
fn failed_path_resolution_aborts() {
    let mut p = Provisioner::new();
    p.step(Event::Start);
    assert!(matches!(
        p.step(Event::Failed),
        Action::Abort(Failure::ActionFailed(Stage::ResolvingPaths))
    ));
}

#[test]
fn unexpected_event_aborts() {
    let mut p = Provisioner::new();
    assert!(matches!(
        p.step(Event::Completed),
        Action::Abort(Failure::UnexpectedEvent(Stage::Idle))
    ));
    let mut q = Provisioner::new();
    started(&mut q);
    assert!(matches!(
        q.step(Event::Exited(0)),
        Action::Abort(Failure::UnexpectedEvent(Stage::CheckingInstall))
    ));
}
