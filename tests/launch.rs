use melodia::error::Error;
use melodia::launch::{
    check_source, classify, foreign_marker, is_core_library, launch_bin, launch_game,
    native_marker, resolve_chk, symlink, symlink_dir, translation_inputs, winepath, FsOp,
    PlatformVariant,
};
use melodia::paths::resolve;
use melodia::steam_apps::Host;
use melodia::APP_ID;

fn strings(v: &[&str]) -> Vec<String> {
    v.iter().map(|s| s.to_string()).collect()
}

fn link(src: &str, dest: &str) -> FsOp {
    FsOp::Link { src: src.to_string(), dest: dest.to_string(), dir: false }
}

#[test]
fn joins_paths() {
    assert_eq!(resolve("/a", "b"), "/a/b");
    assert_eq!(resolve("/a/", "b"), "/a/b");
    assert_eq!(resolve("", "b"), "b");
    assert_eq!(resolve("/a", "/b"), "/b");
    assert_eq!(resolve("/a", "lib/patcher"), "/a/lib/patcher");
}

#[test]
fn markers_and_classification() {
    assert_eq!(native_marker(), "Crystal Project.bin.x86_64");
    assert_eq!(foreign_marker(), "steam_api64.dll");
    assert_eq!(classify(true, false), Ok(PlatformVariant::NativeBuild));
    assert_eq!(classify(true, true), Ok(PlatformVariant::NativeBuild));
    assert_eq!(classify(false, true), Ok(PlatformVariant::ForeignBuild));
    assert_eq!(classify(false, false), Err(Error::UnrecognizedInstallation));
}

#[test]
fn core_library_names() {
    assert!(is_core_library("mscorlib.dll"));
    assert!(is_core_library("Mono.Posix.dll"));
    assert!(is_core_library("FNA.dll"));
    assert!(is_core_library("System.Core.dll"));
    assert!(!is_core_library("System.Core.pdb"));
    assert!(!is_core_library("SDL2.dll"));
    assert!(!is_core_library("Mono"));
    assert!(!is_core_library(".dll"));
}

#[test]
fn missing_source_creates_nothing() {
    let op = symlink("/game", "/tmp/x", "FNA.dll");
    assert_eq!(op, link("/game/FNA.dll", "/tmp/x/FNA.dll"));
    assert_eq!(check_source(&op, false), Err(Error::MissingSource));
    assert_eq!(check_source(&op, true), Ok(()));
    let w = FsOp::WriteFile { path: "/tmp/x/a".to_string(), contents: "1".to_string() };
    assert_eq!(check_source(&w, false), Ok(()));
    assert_eq!(
        symlink_dir("/game", "/tmp/x", "lib64"),
        FsOp::Link { src: "/game/lib64".to_string(), dest: "/tmp/x/lib64".to_string(), dir: true }
    );
    assert_eq!(resolve_chk("/base", "lib/bootstrap", false), Err(Error::MissingSource));
    assert_eq!(resolve_chk("/base", "lib/bootstrap", true), Ok("/base/lib/bootstrap".to_string()));
}

#[test]
fn translated_paths() {
    assert_eq!(winepath("Z:\\home\\u\\game\n", true), "Z:\\home\\u\\game\\");
    assert_eq!(winepath("  Z:\\tmp\\a.exe\r\n", false), "Z:\\tmp\\a.exe");
    assert_eq!(winepath("", false), "");
}

#[test]
fn scenario_native_build() {
    let plan = launch_game(Host::Linux, "/tmp/s", "/opt/m", "/lib/common/MyGame", APP_ID, true, false).unwrap();
    assert!(!plan.compat);
    assert!(plan.ops.contains(&link("/lib/common/MyGame/Crystal Project.bin.x86_64", "/tmp/s/MelodiaBootstrap.bin.x86_64")));
    assert!(plan.ops.contains(&FsOp::LinkEntries {
        src_dir: "/lib/common/MyGame".to_string(),
        dest_dir: "/tmp/s".to_string(),
        core_only: true
    }));
    assert!(plan.ops.contains(&FsOp::WriteFile { path: "/tmp/s/steam_appid.txt".to_string(), contents: "1637730".to_string() }));
    assert!(!plan.ops.iter().any(|op| matches!(op, FsOp::Copy { .. })));
    assert_eq!(plan.bin, "/tmp/s/MelodiaBootstrap.bin.x86_64");
    assert_eq!(plan.patcher_dir, "/opt/m/lib/patcher");
    let inputs = translation_inputs(&plan);
    assert_eq!(inputs, strings(&["/lib/common/MyGame", "/opt/m/lib/patcher", "/lib/common/MyGame", "/opt/m", "/tmp/s"]));
    let cmd = launch_bin(&plan, &inputs, &strings(&["--x", "y"]));
    assert!(!cmd.start_server);
    assert_eq!(cmd.program, "/tmp/s/MelodiaBootstrap.bin.x86_64");
    assert_eq!(cmd.cwd, "/tmp/s");
    assert_eq!(
        cmd.args,
        strings(&["/lib/common/MyGame", "/opt/m/lib/patcher", "MelodiaPatcher", "/lib/common/MyGame", "/opt/m", "/tmp/s", "--x", "y"])
    );
}

#[test]
fn scenario_foreign_build_under_compat_layer() {
    let plan = launch_game(Host::Linux, "/tmp/s", "/opt/m", "/g", APP_ID, false, true).unwrap();
    assert!(plan.compat);
    assert_eq!(plan.ops[0], FsOp::CreateDir("/tmp/s/patcher".to_string()));
    assert!(plan.ops.contains(&FsOp::Copy {
        src: "/opt/m/lib/bootstrap/MelodiaBootstrap.exe".to_string(),
        dest: "/tmp/s/MelodiaBootstrap.exe".to_string()
    }));
    assert!(plan.ops.contains(&link("/g/steam_api64.dll", "/tmp/s/steam_api64.dll")));
    let inputs = translation_inputs(&plan);
    assert_eq!(inputs, strings(&["/tmp/s/MelodiaBootstrap.exe", "/g", "/tmp/s/patcher", "/g", "/opt/m", "/tmp/s"]));
    let translated: Vec<String> = inputs.iter().map(|p| format!("Z:{}", p.replace('/', "\\"))).collect();
    let cmd = launch_bin(&plan, &translated, &vec![]);
    assert!(cmd.start_server);
    assert_eq!(cmd.program, "wine");
    assert_eq!(
        cmd.args,
        strings(&["Z:\\tmp\\s\\MelodiaBootstrap.exe", "Z:\\g", "Z:\\tmp\\s\\patcher", "MelodiaPatcher", "Z:\\g", "Z:\\opt\\m", "Z:\\tmp\\s"])
    );
}

#[test]
fn foreign_build_on_windows_links_everything() {
    let plan = launch_game(Host::Windows, "C:/t", "C:/m", "C:/g", APP_ID, false, true).unwrap();
    assert!(!plan.compat);
    assert!(!plan.ops.iter().any(|op| matches!(op, FsOp::Copy { .. })));
    assert!(plan.ops.contains(&link("C:/m/lib/bootstrap/MelodiaBootstrap.exe", "C:/t/MelodiaBootstrap.exe")));
    let cmd = launch_bin(&plan, &translation_inputs(&plan), &strings(&["a"]));
    assert_eq!(cmd.program, "C:/t/MelodiaBootstrap.exe");
    assert_eq!(cmd.args.len(), 7);
}

#[test]
fn scenario_unrecognized_installation() {
    assert_eq!(launch_game(Host::Linux, "/t", "/m", "/g", APP_ID, false, false), Err(Error::UnrecognizedInstallation));
}

#[test]
fn unsupported_combinations() {
    assert_eq!(launch_game(Host::Windows, "/t", "/m", "/g", APP_ID, true, false), Err(Error::UnsupportedCombination));
    assert_eq!(launch_game(Host::Other, "/t", "/m", "/g", APP_ID, false, true), Err(Error::UnsupportedCombination));
    assert_eq!(launch_game(Host::Other, "/t", "/m", "/g", APP_ID, true, true), Err(Error::UnsupportedCombination));
}
