use melodia::error::Error;
use melodia::steam_apps::{
    app_manifest_name, decimal_string, find_game_by_id, find_libraries_from_manifest,
    find_steam_libraries, library_candidates, library_manifest_path, parse_app_manifest,
    steam_root, Host,
};

fn strings(v: &[&str]) -> Vec<String> {
    v.iter().map(|s| s.to_string()).collect()
}

#[test]
fn decimal_names() {
    assert_eq!(decimal_string(0), "0");
    assert_eq!(decimal_string(1637730), "1637730");
    assert_eq!(decimal_string(u64::MAX), "18446744073709551615");
    assert_eq!(app_manifest_name(1637730), "appmanifest_1637730.acf");
}

#[test]
fn root_paths() {
    assert_eq!(steam_root(Host::Linux, Some("/home/u")), Ok("/home/u/.steam/steam".to_string()));
    assert_eq!(steam_root(Host::Linux, Some("/home/u/")), Ok("/home/u/.steam/steam".to_string()));
    assert_eq!(steam_root(Host::Linux, None), Err(Error::NotFound));
    assert_eq!(steam_root(Host::Windows, Some("C:/Users/u")), Err(Error::UnsupportedPlatform));
    assert_eq!(steam_root(Host::Other, None), Err(Error::UnsupportedPlatform));
    assert_eq!(
        library_manifest_path("/home/u/.steam/steam"),
        "/home/u/.steam/steam/steamapps/libraryfolders.vdf"
    );
}

#[test]
fn candidates_from_manifest() {
    let text = "\"libraryfolders\"\n{\n\"0\"\n{\n\"path\" \"/one\"\n}\n\"1\"\n{\n\"path\" \"/two/\"\n}\n}\n";
    assert_eq!(library_candidates(text), strings(&["/one/steamapps", "/two/steamapps"]));
    assert_eq!(find_steam_libraries(None), Err(Error::NotFound));
    assert_eq!(find_steam_libraries(Some(text)), Ok(strings(&["/one/steamapps", "/two/steamapps"])));
}

#[test]
fn keeps_only_existing_libraries_in_order() {
    let cands = strings(&["/a/steamapps", "/b/steamapps", "/c/steamapps", "/d/steamapps"]);
    let r = find_libraries_from_manifest(&cands, &vec![true, false, true, false]);
    assert_eq!(r, Ok(strings(&["/a/steamapps", "/c/steamapps"])));
}

#[test]
fn no_libraries_is_an_error() {
    let cands = strings(&["/a/steamapps"]);
    assert_eq!(find_libraries_from_manifest(&cands, &vec![false]), Err(Error::NoLibrariesFound));
    assert_eq!(find_libraries_from_manifest(&vec![], &vec![]), Err(Error::NoLibrariesFound));
}

#[test]
fn app_manifest_install_dir() {
    let text = "\"AppState\"\n{\n\t\"appid\"\t\t\"1637730\"\n\t\"installdir\"\t\t\"MyGame\"\n\t\"installdir\"\t\t\"Other\"\n}\n";
    assert_eq!(parse_app_manifest("/lib/steamapps", text), Ok("/lib/steamapps/common/MyGame".to_string()));
    assert_eq!(parse_app_manifest("/lib/steamapps", "\"AppState\"\n{\n}\n"), Err(Error::ManifestFieldMissing));
}

#[test]
fn lookup_without_manifest_is_not_found() {
    let libs = strings(&["/a", "/b"]);
    assert_eq!(find_game_by_id(&libs, &vec![None, None], &vec![false, false]), Ok(None));
    assert_eq!(find_game_by_id(&vec![], &vec![], &vec![]), Ok(None));
}

#[test]
fn lookup_first_library_wins() {
    let libs = strings(&["/a", "/b", "/c"]);
    let m = Some("\"installdir\" \"MyGame\"".to_string());
    let mans = vec![None, m.clone(), m];
    assert_eq!(find_game_by_id(&libs, &mans, &vec![false, true, true]), Ok(Some("/b/common/MyGame".to_string())));
}

#[test]
fn lookup_errors_come_from_first_manifest() {
    let libs = strings(&["/a", "/b"]);
    let good = Some("\"installdir\" \"MyGame\"".to_string());
    let mans = vec![good.clone(), good];
    assert_eq!(find_game_by_id(&libs, &mans, &vec![false, true]), Err(Error::InvalidInstallation));
    let mans = vec![Some("{}".to_string()), Some("\"installdir\" \"G\"".to_string())];
    assert_eq!(find_game_by_id(&libs, &mans, &vec![true, true]), Err(Error::ManifestFieldMissing));
}
