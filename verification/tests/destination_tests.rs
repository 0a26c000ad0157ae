use modpack_installer::cache::{cache_file_name, get_cache_dir, get_cached_file_path};
use modpack_installer::destination::{base_dir, install_dir, resolve, Environment};
use modpack_installer::error::{EnvVar, UpdateError};
use modpack_installer::launcher::Launcher;
use modpack_installer::location::Location;

fn windows() -> Environment {
    Environment {
        appdata: Some(r"C:\Users\steve\AppData\Roaming".to_string()),
        homedrive: Some("C:".to_string()),
        homepath: Some(r"\Users\steve".to_string()),
    }
}

fn nothing_set() -> Environment {
    Environment { appdata: None, homedrive: None, homepath: None }
}

fn place(base: &str, segments: &[&str]) -> Location {
    Location { base: base.to_string(), segments: segments.iter().map(|s| s.to_string()).collect() }
}

#[test]
fn modrinth_directory() {
    assert_eq!(
        resolve("1", &windows()),
        Ok(place(
            r"C:\Users\steve\AppData\Roaming",
            &["ModrinthApp", "profiles", "Originalife Season 4"]
        ))
    );
}

#[test]
fn curseforge_directory() {
    assert_eq!(
        resolve("2", &windows()),
        Ok(place(
            r"C:\Users\steve",
            &["curseforge", "minecraft", "Instances", "Originalife Season 4"]
        ))
    );
}

#[test]
fn prism_directory() {
    assert_eq!(
        resolve("3", &windows()),
        Ok(place(
            r"C:\Users\steve\AppData\Roaming",
            &["PrismLauncher", "instances", "Originalife Season 4"]
        ))
    );
}

#[test]
fn every_valid_choice_ends_in_the_pack_directory() {
    let env = windows();
    for (choice, launcher) in
        [("1", Launcher::Modrinth), ("2", Launcher::CurseForge), ("3", Launcher::Prism)]
    {
        let place = resolve(choice, &env).unwrap();
        assert_eq!(place.leaf(), Some("Originalife Season 4"));
        assert_eq!(place.base, base_dir(launcher, &env).unwrap());
        assert_eq!(Ok(place), install_dir(launcher, &env));
    }
}

#[test]
fn unrecognized_choice_is_invalid() {
    assert_eq!(resolve("9", &windows()), Err(UpdateError::InvalidChoice));
    assert_eq!(resolve("", &windows()), Err(UpdateError::InvalidChoice));
    assert_eq!(resolve("3 ", &windows()), Err(UpdateError::InvalidChoice));
    assert_eq!(resolve("9", &nothing_set()), Err(UpdateError::InvalidChoice));
}

#[test]
fn missing_variables_are_named() {
    let none = nothing_set();
    assert_eq!(resolve("1", &none), Err(UpdateError::Environment(EnvVar::AppData)));
    assert_eq!(resolve("2", &none), Err(UpdateError::Environment(EnvVar::HomeDrive)));
    assert_eq!(resolve("3", &none), Err(UpdateError::Environment(EnvVar::AppData)));
    let no_path = Environment { homepath: None, ..windows() };
    assert_eq!(resolve("2", &no_path), Err(UpdateError::Environment(EnvVar::HomePath)));
    let no_drive = Environment { homedrive: None, ..windows() };
    assert_eq!(resolve("2", &no_drive), Err(UpdateError::Environment(EnvVar::HomeDrive)));
}

#[test]
fn only_the_needed_variables_are_required() {
    let only_appdata = Environment { appdata: Some("A".to_string()), ..nothing_set() };
    assert!(resolve("1", &only_appdata).is_ok());
    assert!(resolve("3", &only_appdata).is_ok());
    let only_home = Environment { appdata: None, ..windows() };
    assert!(resolve("2", &only_home).is_ok());
}

#[test]
fn base_directories() {
    let env = windows();
    assert_eq!(base_dir(Launcher::Modrinth, &env), Ok(r"C:\Users\steve\AppData\Roaming".to_string()));
    assert_eq!(base_dir(Launcher::CurseForge, &env), Ok(r"C:\Users\steve".to_string()));
    assert_eq!(base_dir(Launcher::Prism, &env), Ok(r"C:\Users\steve\AppData\Roaming".to_string()));
}

#[test]
fn variable_names() {
    assert_eq!(EnvVar::AppData.name(), "APPDATA");
    assert_eq!(EnvVar::HomeDrive.name(), "HOMEDRIVE");
    assert_eq!(EnvVar::HomePath.name(), "HOMEPATH");
}

#[test]
fn location_descends_by_names() {
    let root = Location::at("/tmp");
    assert_eq!(root, place("/tmp", &[]));
    assert_eq!(root.leaf(), None);
    let below = root.child("a").child("b");
    assert_eq!(below, place("/tmp", &["a", "b"]));
    assert_eq!(below.leaf(), Some("b"));
}

#[test]
fn cache_file_is_named_by_checksum_and_asset() {
    assert_eq!(cache_file_name("pack.zip", "abc123"), "abc123-pack.zip");
    assert_eq!(cache_file_name("", ""), "-");
}

#[test]
fn cache_directory_stands_below_the_temporary_directory() {
    assert_eq!(get_cache_dir("/tmp"), place("/tmp", &["originalife_s4_cache"]));
}

#[test]
fn cached_file_stands_in_the_cache_directory() {
    assert_eq!(
        get_cached_file_path("/tmp", "updated-pack-prism.zip", "0f0f"),
        place("/tmp", &["originalife_s4_cache", "0f0f-updated-pack-prism.zip"])
    );
}
