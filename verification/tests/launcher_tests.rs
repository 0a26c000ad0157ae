use modpack_installer::error::{EnvVar, FileStep, NetworkStep, UpdateError};
use modpack_installer::launcher::{answer, Launcher};
use modpack_installer::release::{select_asset, Asset, Release};

fn asset(name: &str) -> Asset {
    Asset {
        name: name.to_string(),
        url: format!("https://example.invalid/{}", name),
        size: 1000,
        checksum: None,
    }
}

fn release(names: &[&str]) -> Release {
    Release::new("v1".to_string(), names.iter().map(|n| asset(n)).collect()).unwrap()
}

#[test]
fn answer_takes_white_space_off() {
    assert_eq!(answer("2\n"), "2");
    assert_eq!(answer("  1\r\n"), "1");
    assert_eq!(answer("\t3 "), "3");
    assert_eq!(answer("1 2\n"), "1 2");
    assert_eq!(answer("\n"), "");
    assert_eq!(answer(""), "");
}

#[test]
fn strict_choice_names_three_launchers() {
    assert_eq!(Launcher::from_choice("1"), Some(Launcher::Modrinth));
    assert_eq!(Launcher::from_choice("2"), Some(Launcher::CurseForge));
    assert_eq!(Launcher::from_choice("3"), Some(Launcher::Prism));
    assert_eq!(Launcher::from_choice("9"), None);
    assert_eq!(Launcher::from_choice(""), None);
    assert_eq!(Launcher::from_choice("1 "), None);
    assert_eq!(Launcher::from_choice("11"), None);
    assert_eq!(Launcher::from_choice("modrinth"), None);
}

#[test]
fn lenient_choice_falls_back_to_prism() {
    assert_eq!(Launcher::from_choice_or_default("1"), Launcher::Modrinth);
    assert_eq!(Launcher::from_choice_or_default("2"), Launcher::CurseForge);
    assert_eq!(Launcher::from_choice_or_default("3"), Launcher::Prism);
    assert_eq!(Launcher::from_choice_or_default("9"), Launcher::Prism);
    assert_eq!(Launcher::from_choice_or_default(""), Launcher::Prism);
}

#[test]
fn artifact_names() {
    assert_eq!(Launcher::Modrinth.artifact_name(), "updated-pack-modrinth.zip");
    assert_eq!(Launcher::CurseForge.artifact_name(), "updated-pack-curseforge.zip");
    assert_eq!(Launcher::Prism.artifact_name(), "updated-pack-prism.zip");
}

#[test]
fn choice_two_selects_the_curseforge_asset() {
    let release = release(&["updated-pack-modrinth.zip", "updated-pack-curseforge.zip"]);
    let selected = select_asset(&release, "2").unwrap();
    assert_eq!(selected.name, "updated-pack-curseforge.zip");
    assert_eq!(Some(selected), release.asset(1));
}

#[test]
fn choice_one_selects_the_modrinth_asset() {
    let release = release(&["updated-pack-modrinth.zip", "updated-pack-curseforge.zip"]);
    assert_eq!(select_asset(&release, "1").ok(), release.asset(0));
}

#[test]
fn other_choices_select_the_prism_asset() {
    let release = release(&["other.zip", "updated-pack-prism.zip", "updated-pack-modrinth.zip"]);
    assert_eq!(select_asset(&release, "3").ok(), release.asset(1));
    assert_eq!(select_asset(&release, "9").ok(), release.asset(1));
    assert_eq!(select_asset(&release, "").ok(), release.asset(1));
}

#[test]
fn missing_asset_is_reported_with_its_launcher() {
    let release = release(&["updated-pack-modrinth.zip", "updated-pack-curseforge.zip"]);
    assert_eq!(select_asset(&release, "3"), Err(UpdateError::AssetNotFound(Launcher::Prism)));
    assert_eq!(select_asset(&release, "9"), Err(UpdateError::AssetNotFound(Launcher::Prism)));
    let empty = release_of_nothing();
    assert_eq!(select_asset(&empty, "1"), Err(UpdateError::AssetNotFound(Launcher::Modrinth)));
    assert_eq!(select_asset(&empty, "2"), Err(UpdateError::AssetNotFound(Launcher::CurseForge)));
}

fn release_of_nothing() -> Release {
    Release::new("v0".to_string(), Vec::new()).unwrap()
}

#[test]
fn asset_names_are_compared_whole() {
    let release = release(&["updated-pack-modrinth.zip.sig", "Updated-pack-modrinth.zip"]);
    assert_eq!(select_asset(&release, "1"), Err(UpdateError::AssetNotFound(Launcher::Modrinth)));
}

#[test]
fn release_refuses_repeated_names() {
    assert_eq!(Release::new("v1".to_string(), vec![asset("a.zip"), asset("a.zip")]), None);
    assert_eq!(
        Release::new("v1".to_string(), vec![asset("a.zip"), asset("b.zip"), asset("a.zip")]),
        None
    );
    assert!(Release::new("v1".to_string(), vec![asset("a.zip"), asset("b.zip")]).is_some());
    assert!(Release::new("v1".to_string(), vec![asset("a.zip")]).is_some());
}

#[test]
fn release_keeps_tag_and_assets_in_order() {
    let release = release(&["b.zip", "a.zip"]);
    assert_eq!(release.tag(), "v1");
    assert_eq!(release.asset_count(), 2);
    assert_eq!(release.asset(0), Some(&asset("b.zip")));
    assert_eq!(release.asset(1), Some(&asset("a.zip")));
    assert_eq!(release.asset(2), None);
    assert_eq!(release.find_asset("a.zip"), Some(&asset("a.zip")));
    assert_eq!(release.find_asset("c.zip"), None);
}

#[test]
fn error_messages_name_the_step() {
    assert_eq!(UpdateError::Integrity.message(), "SHA256 mismatch for downloaded file");
    assert_eq!(UpdateError::InvalidChoice.message(), "Invalid choice");
    assert_eq!(UpdateError::Environment(EnvVar::AppData).message(), "Failed to get APPDATA");
    assert_eq!(UpdateError::Environment(EnvVar::HomeDrive).message(), "Failed to get HOMEDRIVE");
    assert_eq!(UpdateError::Environment(EnvVar::HomePath).message(), "Failed to get HOMEPATH");
    assert_eq!(
        UpdateError::AssetNotFound(Launcher::CurseForge).message(),
        "No new release found or 'updated-pack-curseforge.zip' not available."
    );
    assert_eq!(
        UpdateError::Network(NetworkStep::FetchRelease).message(),
        "Failed to fetch latest release"
    );
    assert_eq!(UpdateError::Network(NetworkStep::SendRequest).message(), "Failed to send request");
    assert_eq!(UpdateError::Network(NetworkStep::ReadChunk).message(), "Failed to read chunk");
    assert_eq!(UpdateError::NotFound.message(), "No release has been published");
    assert_eq!(UpdateError::Auth.message(), "The release index refused the request");
}

#[test]
fn filesystem_messages() {
    let expected = [
        (FileStep::OpenCache, "Failed to open cached file"),
        (FileStep::ReadCache, "Failed to read cached file"),
        (FileStep::WriteCache, "Failed to write cache file"),
        (FileStep::CleanTarget, "Failed to clean target directory"),
        (FileStep::CreateTarget, "Failed to create target directory"),
        (FileStep::WriteTemp, "Failed to write temporary file"),
        (FileStep::OpenTemp, "Failed to open temporary file"),
        (FileStep::OpenArchive, "Failed to create ZIP archive"),
        (FileStep::Extract, "Failed to extract ZIP archive"),
        (FileStep::RemoveTemp, "Failed to remove temporary file"),
    ];
    for (step, text) in expected {
        assert_eq!(step.context(), text);
        assert_eq!(UpdateError::Filesystem(step).message(), text);
    }
}

#[test]
fn only_a_missing_asset_is_not_fatal() {
    assert!(!UpdateError::AssetNotFound(Launcher::Prism).is_fatal());
    assert_eq!(UpdateError::AssetNotFound(Launcher::Modrinth).exit_code(), 0);
    let fatal = [
        UpdateError::Network(NetworkStep::SendRequest),
        UpdateError::NotFound,
        UpdateError::Auth,
        UpdateError::Integrity,
        UpdateError::Environment(EnvVar::AppData),
        UpdateError::InvalidChoice,
        UpdateError::Filesystem(FileStep::Extract),
    ];
    for error in fatal {
        assert!(error.is_fatal());
        assert_eq!(error.exit_code(), 1);
    }
}

#[test]
fn release_lookup_failures() {
    assert_eq!(UpdateError::from_release_status(Some(404)), UpdateError::NotFound);
    assert_eq!(UpdateError::from_release_status(Some(401)), UpdateError::Auth);
    assert_eq!(UpdateError::from_release_status(Some(403)), UpdateError::Auth);
    assert_eq!(UpdateError::from_release_status(Some(429)), UpdateError::Auth);
    assert_eq!(
        UpdateError::from_release_status(Some(500)),
        UpdateError::Network(NetworkStep::FetchRelease)
    );
    assert_eq!(
        UpdateError::from_release_status(None),
        UpdateError::Network(NetworkStep::FetchRelease)
    );
}
