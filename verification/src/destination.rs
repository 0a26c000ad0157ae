//! The directory that a launcher keeps the modpack's instance in.

use crate::error::{EnvVar, UpdateError};
use crate::launcher::{choice_launcher, Launcher};
use crate::location::{Location, LocationView};
use crate::text::optional_text;
use vstd::prelude::*;
use vstd::string::StringExecFns;

verus! {

/// The environment variables that the launchers' directories are built
/// from, each with its value where it is set.
#[derive(Clone, Debug, PartialEq, Eq)]
pub struct Environment {
    pub appdata: Option<String>,
    pub homedrive: Option<String>,
    pub homepath: Option<String>,
}

/// The environment, as plain mathematical values.
pub struct EnvironmentView {
    pub appdata: Option<Seq<char>>,
    pub homedrive: Option<Seq<char>>,
    pub homepath: Option<Seq<char>>,
}

impl View for Environment {
    type V = EnvironmentView;

    open spec fn view(&self) -> EnvironmentView {
        EnvironmentView {
            appdata: optional_text(self.appdata),
            homedrive: optional_text(self.homedrive),
            homepath: optional_text(self.homepath),
        }
    }
}

/// The name of the modpack's instance directory, the same for every
/// launcher.
pub open spec fn pack_dir_name() -> Seq<char> {
    "Originalife Season 4"@
}

/// The names that lead from a launcher's base directory to the directory
/// that holds its instances.
pub open spec fn instances_path(launcher: Launcher) -> Seq<Seq<char>> {
    match launcher {
        Launcher::Modrinth => seq!["ModrinthApp"@, "profiles"@],
        Launcher::CurseForge => seq!["curseforge"@, "minecraft"@, "Instances"@],
        Launcher::Prism => seq!["PrismLauncher"@, "instances"@],
    }
}

/// The base directory of a launcher, as the environment gives it: the
/// application data directory for Modrinth and Prism, the home drive
/// followed by the home path for CurseForge. A variable that is not set is
/// the error, the home drive before the home path.
pub open spec fn base_dir_spec(launcher: Launcher, env: EnvironmentView) -> Result<
    Seq<char>,
    UpdateError,
> {
    match launcher {
        Launcher::Modrinth | Launcher::Prism => match env.appdata {
            Some(appdata) => Ok(appdata),
            None => Err(UpdateError::Environment(EnvVar::AppData)),
        },
        Launcher::CurseForge => match env.homedrive {
            None => Err(UpdateError::Environment(EnvVar::HomeDrive)),
            Some(drive) => match env.homepath {
                None => Err(UpdateError::Environment(EnvVar::HomePath)),
                Some(path) => Ok(drive + path),
            },
        },
    }
}

/// The modpack's instance directory for a launcher: the launcher's base
/// directory, the names that lead to its instances, and the modpack's name.
pub open spec fn install_dir_spec(launcher: Launcher, env: EnvironmentView) -> Result<
    LocationView,
    UpdateError,
> {
    match base_dir_spec(launcher, env) {
        Ok(base) => Ok(
            LocationView { base, segments: instances_path(launcher).push(pack_dir_name()) },
        ),
        Err(error) => Err(error),
    }
}

/// The modpack's instance directory for an answer to the prompt. An answer
/// that names no launcher is `InvalidChoice`, whatever the environment
/// holds.
pub open spec fn resolve_spec(choice: Seq<char>, env: EnvironmentView) -> Result<
    LocationView,
    UpdateError,
> {
    match choice_launcher(choice) {
        Some(launcher) => install_dir_spec(launcher, env),
        None => Err(UpdateError::InvalidChoice),
    }
}

/// A place or an error, as plain mathematical values.
pub open spec fn resolved(outcome: Result<Location, UpdateError>) -> Result<
    LocationView,
    UpdateError,
> {
    match outcome {
        Ok(place) => Ok(place@),
        Err(error) => Err(error),
    }
}

/// The value of a variable, or the error that names it.
fn require(value: &Option<String>, var: EnvVar) -> (outcome: Result<&str, UpdateError>)
    ensures
        match outcome {
            Ok(text) => optional_text(*value) == Some(text@),
            Err(error) => value is None && error == UpdateError::Environment(var),
        },
{
    match value {
        Some(text) => Ok(text.as_str()),
        None => Err(UpdateError::Environment(var)),
    }
}

/// The base directory of a launcher.
pub fn base_dir(launcher: Launcher, env: &Environment) -> (outcome: Result<String, UpdateError>)
    ensures
        match outcome {
            Ok(base) => base_dir_spec(launcher, env@) == Ok::<Seq<char>, UpdateError>(base@),
            Err(error) => base_dir_spec(launcher, env@) == Err::<Seq<char>, UpdateError>(error),
        },
{
    match launcher {
        Launcher::Modrinth | Launcher::Prism => {
            match require(&env.appdata, EnvVar::AppData) {
                Ok(appdata) => Ok(String::from_str(appdata)),
                Err(error) => Err(error),
            }
        },
        Launcher::CurseForge => {
            match require(&env.homedrive, EnvVar::HomeDrive) {
                Err(error) => Err(error),
                Ok(drive) => match require(&env.homepath, EnvVar::HomePath) {
                    Err(error) => Err(error),
                    Ok(path) => {
                        let mut base = String::from_str(drive);
                        base.append(path);
                        Ok(base)
                    },
                },
            }
        },
    }
}

/// The modpack's instance directory for a launcher.
pub fn install_dir(launcher: Launcher, env: &Environment) -> (outcome: Result<
    Location,
    UpdateError,
>)
    ensures
        resolved(outcome) == install_dir_spec(launcher, env@),
{
    match base_dir(launcher, env) {
        Err(error) => Err(error),
        Ok(base) => {
            let root = Location::at(base.as_str());
            let instances = match launcher {
                Launcher::Modrinth => root.child("ModrinthApp").child("profiles"),
                Launcher::CurseForge => root.child("curseforge").child("minecraft").child(
                    "Instances",
                ),
                Launcher::Prism => root.child("PrismLauncher").child("instances"),
            };
            proof {
                assert(instances@.segments =~= instances_path(launcher));
            }
            Ok(instances.child("Originalife Season 4"))
        },
    }
}

/// The modpack's instance directory for an answer to the prompt. Nothing is
/// touched: the answer is a place, or the reason why there is none.
pub fn resolve(choice: &str, env: &Environment) -> (outcome: Result<Location, UpdateError>)
    ensures
        resolved(outcome) == resolve_spec(choice@, env@),
{
    match Launcher::from_choice(choice) {
        Some(launcher) => install_dir(launcher, env),
        None => Err(UpdateError::InvalidChoice),
    }
}

/// The variables that a launcher's directory needs are set.
pub open spec fn has_variables(launcher: Launcher, env: EnvironmentView) -> bool {
    match launcher {
        Launcher::Modrinth | Launcher::Prism => env.appdata is Some,
        Launcher::CurseForge => env.homedrive is Some && env.homepath is Some,
    }
}

/// For every answer that names a launcher whose variables are set, the
/// resolved place stands at that launcher's base directory, leads through
/// that launcher's instances, and ends in the modpack's directory name.
pub proof fn lemma_resolve_ends_in_pack_dir(choice: Seq<char>, env: EnvironmentView)
    requires
        choice_launcher(choice) is Some,
        has_variables(choice_launcher(choice)->Some_0, env),
    ensures
        resolve_spec(choice, env) is Ok,
        base_dir_spec(choice_launcher(choice)->Some_0, env) == Ok::<Seq<char>, UpdateError>(
            resolve_spec(choice, env)->Ok_0.base,
        ),
        resolve_spec(choice, env)->Ok_0.segments.last() == pack_dir_name(),
        resolve_spec(choice, env)->Ok_0.segments.drop_last() == instances_path(
            choice_launcher(choice)->Some_0,
        ),
{
    let launcher = choice_launcher(choice)->Some_0;
    let place = resolve_spec(choice, env)->Ok_0;
    assert(place.segments.drop_last() =~= instances_path(launcher));
}

/// A place is resolved exactly for the answers that name a launcher whose
/// variables are set.
pub proof fn lemma_resolve_succeeds_iff(choice: Seq<char>, env: EnvironmentView)
    ensures
        resolve_spec(choice, env) is Ok <==> (choice_launcher(choice) is Some && has_variables(
            choice_launcher(choice)->Some_0,
            env,
        )),
        choice_launcher(choice) is None ==> resolve_spec(choice, env) == Err::<
            LocationView,
            UpdateError,
        >(UpdateError::InvalidChoice),
{
}

} // verus!
