//! The launchers that the updater installs for, and the user's choice among
//! them.

use crate::text::same_text;
use vstd::prelude::*;

verus! {

/// A game launcher that keeps its instances in a directory of its own.
#[derive(Clone, Copy, Debug, PartialEq, Eq, Structural)]
pub enum Launcher {
    Modrinth,
    CurseForge,
    Prism,
}

/// A line of input without the white space before and after it, as
/// `str::trim` of the standard library gives it.
pub uninterp spec fn trimmed(line: Seq<char>) -> Seq<char>;

/// Calls `str::trim`, which returns the part of the line that is left when
/// leading and trailing white space, the line's end included, is taken off.
/// Trusted: the result is a function of the line's characters alone.
#[verifier::external_body]
fn trim(line: &str) -> (text: &str)
    ensures
        text@ == trimmed(line@),
{
    line.trim()
}

/// The answer that a line of input holds: the line without the white space
/// around it.
pub fn answer(line: &str) -> (choice: &str)
    ensures
        choice@ == trimmed(line@),
{
    trim(line)
}

/// The launcher that an answer to the prompt names, where it names one:
/// `1` is Modrinth, `2` is CurseForge, `3` is Prism.
pub open spec fn choice_launcher(choice: Seq<char>) -> Option<Launcher> {
    if is_digit(choice, '1') {
        Some(Launcher::Modrinth)
    } else if is_digit(choice, '2') {
        Some(Launcher::CurseForge)
    } else if is_digit(choice, '3') {
        Some(Launcher::Prism)
    } else {
        None
    }
}

/// The text is the one character `digit`.
pub open spec fn is_digit(text: Seq<char>, digit: char) -> bool {
    text.len() == 1 && text[0] == digit
}

/// The launcher whose archive is picked for an answer: an answer that names
/// no launcher falls back to Prism.
pub open spec fn choice_launcher_or_default(choice: Seq<char>) -> Launcher {
    match choice_launcher(choice) {
        Some(launcher) => launcher,
        None => Launcher::Prism,
    }
}

/// The name of the release asset built for a launcher.
pub open spec fn artifact_name_spec(launcher: Launcher) -> Seq<char> {
    match launcher {
        Launcher::Modrinth => "updated-pack-modrinth.zip"@,
        Launcher::CurseForge => "updated-pack-curseforge.zip"@,
        Launcher::Prism => "updated-pack-prism.zip"@,
    }
}

impl Launcher {
    /// Reads an answer to the prompt strictly: only `1`, `2` and `3` name a
    /// launcher.
    pub fn from_choice(choice: &str) -> (launcher: Option<Launcher>)
        ensures
            launcher == choice_launcher(choice@),
    {
        proof {
            reveal_strlit("1");
            reveal_strlit("2");
            reveal_strlit("3");
            assert(is_digit(choice@, '1') <==> choice@ =~= "1"@);
            assert(is_digit(choice@, '2') <==> choice@ =~= "2"@);
            assert(is_digit(choice@, '3') <==> choice@ =~= "3"@);
        }
        if same_text(choice, "1") {
            Some(Launcher::Modrinth)
        } else if same_text(choice, "2") {
            Some(Launcher::CurseForge)
        } else if same_text(choice, "3") {
            Some(Launcher::Prism)
        } else {
            None
        }
    }

    /// Reads an answer to the prompt leniently: anything but `1` and `2`
    /// means Prism.
    pub fn from_choice_or_default(choice: &str) -> (launcher: Launcher)
        ensures
            launcher == choice_launcher_or_default(choice@),
    {
        match Launcher::from_choice(choice) {
            Some(launcher) => launcher,
            None => Launcher::Prism,
        }
    }

    /// The name of the release asset built for this launcher.
    pub fn artifact_name(self) -> (name: &'static str)
        ensures
            name@ == artifact_name_spec(self),
    {
        match self {
            Launcher::Modrinth => "updated-pack-modrinth.zip",
            Launcher::CurseForge => "updated-pack-curseforge.zip",
            Launcher::Prism => "updated-pack-prism.zip",
        }
    }
}

/// The three asset names differ, so an asset's name tells its launcher.
pub proof fn lemma_artifact_names_distinct(a: Launcher, b: Launcher)
    requires
        artifact_name_spec(a) == artifact_name_spec(b),
    ensures
        a == b,
{
    reveal_strlit("updated-pack-modrinth.zip");
    reveal_strlit("updated-pack-curseforge.zip");
    reveal_strlit("updated-pack-prism.zip");
    let m = "updated-pack-modrinth.zip"@;
    let c = "updated-pack-curseforge.zip"@;
    let p = "updated-pack-prism.zip"@;
    assert(m.len() == 25 && c.len() == 27 && p.len() == 22);
}

} // verus!
