//! Releases, their assets, and the choice of the asset for a launcher.

use crate::error::UpdateError;
use crate::launcher::{artifact_name_spec, choice_launcher_or_default, Launcher};
use crate::text::{optional_text, same_text};
use vstd::prelude::*;

verus! {

/// A downloadable file of a release.
#[derive(Clone, Debug, PartialEq, Eq)]
pub struct Asset {
    /// The file's name, by which a release tells its assets apart.
    pub name: String,
    /// Where the file is downloaded from.
    pub url: String,
    /// The size in bytes that the release declares for the file.
    pub size: u64,
    /// The SHA-256 checksum that the release declares, in lowercase
    /// hexadecimal, where it declares one.
    pub checksum: Option<String>,
}

/// What an asset says, as plain mathematical values.
pub struct AssetView {
    pub name: Seq<char>,
    pub url: Seq<char>,
    pub size: u64,
    pub checksum: Option<Seq<char>>,
}

impl View for Asset {
    type V = AssetView;

    open spec fn view(&self) -> AssetView {
        AssetView {
            name: self.name@,
            url: self.url@,
            size: self.size,
            checksum: optional_text(self.checksum),
        }
    }
}

/// The views of a list of assets, in order.
pub open spec fn asset_views(assets: Seq<Asset>) -> Seq<AssetView> {
    Seq::new(assets.len(), |i: int| assets[i]@)
}

/// No two assets of the list share a name.
pub open spec fn names_unique(assets: Seq<AssetView>) -> bool {
    forall|i: int, j: int|
        0 <= i < assets.len() && 0 <= j < assets.len() && i != j ==> (#[trigger] assets[i]).name
            != (#[trigger] assets[j]).name
}

/// Some asset of the list has the name.
pub open spec fn has_asset(assets: Seq<AssetView>, name: Seq<char>) -> bool {
    exists|i: int| 0 <= i < assets.len() && (#[trigger] assets[i]).name == name
}

/// A published release: its tag and its assets, in the order in which the
/// release lists them. No two assets of a release share a name.
#[derive(Debug, PartialEq, Eq)]
pub struct Release {
    tag: String,
    assets: Vec<Asset>,
}

/// What a release says, as plain mathematical values.
pub struct ReleaseView {
    pub tag: Seq<char>,
    pub assets: Seq<AssetView>,
}

impl View for Release {
    type V = ReleaseView;

    closed spec fn view(&self) -> ReleaseView {
        ReleaseView { tag: self.tag@, assets: asset_views(self.assets@) }
    }
}

impl Release {
    #[verifier::type_invariant]
    spec fn unique_names(&self) -> bool {
        names_unique(asset_views(self.assets@))
    }

    /// Makes a release of a tag and a list of assets. There is no release
    /// where two of the assets share a name.
    pub fn new(tag: String, assets: Vec<Asset>) -> (release: Option<Release>)
        ensures
            release.is_some() == names_unique(asset_views(assets@)),
            release.is_some() ==> release.unwrap()@ == (ReleaseView {
                tag: tag@,
                assets: asset_views(assets@),
            }),
    {
        let ghost views = asset_views(assets@);
        let mut i: usize = 0;
        while i < assets.len()
            invariant
                i <= assets.len(),
                views == asset_views(assets@),
                forall|a: int, b: int|
                    0 <= a < i && 0 <= b < assets.len() && a != b ==> (#[trigger] views[a]).name
                        != (#[trigger] views[b]).name,
            decreases assets.len() - i,
        {
            let mut j: usize = i + 1;
            while j < assets.len()
                invariant
                    i < j <= assets.len(),
                    views == asset_views(assets@),
                    forall|b: int| i < b < j ==> views[i as int].name != (#[trigger] views[b]).name,
                decreases assets.len() - j,
            {
                if same_text(assets[i].name.as_str(), assets[j].name.as_str()) {
                    proof {
                        assert(views[i as int].name == views[j as int].name);
                    }
                    return None;
                }
                j += 1;
            }
            i += 1;
        }
        Some(Release { tag, assets })
    }

    /// The release's tag.
    pub fn tag(&self) -> (tag: &str)
        ensures
            tag@ == self@.tag,
    {
        self.tag.as_str()
    }

    /// The number of assets.
    pub fn asset_count(&self) -> (n: usize)
        ensures
            n == self@.assets.len(),
    {
        self.assets.len()
    }

    /// The asset at a position of the release's list, where the list is
    /// that long.
    pub fn asset(&self, index: usize) -> (asset: Option<&Asset>)
        ensures
            match asset {
                Some(found) => index < self@.assets.len() && found@ == self@.assets[index as int],
                None => index >= self@.assets.len(),
            },
    {
        if index < self.assets.len() {
            Some(&self.assets[index])
        } else {
            None
        }
    }

    /// Looks an asset up by its name.
    pub fn find_asset(&self, name: &str) -> (found: Option<&Asset>)
        ensures
            names_unique(self@.assets),
            match found {
                Some(asset) => self@.assets.contains(asset@) && asset@.name == name@,
                None => !has_asset(self@.assets, name@),
            },
    {
        proof {
            use_type_invariant(self);
        }
        let ghost views = asset_views(self.assets@);
        let mut i: usize = 0;
        while i < self.assets.len()
            invariant
                i <= self.assets.len(),
                views == asset_views(self.assets@),
                names_unique(self@.assets),
                forall|k: int| 0 <= k < i ==> (#[trigger] views[k]).name != name@,
            decreases self.assets.len() - i,
        {
            if same_text(self.assets[i].name.as_str(), name) {
                proof {
                    assert(views[i as int] == self.assets@[i as int]@);
                    assert(views[i as int].name == name@);
                }
                return Some(&self.assets[i]);
            }
            i += 1;
        }
        None
    }
}

/// Picks the asset of a release for an answer to the prompt: the asset named
/// for Modrinth on `1`, for CurseForge on `2`, and for Prism on anything
/// else. Where the release has no asset of that name, the answer is
/// `AssetNotFound` with the launcher whose asset is missing.
pub fn select_asset<'a>(release: &'a Release, choice: &str) -> (selected: Result<
    &'a Asset,
    UpdateError,
>)
    ensures
        names_unique(release@.assets),
        match selected {
            Ok(asset) => release@.assets.contains(asset@) && asset@.name == artifact_name_spec(
                choice_launcher_or_default(choice@),
            ),
            Err(error) => error == UpdateError::AssetNotFound(choice_launcher_or_default(choice@))
                && !has_asset(
                release@.assets,
                artifact_name_spec(choice_launcher_or_default(choice@)),
            ),
        },
{
    let launcher = Launcher::from_choice_or_default(choice);
    match release.find_asset(launcher.artifact_name()) {
        Some(asset) => Ok(asset),
        None => Err(UpdateError::AssetNotFound(launcher)),
    }
}

/// In a list without repeated names, the assets of one name are one asset.
pub proof fn lemma_named_asset_is_unique(assets: Seq<AssetView>, a: AssetView, b: AssetView)
    requires
        names_unique(assets),
        assets.contains(a),
        assets.contains(b),
        a.name == b.name,
    ensures
        a == b,
{
    let i = choose|i: int| 0 <= i < assets.len() && assets[i] == a;
    let j = choose|j: int| 0 <= j < assets.len() && assets[j] == b;
    if i != j {
        assert(assets[i].name != assets[j].name);
    }
}

} // verus!
