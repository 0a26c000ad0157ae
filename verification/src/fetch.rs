//! Obtaining an asset's content: from the cache where an entry stands, from
//! the network otherwise, verified before it is kept.
//!
//! The library decides and the caller acts. A [`FetchPlan`] says what is
//! known of the asset; each [`FetchStep`] names the one thing to do next, and
//! the caller reports what came of it to the method for that step, which
//! answers with the next step, until the step is `Done` or `Failed`.

use crate::digest::{digest_matches, digest_matches_spec, sha256, sha256_digest};
use crate::error::UpdateError;
use crate::release::{Asset, AssetView};
use crate::text::{copy_optional, optional_text};
use vstd::prelude::*;
use vstd::string::{StrSliceExecFns, StringExecFns};

verus! {

/// Where the checksum of an asset is taken from.
#[derive(Clone, Copy, Debug, PartialEq, Eq, Structural)]
pub enum ChecksumPolicy {
    /// No checksum: downloaded content is trusted as it is.
    Skip,
    /// The first sixty-four characters of the asset's name.
    DeriveFromName,
    /// The checksum that the release declares for the asset.
    ExplicitField,
}

/// Whether downloaded content is kept between runs.
#[derive(Clone, Copy, Debug, PartialEq, Eq, Structural)]
pub enum CachePolicy {
    Disabled,
    Enabled,
}

/// How assets are fetched.
#[derive(Clone, Copy, Debug, PartialEq, Eq, Structural)]
pub struct FetchConfig {
    pub checksum: ChecksumPolicy,
    pub cache: CachePolicy,
}

/// The number of characters of a SHA-256 checksum in hexadecimal.
pub const CHECKSUM_LENGTH: usize = 64;

/// The checksum that content for an asset must have, where the policy gives
/// one. A name shorter than a checksum gives none.
pub open spec fn expected_checksum_spec(asset: AssetView, policy: ChecksumPolicy) -> Option<
    Seq<char>,
> {
    match policy {
        ChecksumPolicy::Skip => None,
        ChecksumPolicy::DeriveFromName => if asset.name.len() >= CHECKSUM_LENGTH {
            Some(asset.name.subrange(0, CHECKSUM_LENGTH as int))
        } else {
            None
        },
        ChecksumPolicy::ExplicitField => asset.checksum,
    }
}

/// The checksum that content for an asset must have, where the policy gives
/// one.
pub fn expected_checksum(asset: &Asset, policy: ChecksumPolicy) -> (checksum: Option<String>)
    ensures
        optional_text(checksum) == expected_checksum_spec(asset@, policy),
{
    match policy {
        ChecksumPolicy::Skip => None,
        ChecksumPolicy::DeriveFromName => {
            let name = asset.name.as_str();
            if name.unicode_len() >= CHECKSUM_LENGTH {
                Some(String::from_str(name.substring_char(0, CHECKSUM_LENGTH)))
            } else {
                None
            }
        },
        ChecksumPolicy::ExplicitField => copy_optional(&asset.checksum),
    }
}

/// What a fetch knows of its asset.
#[derive(Clone, Debug, PartialEq, Eq)]
pub struct FetchPlan {
    /// The asset's name.
    pub name: String,
    /// Where the asset is downloaded from.
    pub url: String,
    /// The size that the release declares.
    pub size: u64,
    /// The checksum that the content must have, where one is known.
    pub expected: Option<String>,
    /// Whether verified content is kept, and kept content reused.
    pub caching: bool,
}

/// A fetch plan, as plain mathematical values.
pub struct FetchPlanView {
    pub name: Seq<char>,
    pub url: Seq<char>,
    pub size: u64,
    pub expected: Option<Seq<char>>,
    pub caching: bool,
}

impl View for FetchPlan {
    type V = FetchPlanView;

    open spec fn view(&self) -> FetchPlanView {
        FetchPlanView {
            name: self.name@,
            url: self.url@,
            size: self.size,
            expected: optional_text(self.expected),
            caching: self.caching,
        }
    }
}

/// The one thing to do next in a fetch.
#[derive(Clone, Debug, PartialEq, Eq)]
pub enum FetchStep {
    /// Read the cache entry for the asset name and the checksum, and report
    /// its content, or that there is none.
    LookUp { artifact_name: String, sha256: String },
    /// Download the body from the address, and report it.
    Download { url: String, size: u64 },
    /// Write the content as the cache entry for the asset name and the
    /// checksum, and report that it is written.
    Store { artifact_name: String, sha256: String, content: Vec<u8> },
    /// The fetch has ended with the asset's content.
    Done { content: Vec<u8> },
    /// The fetch has ended without content.
    Failed { error: UpdateError },
}

/// A step of a fetch, as plain mathematical values.
pub enum FetchStepView {
    LookUp { artifact_name: Seq<char>, sha256: Seq<char> },
    Download { url: Seq<char>, size: u64 },
    Store { artifact_name: Seq<char>, sha256: Seq<char>, content: Seq<u8> },
    Done { content: Seq<u8> },
    Failed { error: UpdateError },
}

impl View for FetchStep {
    type V = FetchStepView;

    open spec fn view(&self) -> FetchStepView {
        match *self {
            FetchStep::LookUp { artifact_name, sha256 } => FetchStepView::LookUp {
                artifact_name: artifact_name@,
                sha256: sha256@,
            },
            FetchStep::Download { url, size } => FetchStepView::Download { url: url@, size },
            FetchStep::Store { artifact_name, sha256, content } => FetchStepView::Store {
                artifact_name: artifact_name@,
                sha256: sha256@,
                content: content@,
            },
            FetchStep::Done { content } => FetchStepView::Done { content: content@ },
            FetchStep::Failed { error } => FetchStepView::Failed { error },
        }
    }
}

/// The plan for an asset under a configuration.
pub open spec fn plan_spec(asset: AssetView, config: FetchConfig) -> FetchPlanView {
    FetchPlanView {
        name: asset.name,
        url: asset.url,
        size: asset.size,
        expected: expected_checksum_spec(asset, config.checksum),
        caching: config.cache == CachePolicy::Enabled,
    }
}

/// Whether a plan uses the cache: caching is on, and a checksum is known to
/// key the entry by.
pub open spec fn uses_cache(plan: FetchPlanView) -> bool {
    plan.caching && plan.expected is Some
}

/// The request to download a plan's asset.
pub open spec fn download_step(plan: FetchPlanView) -> FetchStepView {
    FetchStepView::Download { url: plan.url, size: plan.size }
}

/// The first step of a plan: a look into the cache where the plan uses it,
/// the download otherwise.
pub open spec fn start_spec(plan: FetchPlanView) -> FetchStepView {
    if uses_cache(plan) {
        FetchStepView::LookUp { artifact_name: plan.name, sha256: plan.expected->Some_0 }
    } else {
        download_step(plan)
    }
}

/// The step after a look into the cache: an entry ends the fetch with its
/// content, taken as it is; without one the asset is downloaded.
pub open spec fn after_lookup_spec(plan: FetchPlanView, found: Option<Seq<u8>>) -> FetchStepView {
    match found {
        Some(content) => FetchStepView::Done { content },
        None => download_step(plan),
    }
}

/// The step after a download whose body has the given digest. With no
/// checksum known the body is taken as it is. With one, a body whose digest
/// is not the checksum fails the fetch with `Integrity`; one whose digest is
/// the checksum is stored where the plan uses the cache, and ends the fetch
/// where it does not.
pub open spec fn after_digest_spec(plan: FetchPlanView, body: Seq<u8>, digest: Seq<u8>) -> FetchStepView {
    match plan.expected {
        None => FetchStepView::Done { content: body },
        Some(sha256) => if !digest_matches_spec(digest, sha256) {
            FetchStepView::Failed { error: UpdateError::Integrity }
        } else if plan.caching {
            FetchStepView::Store { artifact_name: plan.name, sha256, content: body }
        } else {
            FetchStepView::Done { content: body }
        },
    }
}

/// The step after a download: that for the body's SHA-256 digest.
pub open spec fn after_download_spec(plan: FetchPlanView, body: Seq<u8>) -> FetchStepView {
    after_digest_spec(plan, body, sha256(body))
}

/// The step after the content has been stored: the fetch ends with it.
pub open spec fn after_store_spec(content: Seq<u8>) -> FetchStepView {
    FetchStepView::Done { content }
}

impl FetchPlan {
    /// Plans the fetch of an asset under a configuration.
    pub fn new(asset: &Asset, config: FetchConfig) -> (plan: FetchPlan)
        ensures
            plan@ == plan_spec(asset@, config),
    {
        FetchPlan {
            name: String::from_str(asset.name.as_str()),
            url: String::from_str(asset.url.as_str()),
            size: asset.size,
            expected: expected_checksum(asset, config.checksum),
            caching: match config.cache {
                CachePolicy::Enabled => true,
                CachePolicy::Disabled => false,
            },
        }
    }

    /// The request to download the asset.
    fn download(&self) -> (step: FetchStep)
        ensures
            step@ == download_step(self@),
    {
        FetchStep::Download { url: String::from_str(self.url.as_str()), size: self.size }
    }

    /// The first step.
    pub fn start(&self) -> (step: FetchStep)
        ensures
            step@ == start_spec(self@),
    {
        match &self.expected {
            Some(sha256) => {
                if self.caching {
                    FetchStep::LookUp {
                        artifact_name: String::from_str(self.name.as_str()),
                        sha256: String::from_str(sha256.as_str()),
                    }
                } else {
                    self.download()
                }
            },
            None => self.download(),
        }
    }

    /// The step after a look into the cache, given the entry's content, or
    /// `None` where there is no entry.
    pub fn after_lookup(&self, found: Option<Vec<u8>>) -> (step: FetchStep)
        ensures
            step@ == after_lookup_spec(
                self@,
                match found {
                    Some(content) => Some(content@),
                    None => None,
                },
            ),
    {
        match found {
            Some(content) => FetchStep::Done { content },
            None => self.download(),
        }
    }

    /// The step after a download, given the body and its digest.
    pub fn after_digest(&self, body: Vec<u8>, digest: &[u8]) -> (step: FetchStep)
        ensures
            step@ == after_digest_spec(self@, body@, digest@),
    {
        match &self.expected {
            None => FetchStep::Done { content: body },
            Some(sha256) => {
                if !digest_matches(digest, sha256.as_str()) {
                    FetchStep::Failed { error: UpdateError::Integrity }
                } else if self.caching {
                    FetchStep::Store {
                        artifact_name: String::from_str(self.name.as_str()),
                        sha256: String::from_str(sha256.as_str()),
                        content: body,
                    }
                } else {
                    FetchStep::Done { content: body }
                }
            },
        }
    }

    /// The step after a download, given the body.
    pub fn after_download(&self, body: Vec<u8>) -> (step: FetchStep)
        ensures
            step@ == after_download_spec(self@, body@),
    {
        let digest = sha256_digest(body.as_slice());
        self.after_digest(body, digest.as_slice())
    }

    /// The step after the content has been stored.
    pub fn after_store(&self, content: Vec<u8>) -> (step: FetchStep)
        ensures
            step@ == after_store_spec(content@),
    {
        FetchStep::Done { content }
    }
}

} // verus!
