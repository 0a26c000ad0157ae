//! A fetch from its first step to its last, in surroundings that do what
//! each step asks, and what holds of every such fetch.

use crate::cache::cache_file_name_spec;
use crate::digest::{checksum_of, sha256};
use crate::error::{NetworkStep, UpdateError};
use crate::fetch::{
    after_download_spec, after_lookup_spec, after_store_spec, start_spec, uses_cache,
    FetchPlanView, FetchStepView,
};
use crate::hex::lemma_to_hex_injective;
use vstd::prelude::*;

verus! {

/// The surroundings of a fetch.
pub struct Surroundings {
    /// The cache: the content of each entry, by the name of its file.
    pub cache: Map<Seq<char>, Seq<u8>>,
    /// The body that a download delivers, or `None` where the network
    /// cannot be reached.
    pub network: Option<Seq<u8>>,
    /// The number of downloads made so far.
    pub downloads: nat,
}

/// The content of the cache entry for an asset name and a checksum, where
/// the entry stands.
pub open spec fn cache_entry(
    cache: Map<Seq<char>, Seq<u8>>,
    artifact_name: Seq<char>,
    sha256: Seq<char>,
) -> Option<Seq<u8>> {
    let file = cache_file_name_spec(artifact_name, sha256);
    if cache.contains_key(file) {
        Some(cache[file])
    } else {
        None
    }
}

/// The entry that a plan looks for, where it uses the cache and the entry
/// stands.
pub open spec fn cached_content(plan: FetchPlanView, cache: Map<Seq<char>, Seq<u8>>) -> Option<
    Seq<u8>,
> {
    if uses_cache(plan) {
        cache_entry(cache, plan.name, plan.expected->Some_0)
    } else {
        None
    }
}

/// One step carried out: the surroundings do what the step asks, and the
/// plan answers with the next step. A step that has ended the fetch stays.
pub open spec fn perform(plan: FetchPlanView, step: FetchStepView, around: Surroundings) -> (
    FetchStepView,
    Surroundings,
) {
    match step {
        FetchStepView::LookUp { artifact_name, sha256 } => (
            after_lookup_spec(plan, cache_entry(around.cache, artifact_name, sha256)),
            around,
        ),
        FetchStepView::Download { url, size } => match around.network {
            Some(body) => (
                after_download_spec(plan, body),
                Surroundings { downloads: around.downloads + 1, ..around },
            ),
            None => (
                FetchStepView::Failed { error: UpdateError::Network(NetworkStep::SendRequest) },
                around,
            ),
        },
        FetchStepView::Store { artifact_name, sha256, content } => (
            after_store_spec(content),
            Surroundings {
                cache: around.cache.insert(cache_file_name_spec(artifact_name, sha256), content),
                ..around
            },
        ),
        FetchStepView::Done { content } => (step, around),
        FetchStepView::Failed { error } => (step, around),
    }
}

/// A whole fetch: the first step and the two that can follow it.
pub open spec fn run(plan: FetchPlanView, around: Surroundings) -> (FetchStepView, Surroundings) {
    let first = perform(plan, start_spec(plan), around);
    let second = perform(plan, first.0, first.1);
    perform(plan, second.0, second.1)
}

/// Every fetch ends: after a look into the cache, a download and a write
/// nothing is left to do.
pub proof fn lemma_run_ends(plan: FetchPlanView, around: Surroundings)
    ensures
        run(plan, around).0 is Done || run(plan, around).0 is Failed,
{
}

/// What a fetch comes to, for every plan and all surroundings: an entry in
/// the cache is its result as it stands, with no download; without one the
/// network's body is the result where no checksum is known or the body has
/// the checksum, and is stored where the plan uses the cache; a body with
/// another checksum fails the fetch with `Integrity`, and an unreachable
/// network with `Network`, the cache left as it was.
pub proof fn lemma_run_outcome(plan: FetchPlanView, around: Surroundings)
    ensures
        match cached_content(plan, around.cache) {
            Some(content) => run(plan, around) == (FetchStepView::Done { content }, around),
            None => match around.network {
                None => run(plan, around) == (
                    FetchStepView::Failed { error: UpdateError::Network(NetworkStep::SendRequest) },
                    around,
                ),
                Some(body) => {
                    let after = Surroundings { downloads: around.downloads + 1, ..around };
                    match plan.expected {
                        None => run(plan, around) == (FetchStepView::Done { content: body }, after),
                        Some(expected) => if checksum_of(body) != expected {
                            run(plan, around) == (
                                FetchStepView::Failed { error: UpdateError::Integrity },
                                after,
                            )
                        } else if plan.caching {
                            run(plan, around) == (
                                FetchStepView::Done { content: body },
                                Surroundings {
                                    cache: around.cache.insert(
                                        cache_file_name_spec(plan.name, expected),
                                        body,
                                    ),
                                    ..after
                                },
                            )
                        } else {
                            run(plan, around) == (FetchStepView::Done { content: body }, after)
                        },
                    }
                },
            },
        },
{
}

/// Content with the declared checksum comes back as it was sent: with no
/// entry in the cache, a fetch whose download delivers a body with the
/// plan's checksum ends with exactly that body.
pub proof fn lemma_matching_content_is_returned(
    plan: FetchPlanView,
    around: Surroundings,
    body: Seq<u8>,
)
    requires
        plan.expected == Some(checksum_of(body)),
        around.network == Some(body),
        cached_content(plan, around.cache) is None,
    ensures
        run(plan, around).0 == (FetchStepView::Done { content: body }),
{
    lemma_run_outcome(plan, around);
}

/// Content with another checksum is refused and leaves no trace: with no
/// entry in the cache, a fetch whose download delivers a body whose checksum
/// is not the plan's ends with `Integrity`, and the cache is as it was.
pub proof fn lemma_other_content_is_refused(
    plan: FetchPlanView,
    around: Surroundings,
    body: Seq<u8>,
)
    requires
        plan.expected is Some,
        plan.expected != Some(checksum_of(body)),
        around.network == Some(body),
        cached_content(plan, around.cache) is None,
    ensures
        run(plan, around).0 == (FetchStepView::Failed { error: UpdateError::Integrity }),
        run(plan, around).1.cache == around.cache,
{
    lemma_run_outcome(plan, around);
}

/// A changed body is refused: where the plan's checksum is that of
/// `genuine`, and `changed` has another SHA-256 digest, a fetch whose
/// download delivers `changed` ends with `Integrity`.
pub proof fn lemma_changed_content_is_refused(
    plan: FetchPlanView,
    around: Surroundings,
    genuine: Seq<u8>,
    changed: Seq<u8>,
)
    requires
        plan.expected == Some(checksum_of(genuine)),
        sha256(changed) != sha256(genuine),
        around.network == Some(changed),
        cached_content(plan, around.cache) is None,
    ensures
        run(plan, around).0 == (FetchStepView::Failed { error: UpdateError::Integrity }),
        run(plan, around).1.cache == around.cache,
{
    if checksum_of(changed) == checksum_of(genuine) {
        lemma_to_hex_injective(sha256(changed), sha256(genuine));
    }
    lemma_other_content_is_refused(plan, around, changed);
}

/// A second fetch needs no network: where a plan uses the cache and a fetch
/// has ended with content, a later fetch of the same plan, in what the first
/// left behind and with the network out of reach, ends with the same
/// content, downloads nothing and changes nothing.
pub proof fn lemma_second_fetch_hits_cache(plan: FetchPlanView, around: Surroundings)
    requires
        uses_cache(plan),
        run(plan, around).0 is Done,
    ensures
        ({
            let first = run(plan, around);
            let offline = Surroundings { network: None, ..first.1 };
            run(plan, offline) == (first.0, offline)
        }),
{
    lemma_run_outcome(plan, around);
    let first = run(plan, around);
    let offline = Surroundings { network: None, ..first.1 };
    lemma_run_outcome(plan, offline);
}

/// Only verified content enters the cache: an entry that a fetch has added
/// is the entry that the plan looks for, and holds the body that the network
/// delivered, whose checksum is the plan's.
pub proof fn lemma_stored_content_is_verified(
    plan: FetchPlanView,
    around: Surroundings,
    file: Seq<char>,
)
    requires
        !around.cache.contains_key(file),
        run(plan, around).1.cache.contains_key(file),
    ensures
        uses_cache(plan),
        file == cache_file_name_spec(plan.name, plan.expected->Some_0),
        around.network == Some(run(plan, around).1.cache[file]),
        checksum_of(run(plan, around).1.cache[file]) == plan.expected->Some_0,
{
    lemma_run_outcome(plan, around);
}

/// The cache only grows: a fetch leaves every entry that stood before it
/// with the content it had.
pub proof fn lemma_run_keeps_entries(plan: FetchPlanView, around: Surroundings, file: Seq<char>)
    requires
        around.cache.contains_key(file),
    ensures
        run(plan, around).1.cache.contains_key(file),
        run(plan, around).1.cache[file] == around.cache[file],
{
    lemma_run_outcome(plan, around);
}

} // verus!
