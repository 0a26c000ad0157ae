//! Where downloaded content is kept between runs.
//!
//! An entry is keyed by the checksum and the name of the asset it holds, and
//! stands in a file named after both, in one directory below the system's
//! directory for temporary files. An entry is written once, after its
//! content has been verified, and never changed or removed.

use crate::location::{Location, LocationView};
use vstd::prelude::*;
use vstd::string::StringExecFns;

verus! {

/// The name of the cache directory.
pub open spec fn cache_dir_name() -> Seq<char> {
    "originalife_s4_cache"@
}

/// The name of the file that holds the entry for a checksum and an asset
/// name: the checksum, a hyphen, the asset's name.
pub open spec fn cache_file_name_spec(artifact_name: Seq<char>, sha256: Seq<char>) -> Seq<char> {
    sha256 + seq!['-'] + artifact_name
}

/// The cache directory below a directory for temporary files.
pub open spec fn cache_dir_spec(temp_dir: Seq<char>) -> LocationView {
    LocationView { base: temp_dir, segments: seq![cache_dir_name()] }
}

/// The file of a cache entry below a directory for temporary files.
pub open spec fn cached_file_path_spec(
    temp_dir: Seq<char>,
    artifact_name: Seq<char>,
    sha256: Seq<char>,
) -> LocationView {
    LocationView {
        base: temp_dir,
        segments: seq![cache_dir_name(), cache_file_name_spec(artifact_name, sha256)],
    }
}

/// The name of the file that holds the entry for a checksum and an asset
/// name.
pub fn cache_file_name(artifact_name: &str, sha256: &str) -> (name: String)
    ensures
        name@ == cache_file_name_spec(artifact_name@, sha256@),
{
    proof {
        reveal_strlit("-");
        assert("-"@ =~= seq!['-']);
    }
    let mut name = String::from_str(sha256);
    name.append("-");
    name.append(artifact_name);
    name
}

/// The cache directory, given the system's directory for temporary files.
/// The caller creates it before the first entry is written.
pub fn get_cache_dir(temp_dir: &str) -> (dir: Location)
    ensures
        dir@ == cache_dir_spec(temp_dir@),
{
    let dir = Location::at(temp_dir).child("originalife_s4_cache");
    proof {
        assert(dir@.segments =~= seq![cache_dir_name()]);
    }
    dir
}

/// The file of the cache entry for an asset name and a checksum, given the
/// system's directory for temporary files.
pub fn get_cached_file_path(temp_dir: &str, artifact_name: &str, sha256: &str) -> (file: Location)
    ensures
        file@ == cached_file_path_spec(temp_dir@, artifact_name@, sha256@),
{
    let name = cache_file_name(artifact_name, sha256);
    let file = get_cache_dir(temp_dir).child(name.as_str());
    proof {
        assert(file@.segments =~= seq![
            cache_dir_name(),
            cache_file_name_spec(artifact_name@, sha256@),
        ]);
    }
    file
}

/// Entries for different asset names, under checksums of one length, stand
/// in different files; so do entries for one asset under different checksums
/// of one length.
pub proof fn lemma_cache_file_names_distinct(
    name_a: Seq<char>,
    sha_a: Seq<char>,
    name_b: Seq<char>,
    sha_b: Seq<char>,
)
    requires
        sha_a.len() == sha_b.len(),
        cache_file_name_spec(name_a, sha_a) == cache_file_name_spec(name_b, sha_b),
    ensures
        name_a == name_b,
        sha_a == sha_b,
{
    let a = cache_file_name_spec(name_a, sha_a);
    let b = cache_file_name_spec(name_b, sha_b);
    let n = sha_a.len() as int;
    assert(a.len() == n + 1 + name_a.len());
    assert(b.len() == n + 1 + name_b.len());
    assert forall|i: int| 0 <= i < n implies sha_a[i] == sha_b[i] by {
        assert(a[i] == sha_a[i]);
        assert(b[i] == sha_b[i]);
    }
    assert(sha_a =~= sha_b);
    assert forall|i: int| 0 <= i < name_a.len() implies name_a[i] == name_b[i] by {
        assert(a[n + 1 + i] == name_a[i]);
        assert(b[n + 1 + i] == name_b[i]);
    }
    assert(name_a =~= name_b);
}

} // verus!
