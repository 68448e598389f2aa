use vstd::prelude::*;

pub mod error_count;
pub mod chunk;
pub mod enumerate;
pub mod errors;
pub mod offload;
pub mod progress;
pub mod shard_name;
pub mod shard_writer;

verus! {

// A sharding and concurrency layer over a tar+zstd codec pair: a directory
// tree is split across independently compressed, independently restorable
// archive shards, one per traversal worker, and restored by a pool of
// workers that each decode one shard through an offloaded, buffer-pooled
// reader.
//
// This crate holds the verified core: shard naming and enumeration, the
// per-shard writer lifecycle, the pooled-chunk offload protocol, progress
// accounting and error aggregation. The thin unverified rim around it does
// the actual file, thread and codec work and feeds every outcome into
// these functions as plain values.

/// Resolve the compression input: a directory is both the traversal root
/// and the path prefix that archive entry names are made relative to; a
/// file keeps its parent directory as the prefix, falling back to the
/// current directory for a bare file name.
pub fn resolve_input(in_path: String, is_dir: bool, parent: Option<String>) -> (r: (String, String))
    ensures
        is_dir ==> r.0@ == in_path@ && r.1@ == in_path@,
        (!is_dir && parent is Some) ==> r.0@ == parent.unwrap()@ && r.1@ == in_path@,
        (!is_dir && parent is None) ==> r.0@ == "./"@ && r.1@ == "./"@ + in_path@,
{
    if is_dir {
        let root = in_path.clone();
        (in_path, root)
    } else {
        match parent {
            Some(p) => (p, in_path),
            None => {
                let prefix = String::from_str("./");
                let joined = String::from_str("./").concat(in_path.as_str());
                (prefix, joined)
            },
        }
    }
}

/// Combine per-archive task results once every parallel decompression task
/// has finished: the operation succeeds if and only if every task did.
/// Waiting for all tasks preserves the partial output of the ones that
/// succeeded while still reporting the combined failure.
pub fn combine_task_results(results: &Vec<bool>) -> (ok: bool)
    ensures
        ok <==> (forall|k: int| 0 <= k < results@.len() ==> results@[k]),
{
    let mut i: usize = 0;
    while i < results.len()
        invariant
            i <= results@.len(),
            forall|k: int| 0 <= k < i ==> results@[k],
        decreases results@.len() - i,
    {
        if !results[i] {
            return false;
        }
        i = i + 1;
    }
    true
}

} // verus!
