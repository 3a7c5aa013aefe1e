//! The `jellyfin` subcommands and what a mount run adds up to.

use vstd::prelude::*;
use crate::commands::{report, reported, reports};
use crate::text::owned;

verus! {

/// The subcommands of `jellyfin`.
#[derive(Clone, Debug)]
pub enum JellyfinCommands {
    Mount,
}

impl JellyfinCommands {
    /// The name of the subcommand.
    pub fn to_string(&self) -> (r: String)
        ensures
            r@ == "mount"@,
    {
        match self {
            JellyfinCommands::Mount => owned("mount"),
        }
    }
}

/// The result of a `jellyfin` subcommand, from the outcome of running it:
/// a failure is reported as `subcommand <name> failed: <error>`.
pub fn execute_jellyfin_command(command: &JellyfinCommands, outcome: Result<(), String>) -> (r:
    Result<(), String>)
    ensures
        reports(r, reported("subcommand"@, "mount"@, outcome)),
{
    let name = command.to_string();
    report("subcommand", name.as_str(), outcome)
}

/// The links a mount made: the sum over the targets that were organised;
/// a target that failed adds nothing.
pub open spec fn total_links(results: Seq<Result<usize, String>>) -> nat
    decreases results.len(),
{
    if results.len() == 0 {
        0
    } else {
        total_links(results.drop_last()) + match results.last() {
            Ok(n) => n as nat,
            Err(_) => 0nat,
        }
    }
}

/// The number of links a mount made over all its targets.
pub fn mount_links(results: &Vec<Result<usize, String>>) -> (r: usize)
    requires
        total_links(results@) <= usize::MAX,
    ensures
        r == total_links(results@),
{
    let mut links: usize = 0;
    let mut i: usize = 0;
    while i < results.len()
        invariant
            i <= results@.len(),
            links == total_links(results@.take(i as int)),
            total_links(results@) <= usize::MAX,
        decreases results@.len() - i,
    {
        assert(results@.take(i + 1).drop_last() =~= results@.take(i as int));
        proof {
            lemma_total_links_prefix(results@, i as int + 1);
        }
        match &results[i] {
            Ok(n) => {
                links = links + *n;
            },
            Err(_) => {},
        }
        i = i + 1;
    }
    assert(results@.take(i as int) =~= results@);
    links
}

/// The links of a prefix of the targets are no more than those of all.
proof fn lemma_total_links_prefix(results: Seq<Result<usize, String>>, k: int)
    requires
        0 <= k <= results.len(),
    ensures
        total_links(results.take(k)) <= total_links(results),
    decreases results.len() - k,
{
    if k < results.len() {
        lemma_total_links_prefix(results, k + 1);
        assert(results.take(k + 1).drop_last() =~= results.take(k));
    } else {
        assert(results.take(k) =~= results);
    }
}

} // verus!
