//! The memo of resolved identifiers, kept in an unbounded cache.

use cached::{Cached, UnboundCache};
use vstd::prelude::*;

use crate::table::Text;

verus! {

/// `cached::UnboundCache`, a cache without a size limit or an eviction policy,
/// with the hasher of std's `HashMap`. Verus sees nothing inside it.
#[verifier::external_type_specification]
#[verifier::external_body]
#[verifier::reject_recursive_types(K)]
#[verifier::reject_recursive_types(V)]
#[verifier::reject_recursive_types(S)]
pub struct ExUnboundCache<K, V, S>(UnboundCache<K, V, S>);

/// The answers that a memo holds, by identifier.
pub type Answers = Map<Text, Option<Text>>;

/// The keys that `memo` stores, each with its value.
pub uninterp spec fn memo_answers(memo: UnboundCache<String, Option<String>>) -> Answers;

/// The lookups that `memo` has counted, hits and misses together.
pub uninterp spec fn memo_lookups(memo: UnboundCache<String, Option<String>>) -> nat;

/// `UnboundCache::new`: the cache it builds stores nothing and has counted
/// no lookup.
#[verifier::external_body]
pub(crate) fn memo_new() -> (memo: UnboundCache<String, Option<String>>)
    ensures
        memo_answers(memo) == Answers::empty(),
        memo_lookups(memo) == 0,
{
    UnboundCache::new()
}

/// `Cached::cache_get` on an `UnboundCache`: it hands out the value stored
/// under `id`, or `None` where nothing is stored under it, and stores nothing
/// itself. It adds one to its count of hits or to its count of misses, each a
/// `u64`: the call is for a cache that has counted fewer lookups than a `u64`
/// can hold, and on such a cache it does not unwind. The value is cloned.
#[verifier::external_body]
pub(crate) fn memo_get(memo: &mut UnboundCache<String, Option<String>>, id: &String) -> (found:
    Option<Option<String>>)
    requires
        memo_lookups(*old(memo)) < u64::MAX,
    ensures
        memo_answers(*final(memo)) == memo_answers(*old(memo)),
        memo_lookups(*final(memo)) == memo_lookups(*old(memo)) + 1,
        match found {
            Some(answer) => memo_answers(*old(memo)).contains_key(id@) && memo_answers(*old(memo))[id@]
                == answer.deep_view(),
            None => !memo_answers(*old(memo)).contains_key(id@),
        },
    no_unwind
{
    memo.cache_get(id).cloned()
}

/// `Cached::cache_set` on an `UnboundCache`: it stores `answer` under `id`,
/// in place of what was stored under it, leaves every other key as it was and
/// hands out the value that it replaced, if any. It counts nothing and does
/// not unwind.
#[verifier::external_body]
pub(crate) fn memo_set(
    memo: &mut UnboundCache<String, Option<String>>,
    id: String,
    answer: Option<String>,
) -> (replaced: Option<Option<String>>)
    ensures
        memo_answers(*final(memo)) == memo_answers(*old(memo)).insert(id@, answer.deep_view()),
        memo_lookups(*final(memo)) == memo_lookups(*old(memo)),
        match replaced {
            Some(previous) => memo_answers(*old(memo)).contains_key(id@) && memo_answers(
                *old(memo),
            )[id@] == previous.deep_view(),
            None => !memo_answers(*old(memo)).contains_key(id@),
        },
    no_unwind
{
    memo.cache_set(id, answer)
}

} // verus!
