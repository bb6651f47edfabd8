//! The identifier resolver: overrides first, then the built-in table, with a
//! memo of the answers already given.

use cached::UnboundCache;
use vstd::prelude::*;

use crate::builtin::{builtin_pairs, builtin_table};
use crate::memo::{memo_answers, memo_get, memo_lookups, memo_new, memo_set, Answers};
use crate::overrides::{lemma_malformed_as_missing, load_overrides, malformed, source_pairs};
use crate::table::{find_name, has_id, is_first_match, lemma_name_of, lemma_name_of_concat, name_of, Entry, Pairs, Text};

verus! {

/// The name that `id` resolves to under `overrides`: that of the first
/// override with this identifier, else that of the first pair of the built-in
/// table with it, else none.
pub open spec fn resolve(overrides: Pairs, id: Text) -> Option<Text> {
    name_of(overrides + builtin_pairs(), id)
}

/// The name under which `id` is filed: the name it resolves to, or `id`
/// itself where it resolves to none.
pub open spec fn display_text(overrides: Pairs, id: Text) -> Text {
    match resolve(overrides, id) {
        Some(name) => name,
        None => id,
    }
}

/// The characters of a string that may be missing.
pub open spec fn text_of(content: Option<&str>) -> Option<Text> {
    match content {
        Some(text) => Some(text@),
        None => None,
    }
}

/// Resolves identifiers to game names. Its tables never change; what it has
/// resolved once it answers from its memo.
pub struct Resolver {
    /// The override table, consulted first.
    overrides: Vec<Entry>,
    /// The built-in table, consulted second.
    builtin: Vec<Entry>,
    /// The answers given so far.
    memo: UnboundCache<String, Option<String>>,
    /// No fewer than the lookups that the memo has counted. The memo counts
    /// in a `u64`; once this bound is at the end of that range the memo is no
    /// longer asked, only told.
    lookups: u64,
}

impl Resolver {
    /// The built-in table is in place, and the memo holds only right answers.
    #[verifier::type_invariant]
    spec fn well_formed(self) -> bool {
        &&& self.builtin.deep_view() == builtin_pairs()
        &&& memo_lookups(self.memo) <= self.lookups
        &&& forall|id: Text| #[trigger]
            memo_answers(self.memo).contains_key(id) ==> memo_answers(self.memo)[id] == resolve(
                self.overrides.deep_view(),
                id,
            )
    }

    /// The overrides, in the order in which they are consulted.
    pub closed spec fn overrides(self) -> Pairs {
        self.overrides.deep_view()
    }

    /// The answers given so far, by identifier.
    pub closed spec fn memo(self) -> Answers {
        memo_answers(self.memo)
    }

    /// A resolver with the overrides of `content`, the text of the override
    /// source, or with none where the source is missing.
    pub fn new(content: Option<&str>) -> (resolver: Resolver)
        ensures
            resolver.overrides() == source_pairs(text_of(content)),
            resolver.memo() == Answers::empty(),
    {
        Resolver::with_overrides(load_overrides(content))
    }

    /// A resolver with the given overrides.
    pub fn with_overrides(overrides: Vec<Entry>) -> (resolver: Resolver)
        ensures
            resolver.overrides() == overrides.deep_view(),
            resolver.memo() == Answers::empty(),
    {
        Resolver { overrides, builtin: builtin_table(), memo: memo_new(), lookups: 0 }
    }
}

/// What one resolution of `id` does: it answers with the name that `id`
/// resolves to, keeps the overrides and notes the answer in the memo.
pub open spec fn resolution(before: Resolver, id: Text, after: Resolver, name: Option<Text>) -> bool {
    &&& name == resolve(before.overrides(), id)
    &&& after.overrides() == before.overrides()
    &&& after.memo() == before.memo().insert(id, name)
}

/// Resolves `id` to the name of its game, if it has one.
pub fn get_game_name(resolver: &mut Resolver, id: &str) -> (name: Option<String>)
    ensures
        resolution(*old(resolver), id@, *final(resolver), name.deep_view()),
{
    proof {
        use_type_invariant(&*resolver);
    }
    let key = id.to_owned();
    let found = if resolver.lookups < u64::MAX {
        resolver.lookups = resolver.lookups + 1;
        memo_get(&mut resolver.memo, &key)
    } else {
        None
    };
    match found {
        Some(answer) => {
            assert(final(resolver).memo() =~= old(resolver).memo().insert(id@, answer.deep_view()));
            answer
        },
        None => {
            let answer = match find_name(&resolver.overrides, &key) {
                Some(name) => Some(name),
                None => find_name(&resolver.builtin, &key),
            };
            proof {
                lemma_name_of_concat(resolver.overrides.deep_view(), builtin_pairs(), id@);
            }
            let noted = match &answer {
                Some(name) => Some(name.clone()),
                None => None,
            };
            memo_set(&mut resolver.memo, key, noted);
            answer
        },
    }
}

/// The name under which `id` is filed: its game's name, or `id` itself where
/// it resolves to none.
pub fn display_name(resolver: &mut Resolver, id: &str) -> (name: String)
    ensures
        name@ == display_text(old(resolver).overrides(), id@),
        resolution(*old(resolver), id@, *final(resolver), resolve(old(resolver).overrides(), id@)),
{
    match get_game_name(resolver, id) {
        Some(name) => name,
        None => id.to_owned(),
    }
}

/// An identifier that the overrides hold resolves to the name of the first
/// override with it, whatever the built-in table says of it.
pub proof fn lemma_override_wins(overrides: Pairs, id: Text)
    requires
        has_id(overrides, id),
    ensures
        resolve(overrides, id) == name_of(overrides, id),
        exists|i: int| is_first_match(overrides, id, i) && resolve(overrides, id) == Some(overrides[i].1),
{
    lemma_name_of_concat(overrides, builtin_pairs(), id);
    lemma_name_of(overrides, id);
}

/// An identifier that only the built-in table holds resolves to the name of
/// the first pair of that table with it.
pub proof fn lemma_builtin_answers(overrides: Pairs, id: Text)
    requires
        !has_id(overrides, id),
        has_id(builtin_pairs(), id),
    ensures
        resolve(overrides, id) == name_of(builtin_pairs(), id),
        exists|i: int|
            is_first_match(builtin_pairs(), id, i) && resolve(overrides, id) == Some(builtin_pairs()[i].1),
{
    lemma_name_of_concat(overrides, builtin_pairs(), id);
    lemma_name_of(overrides, id);
    lemma_name_of(builtin_pairs(), id);
}

/// An identifier that neither table holds resolves to no name, and is filed
/// under itself.
pub proof fn lemma_unknown_id(overrides: Pairs, id: Text)
    requires
        !has_id(overrides, id),
        !has_id(builtin_pairs(), id),
    ensures
        resolve(overrides, id) is None,
        display_text(overrides, id) == id,
{
    lemma_name_of_concat(overrides, builtin_pairs(), id);
    lemma_name_of(overrides, id);
    lemma_name_of(builtin_pairs(), id);
}

/// With a malformed override source every identifier resolves as it does
/// with no source at all: by the built-in table alone.
pub proof fn lemma_malformed_resolves_as_missing(text: Text, id: Text)
    requires
        malformed(text),
    ensures
        resolve(source_pairs(Some(text)), id) == resolve(source_pairs(None), id),
        resolve(source_pairs(Some(text)), id) == name_of(builtin_pairs(), id),
{
    lemma_malformed_as_missing(text);
    assert(Pairs::empty() + builtin_pairs() == builtin_pairs());
}

/// Resolutions by resolvers with the same overrides give one identifier the
/// same answer, whatever their memos hold.
pub proof fn lemma_resolution_is_stable(
    one: Resolver,
    one_after: Resolver,
    other: Resolver,
    other_after: Resolver,
    id: Text,
    first: Option<Text>,
    second: Option<Text>,
)
    requires
        resolution(one, id, one_after, first),
        resolution(other, id, other_after, second),
        other.overrides() == one.overrides(),
    ensures
        second == first,
        one_after.overrides() == other_after.overrides(),
{
}

/// Resolving an identifier a second time gives the answer of the first time,
/// which the memo holds by then, and leaves the resolver as the first
/// resolution left it.
pub proof fn lemma_resolution_repeats(
    before: Resolver,
    between: Resolver,
    after: Resolver,
    id: Text,
    first: Option<Text>,
    second: Option<Text>,
)
    requires
        resolution(before, id, between, first),
        resolution(between, id, after, second),
    ensures
        second == first,
        between.memo().contains_key(id) && between.memo()[id] == first,
        after.overrides() == between.overrides(),
        after.memo() == between.memo(),
{
    assert(after.memo() =~= between.memo());
}

} // verus!
