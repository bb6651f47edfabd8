//! Identifier tables: ordered lists of identifier/name pairs and first-match lookup.

use vstd::prelude::*;

verus! {

/// The characters of a string.
pub type Text = Seq<char>;

/// The mathematical form of a table: its pairs of identifier and name, in order.
pub type Pairs = Seq<(Text, Text)>;

/// One line of a table: an identifier and the game name it stands for.
#[derive(Debug, Clone, PartialEq, Eq)]
pub struct Entry {
    pub id: String,
    pub name: String,
}

impl DeepView for Entry {
    type V = (Text, Text);

    open spec fn deep_view(&self) -> (Text, Text) {
        (self.id@, self.name@)
    }
}

/// `i` is the position of the first pair of `pairs` whose identifier is `id`.
pub open spec fn is_first_match(pairs: Pairs, id: Text, i: int) -> bool {
    &&& 0 <= i < pairs.len()
    &&& pairs[i].0 == id
    &&& forall|j: int| 0 <= j < i ==> (#[trigger] pairs[j]).0 != id
}

/// Some pair of `pairs` has the identifier `id`.
pub open spec fn has_id(pairs: Pairs, id: Text) -> bool {
    exists|i: int| 0 <= i < pairs.len() && (#[trigger] pairs[i]).0 == id
}

/// The name that `pairs` gives to `id`: that of the first pair with this identifier.
pub open spec fn name_of(pairs: Pairs, id: Text) -> Option<Text>
    decreases pairs.len(),
{
    if pairs.len() == 0 {
        None
    } else if pairs[0].0 == id {
        Some(pairs[0].1)
    } else {
        name_of(pairs.drop_first(), id)
    }
}

/// `name_of` gives the name of the first pair with the identifier, and none
/// exactly where no pair has it.
pub proof fn lemma_name_of(pairs: Pairs, id: Text)
    ensures
        match name_of(pairs, id) {
            Some(name) => exists|i: int| is_first_match(pairs, id, i) && name == pairs[i].1,
            None => !has_id(pairs, id),
        },
    decreases pairs.len(),
{
    if pairs.len() == 0 {
    } else if pairs[0].0 == id {
        assert(is_first_match(pairs, id, 0));
    } else {
        let rest = pairs.drop_first();
        lemma_name_of(rest, id);
        match name_of(rest, id) {
            Some(name) => {
                let i = choose|i: int| is_first_match(rest, id, i) && name == rest[i].1;
                assert forall|j: int| 0 <= j < i + 1 implies (#[trigger] pairs[j]).0 != id by {
                    if j > 0 {
                        assert(pairs[j] == rest[j - 1]);
                    }
                }
                assert(pairs[i + 1] == rest[i]);
                assert(is_first_match(pairs, id, i + 1));
            },
            None => {
                assert forall|i: int| 0 <= i < pairs.len() implies (#[trigger] pairs[i]).0 != id by {
                    if i > 0 {
                        assert(pairs[i] == rest[i - 1]);
                    }
                }
            },
        }
    }
}

/// Looking an identifier up in two tables, one after the other, is looking it
/// up in the first and, only where that holds no such pair, in the second.
pub proof fn lemma_name_of_concat(first: Pairs, second: Pairs, id: Text)
    ensures
        name_of(first + second, id) == match name_of(first, id) {
            Some(name) => Some(name),
            None => name_of(second, id),
        },
    decreases first.len(),
{
    if first.len() == 0 {
        assert(first + second == second);
    } else {
        assert((first + second).drop_first() == first.drop_first() + second);
        lemma_name_of_concat(first.drop_first(), second, id);
    }
}

/// Looks `id` up in `entries`, first match first.
pub fn find_name(entries: &Vec<Entry>, id: &String) -> (name: Option<String>)
    ensures
        name.deep_view() == name_of(entries.deep_view(), id@),
{
    let mut i: usize = 0;
    assert(entries.deep_view().skip(0) == entries.deep_view());
    while i < entries.len()
        invariant
            i <= entries.len(),
            name_of(entries.deep_view(), id@) == name_of(entries.deep_view().skip(i as int), id@),
        decreases entries.len() - i,
    {
        let ghost rest = entries.deep_view().skip(i as int);
        assert(rest[0] == entries[i as int].deep_view());
        assert(rest.drop_first() == entries.deep_view().skip(i + 1));
        if entries[i].id == *id {
            return Some(entries[i].name.clone());
        }
        i += 1;
    }
    None
}

} // verus!
