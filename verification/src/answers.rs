use vstd::prelude::*;

use crate::question::{Answer, AnswerV};

verus! {

/// The mapping that a sequence of `(id, answer)` pairs stands for, a later
/// pair overriding an earlier one with the same id.
pub open spec fn assoc_map(s: Seq<(String, Answer)>) -> Map<Seq<char>, AnswerV>
    decreases s.len(),
{
    if s.len() == 0 {
        Map::empty()
    } else {
        assoc_map(s.drop_last()).insert(s.last().0@, s.last().1@)
    }
}

/// A key is in the mapping exactly when some pair carries it.
pub proof fn lemma_assoc_map_dom(s: Seq<(String, Answer)>, key: Seq<char>)
    ensures
        assoc_map(s).contains_key(key) <==> exists|i: int|
            0 <= i < s.len() && (#[trigger] s[i]).0@ == key,
    decreases s.len(),
{
    if s.len() > 0 {
        lemma_assoc_map_dom(s.drop_last(), key);
        if s.last().0@ == key {
            assert(s[s.len() - 1].0@ == key);
        } else {
            if assoc_map(s).contains_key(key) {
                let i = choose|i: int| 0 <= i < s.drop_last().len() && (#[trigger] s.drop_last()[i]).0@ == key;
                assert(s[i].0@ == key);
            }
            if exists|i: int| 0 <= i < s.len() && (#[trigger] s[i]).0@ == key {
                let i = choose|i: int| 0 <= i < s.len() && (#[trigger] s[i]).0@ == key;
                assert(s.drop_last()[i].0@ == key);
            }
        }
    }
}

/// The pair whose id's last occurrence it is decides what the mapping
/// holds under that id.
pub proof fn lemma_assoc_map_last_occurrence(s: Seq<(String, Answer)>, i: int, key: Seq<char>)
    requires
        0 <= i < s.len(),
        s[i].0@ == key,
        forall|j: int| i < j < s.len() ==> (#[trigger] s[j]).0@ != key,
    ensures
        assoc_map(s).contains_key(key),
        assoc_map(s)[key] == s[i].1@,
    decreases s.len(),
{
    if i == s.len() - 1 {
        assert(s.last() == s[i]);
    } else {
        assert(s.drop_last()[i] == s[i]);
        assert(forall|j: int|
            i < j < s.drop_last().len() ==> (#[trigger] s.drop_last()[j]).0@ != key);
        lemma_assoc_map_last_occurrence(s.drop_last(), i, key);
        assert(s.last() == s[s.len() - 1]);
    }
}

/// Looks up the answer cached under `id`, the most recently stored one
/// winning.
pub fn cached_lookup<'a>(store: &'a Vec<(String, Answer)>, id: &String) -> (r: Option<&'a Answer>)
    ensures
        match r {
            Option::Some(a) => assoc_map(store@).contains_key(id@) && a@ == assoc_map(store@)[id@],
            Option::None => !assoc_map(store@).contains_key(id@),
        },
{
    let mut i: usize = store.len();
    while i > 0
        invariant
            i <= store@.len(),
            forall|j: int| i <= j < store@.len() ==> (#[trigger] store@[j]).0@ != id@,
        decreases i,
    {
        i = i - 1;
        if store[i].0 == *id {
            proof {
                lemma_assoc_map_last_occurrence(store@, i as int, id@);
            }
            return Option::Some(&store[i].1);
        }
    }
    proof {
        lemma_assoc_map_dom(store@, id@);
    }
    Option::None
}

/// Stores `answer` under `id`, overriding anything cached there before.
pub fn cache_answer(store: &mut Vec<(String, Answer)>, id: String, answer: Answer)
    ensures
        assoc_map(final(store)@) == assoc_map(old(store)@).insert(id@, answer@),
{
    let ghost before = store@;
    store.push((id, answer));
    proof {
        assert(store@.drop_last() =~= before);
    }
}

} // verus!
