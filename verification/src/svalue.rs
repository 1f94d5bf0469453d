use vstd::prelude::*;

verus! {

/// A structured value in the engine's own terms: the JSON-shaped portion
/// of what the driver script can hand back. Anything the engine has no
/// business reading (a fractional number, a function, userdata) arrives as
/// [`SValue::Opaque`], which every decoder treats as an unusable value.
#[derive(Debug)]
pub enum SValue {
    Null,
    Bool(bool),
    Int(i64),
    Text(String),
    List(Vec<SValue>),
    Object(Vec<(String, SValue)>),
    Opaque,
}

/// Looks a key up among an object's entries, first occurrence winning.
pub open spec fn lookup_entries(entries: Seq<(String, SValue)>, key: Seq<char>) -> Option<SValue>
    decreases entries.len(),
{
    if entries.len() == 0 {
        Option::None
    } else if entries[0].0@ == key {
        Option::Some(entries[0].1)
    } else {
        lookup_entries(entries.drop_first(), key)
    }
}

/// The characters of a textual value, when it is one.
pub open spec fn text_of(v: SValue) -> Option<Seq<char>> {
    match v {
        SValue::Text(s) => Option::Some(s@),
        _ => Option::None,
    }
}

/// The string field stored under `key`, when the object has one there.
pub open spec fn lookup_text(entries: Seq<(String, SValue)>, key: Seq<char>) -> Option<Seq<char>> {
    match lookup_entries(entries, key) {
        Option::Some(v) => text_of(v),
        Option::None => Option::None,
    }
}

/// The characters of every item, when all items are textual.
pub open spec fn text_items(items: Seq<SValue>) -> Option<Seq<Seq<char>>> {
    if forall|i: int| 0 <= i < items.len() ==> (#[trigger] items[i]) is Text {
        Option::Some(Seq::new(items.len(), |i: int| items[i]->Text_0@))
    } else {
        Option::None
    }
}

/// Finds the value stored under `key`, first occurrence winning.
pub fn object_get<'a>(entries: &'a Vec<(String, SValue)>, key: &String) -> (r: Option<&'a SValue>)
    ensures
        match r {
            Option::Some(v) => lookup_entries(entries@, key@) == Option::Some(*v),
            Option::None => lookup_entries(entries@, key@) is None,
        },
{
    let mut i: usize = 0;
    proof {
        assert(entries@.skip(0) =~= entries@);
    }
    while i < entries.len()
        invariant
            i <= entries@.len(),
            lookup_entries(entries@, key@) == lookup_entries(
                entries@.skip(i as int),
                key@,
            ),
        decreases entries@.len() - i,
    {
        if entries[i].0 == *key {
            proof {
                let rest = entries@.skip(i as int);
                assert(rest[0] == entries@[i as int]);
            }
            return Some(&entries[i].1);
        }
        proof {
            let rest = entries@.skip(i as int);
            assert(rest[0] == entries@[i as int]);
            assert(rest.drop_first() =~= entries@.skip(i as int + 1));
        }
        i = i + 1;
    }
    proof {
        assert(entries@.skip(i as int).len() == 0);
    }
    None
}

} // verus!
