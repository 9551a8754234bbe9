use vstd::prelude::*;
use crate::ids::{Identifier, bytes_of, no_duplicates};

verus! {

/// Why an identifier could not join a bounded registry.
#[derive(Clone, Copy, PartialEq, Eq, Structural, Debug)]
pub enum InsertError {
    /// The identifier is already present.
    Duplicate,
    /// The registry holds as many identifiers as it may.
    Full,
}

/// A registry's contents are valid: duplicate-free and within capacity.
pub open spec fn bounded_unique(s: Seq<Seq<u8>>, max: u32) -> bool {
    no_duplicates(s) && s.len() <= max
}

/// What inserting `x` into a registry holding `s`, of capacity `max`, yields:
/// the new contents, or why it was refused.
pub open spec fn inserted(s: Seq<Seq<u8>>, x: Seq<u8>, max: u32) -> Result<Seq<Seq<u8>>, InsertError> {
    if s.contains(x) {
        Err(InsertError::Duplicate)
    } else if s.len() >= max {
        Err(InsertError::Full)
    } else {
        Ok(s.push(x))
    }
}

/// The first position of `v` that holds `x`'s bytes.
pub fn position<T: Identifier>(v: &Vec<T>, x: &T) -> (r: Option<usize>)
    ensures
        r is None <==> !bytes_of(v@).contains(x.bytes()),
        r is Some ==> r->Some_0 < v@.len() && v@[r->Some_0 as int].bytes() == x.bytes(),
        r is Some ==> forall|k: int| 0 <= k < r->Some_0 ==> v@[k].bytes() != x.bytes(),
{
    let mut i: usize = 0;
    while i < v.len()
        invariant
            0 <= i <= v@.len(),
            forall|k: int| 0 <= k < i ==> v@[k].bytes() != x.bytes(),
        decreases v@.len() - i,
    {
        if v[i].same(x) {
            assert(bytes_of(v@)[i as int] == x.bytes());
            return Some(i);
        }
        i = i + 1;
    }
    assert forall|k: int| 0 <= k < bytes_of(v@).len() implies bytes_of(v@)[k] != x.bytes() by {}
    None
}

/// Appends `x` unless its bytes are already present or the registry is full.
pub fn try_insert<T: Identifier>(v: &mut Vec<T>, x: T, max: u32) -> (r: Result<(), InsertError>)
    ensures
        r is Ok <==> inserted(bytes_of(old(v)@), x.bytes(), max) is Ok,
        r is Ok ==> bytes_of(final(v)@) == inserted(bytes_of(old(v)@), x.bytes(), max)->Ok_0,
        r is Err ==> r->Err_0 == inserted(bytes_of(old(v)@), x.bytes(), max)->Err_0,
        r is Err ==> final(v)@ == old(v)@,
        bounded_unique(bytes_of(old(v)@), max) ==> bounded_unique(bytes_of(final(v)@), max),
{
    if position(v, &x).is_some() {
        return Err(InsertError::Duplicate);
    }
    if v.len() >= max as usize {
        return Err(InsertError::Full);
    }
    let ghost xb = x.bytes();
    v.push(x);
    assert(bytes_of(v@) =~= bytes_of(old(v)@).push(xb));
    Ok(())
}

/// Removes the first entry holding `x`'s bytes, keeping the order of the rest.
/// Gives back `false`, changing nothing, where there is none.
pub fn remove_entry<T: Identifier>(v: &mut Vec<T>, x: &T) -> (r: bool)
    ensures
        r == bytes_of(old(v)@).contains(x.bytes()),
        !r ==> final(v)@ == old(v)@,
        r ==> bytes_of(final(v)@) == bytes_of(old(v)@).remove(
            bytes_of(old(v)@).index_of_first(x.bytes())->Some_0,
        ),
        no_duplicates(bytes_of(old(v)@)) ==> !bytes_of(final(v)@).contains(x.bytes()),
        forall|max: u32| bounded_unique(bytes_of(old(v)@), max) ==> bounded_unique(bytes_of(final(v)@), max),
{
    match position(v, x) {
        None => false,
        Some(p) => {
            let ghost s = bytes_of(v@);
            proof {
                let f = s.index_of_first(x.bytes());
                s.index_of_first_ensures(x.bytes());
                assert(s[p as int] == x.bytes());
                assert(f->Some_0 == p);
            }
            v.remove(p);
            assert(bytes_of(v@) =~= s.remove(p as int));
            proof {
                if no_duplicates(s) {
                    assert forall|k: int| 0 <= k < bytes_of(v@).len() implies bytes_of(v@)[k] != x.bytes() by {
                        if k < p { } else { assert(s[k + 1] != s[p as int]); }
                    }
                }
            }
            true
        }
    }
}

} // verus!
