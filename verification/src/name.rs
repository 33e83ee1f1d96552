//! The extension of a file name.

use vstd::prelude::*;
use vstd::std_specs::iter::IteratorSpec;

verus! {

/// The separator between a file name's stem and its extension.
pub const DOT: char = '.';

/// The characters of `name` after its last dot; nothing where `name` holds
/// no dot. Case is kept as it is.
pub open spec fn spec_extension(name: Seq<char>) -> Seq<char> {
    match name.index_of_last(DOT) {
        Some(dot) => name.subrange(dot + 1, name.len() as int),
        None => Seq::empty(),
    }
}

/// `dot` is the place of the last dot within the first `upto` characters of
/// `name`, or -1 where none of them is a dot.
pub open spec fn is_last_dot(name: Seq<char>, upto: int, dot: int) -> bool {
    &&& -1 <= dot < upto <= name.len()
    &&& dot >= 0 ==> name[dot] == DOT
    &&& forall|j: int| dot < j < upto ==> name[j] != DOT
}

/// The last dot of a name is where `index_of_last` finds it.
pub proof fn lemma_last_dot_found(name: Seq<char>, dot: int)
    requires
        is_last_dot(name, name.len() as int, dot),
    ensures
        dot >= 0 ==> name.index_of_last(DOT) == Some(dot),
        dot < 0 ==> name.index_of_last(DOT) is None,
{
    name.index_of_last_ensures(DOT);
    match name.index_of_last(DOT) {
        Some(found) => {
            if found < dot {
                assert(name[dot] != DOT);
            } else if dot < found {
                assert(name[found] != DOT);
            }
        },
        None => {
            if dot >= 0 {
                assert(name.contains(name[dot]));
            }
        },
    }
}

/// The extension of the file name `name`.
pub fn extension_of(name: &str) -> (ext: String)
    ensures
        ext@ == spec_extension(name@),
        !name@.contains(DOT) ==> ext@.len() == 0,
        !ext@.contains(DOT),
{
    let mut chars = name.chars();
    let mut ext = String::new();
    let mut dotted = false;
    let ghost mut seen: int = 0;
    let ghost mut dot: int = -1;
    loop
        invariant
            0 <= seen <= name@.len(),
            chars.remaining() == name@.subrange(seen, name@.len() as int),
            is_last_dot(name@, seen, dot),
            ext@ == name@.subrange(dot + 1, seen),
            dotted <==> dot >= 0,
        decreases name@.len() - seen,
    {
        match chars.next() {
            None => {
                proof {
                    assert(name@.subrange(seen, name@.len() as int).len() == 0);
                    assert(seen == name@.len());
                    lemma_last_dot_found(name@, dot);
                    name@.index_of_last_ensures(DOT);
                    assert forall|j: int| 0 <= j < ext@.len() implies ext@[j] != DOT by {
                        assert(ext@[j] == name@[dot + 1 + j]);
                    }
                }
                if dotted {
                    return ext;
                }
                return String::new();
            },
            Some(ch) => {
                assert(ch == name@[seen]);
                if ch == DOT {
                    ext = String::new();
                    dotted = true;
                    proof {
                        dot = seen;
                    }
                } else {
                    ext.push(ch);
                }
                proof {
                    seen = seen + 1;
                    assert(chars.remaining() == name@.subrange(seen, name@.len() as int));
                    assert(ext@ == name@.subrange(dot + 1, seen));
                }
            },
        }
    }
}

/// A name without a dot has the empty extension.
pub proof fn law_no_dot_no_extension(name: Seq<char>)
    requires
        !name.contains(DOT),
    ensures
        spec_extension(name) == Seq::<char>::empty(),
{
    name.index_of_last_ensures(DOT);
}

/// The extension is the last segment only: a name made of any stem, a dot
/// and a segment without dots has that segment as its extension, however
/// many dots the stem holds.
pub proof fn law_extension_is_last_segment(stem: Seq<char>, segment: Seq<char>)
    requires
        !segment.contains(DOT),
    ensures
        spec_extension(stem.push(DOT) + segment) == segment,
{
    let name = stem.push(DOT) + segment;
    let dot = stem.len() as int;
    assert(name[dot] == DOT);
    assert forall|j: int| dot < j < name.len() implies name[j] != DOT by {
        assert(name[j] == segment[j - dot - 1]);
        assert(segment.contains(segment[j - dot - 1]));
    }
    lemma_last_dot_found(name, dot);
    assert(name.subrange(dot + 1, name.len() as int) =~= segment);
}

} // verus!
