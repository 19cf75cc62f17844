//! Display-time rendering of a fetched message blob: the blob is split on
//! the literal `"<br/>"` separator, and each fragment becomes one displayed
//! element.  Splitting is total over any string: a blob without the
//! separator, the empty blob included, yields the single fragment that is
//! the blob itself.

use vstd::prelude::*;

verus! {

/// The separator written between messages in a fetched blob.
pub open spec fn delim() -> Seq<char> {
    "<br/>"@
}

/// The fragments of `s` between non-overlapping, leftmost-first
/// occurrences of the separator `d`.
pub open spec fn split_on(s: Seq<char>, d: Seq<char>) -> Seq<Seq<char>>
    decreases s.len(),
{
    if d.len() == 0 || s.len() < d.len() {
        seq![s]
    } else if s.subrange(0, d.len() as int) == d {
        seq![Seq::<char>::empty()] + split_on(s.subrange(d.len() as int, s.len() as int), d)
    } else {
        let rest = split_on(s.subrange(1, s.len() as int), d);
        seq![seq![s[0]] + rest[0]] + rest.subrange(1, rest.len() as int)
    }
}

/// The separator `d` occurs somewhere in `s`.
pub open spec fn contains_sep(s: Seq<char>, d: Seq<char>) -> bool {
    exists|j: int| 0 <= j && j + d.len() <= s.len() && #[trigger] s.subrange(j, j + d.len()) == d
}

/// A string in which the separator never occurs splits into the single
/// fragment that is the string itself.
pub proof fn lemma_split_on_whole(s: Seq<char>, d: Seq<char>)
    requires
        d.len() > 0,
        !contains_sep(s, d),
    ensures
        split_on(s, d) == seq![s],
    decreases s.len(),
{
    if s.len() < d.len() {
    } else if s.subrange(0, d.len() as int) == d {
        let j0: int = 0;
        assert(s.subrange(j0, j0 + d.len()) == d);
        assert(contains_sep(s, d));
    } else {
        let t = s.subrange(1, s.len() as int);
        assert(!contains_sep(t, d)) by {
            if contains_sep(t, d) {
                let j = choose|j: int|
                    0 <= j && j + d.len() <= t.len() && #[trigger] t.subrange(j, j + d.len())
                        == d;
                assert(s.subrange(j + 1, j + 1 + d.len()) =~= t.subrange(j, j + d.len()));
                assert(contains_sep(s, d));
            }
        }
        lemma_split_on_whole(t, d);
        let rest = split_on(t, d);
        assert(rest.subrange(1, rest.len() as int) =~= Seq::<Seq<char>>::empty());
        assert(seq![s[0]] + t =~= s);
        assert(split_on(s, d) =~= seq![s]);
    }
}

/// Split a blob on the literal `"<br/>"` separator, one `String` per
/// displayed fragment.
pub fn split_messages(blob: &str) -> (v: Vec<String>)
    ensures
        v.deep_view() == split_on(blob@, delim()),
        v@.len() >= 1,
    decreases blob@.len(),
{
    proof {
        reveal_strlit("<br/>");
    }
    let n = blob.unicode_len();
    if n >= 5 && blob.get_char(0) == '<' && blob.get_char(1) == 'b' && blob.get_char(2) == 'r'
        && blob.get_char(3) == '/' && blob.get_char(4) == '>' {
        proof {
            assert(blob@.subrange(0, 5) =~= delim());
        }
        let tail = blob.substring_char(5, n);
        let mut v = split_messages(tail);
        v.insert(0, String::new());
        proof {
            assert(v.deep_view() =~= split_on(blob@, delim()));
        }
        v
    } else if n >= 5 {
        proof {
            assert(blob@.subrange(0, 5)[0] == blob@[0]);
            assert(blob@.subrange(0, 5)[1] == blob@[1]);
            assert(blob@.subrange(0, 5)[2] == blob@[2]);
            assert(blob@.subrange(0, 5)[3] == blob@[3]);
            assert(blob@.subrange(0, 5)[4] == blob@[4]);
            assert(blob@.subrange(0, 5) != delim());
        }
        let tail = blob.substring_char(1, n);
        let mut v = split_messages(tail);
        let first = v.remove(0);
        let head = blob.substring_char(0, 1);
        let glued = String::from_str(head).concat(first.as_str());
        proof {
            assert(head@ =~= seq![blob@[0]]);
        }
        v.insert(0, glued);
        proof {
            assert(v.deep_view() =~= split_on(blob@, delim()));
        }
        v
    } else {
        let mut v: Vec<String> = Vec::new();
        v.push(String::from_str(blob));
        proof {
            assert(v.deep_view() =~= split_on(blob@, delim()));
        }
        v
    }
}

} // verus!
