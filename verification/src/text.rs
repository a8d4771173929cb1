//! Small operations on texts.
use vstd::prelude::*;
use vstd::string::*;

verus! {

/// Whether two texts hold the same characters.
pub fn sameText(a: &str, b: &str) -> (same: bool)
    ensures
        same == (a@ == b@),
{
    let left = a.to_owned();
    let right = b.to_owned();
    left == right
}

/// The test that every character but `unwanted` passes.
pub open spec fn is_not(unwanted: char) -> spec_fn(char) -> bool {
    |c: char| c != unwanted
}

/// `text` without every occurrence of `unwanted`.
pub open spec fn without_char(text: Seq<char>, unwanted: char) -> Seq<char> {
    text.filter(is_not(unwanted))
}

/// Removes every occurrence of `unwanted` from `text`.
pub fn withoutChar(text: &str, unwanted: char) -> (kept: String)
    ensures
        kept@ == without_char(text@, unwanted),
{
    let length = text.unicode_len();
    let mut kept = String::new();
    let mut i: usize = 0;
    proof {
        reveal(Seq::filter);
        assert(text@.subrange(0, 0) =~= Seq::<char>::empty());
    }
    while i < length
        invariant
            length == text@.len(),
            i <= length,
            kept@ == without_char(text@.subrange(0, i as int), unwanted),
        decreases length - i,
    {
        let c = text.get_char(i);
        proof {
            let head = text@.subrange(0, i as int);
            assert(text@.subrange(0, i + 1) =~= head.push(c));
            assert(text@.subrange(i as int, i + 1) =~= seq![c]);
            head.lemma_filter_push(c, is_not(unwanted));
        }
        if c != unwanted {
            kept.append(text.substring_char(i, i + 1));
            assert(kept@ =~= without_char(text@.subrange(0, i as int), unwanted).push(c));
        }
        i = i + 1;
    }
    proof {
        assert(text@.subrange(0, length as int) =~= text@);
    }
    kept
}

} // verus!
