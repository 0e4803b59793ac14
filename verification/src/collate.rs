//! Locale-aware name collation for project-tree entries.
//!
//! Sibling entries are ordered by their display names through a collator: a
//! string comparator that yields a total, consistent order. The collator is an
//! injected dependency (rather than an implicit process-wide global) so that
//! the node model stays testable in isolation. The trait spells out the order
//! laws that the node ordering relies on; `CodepointCollator` is a concrete
//! collator that orders names by Unicode scalar value.

use vstd::prelude::*;
use core::cmp::Ordering;

verus! {

/// Comparison of two character sequences by Unicode scalar value,
/// lexicographically: the first position where the sequences differ decides,
/// and a proper prefix sorts before its extensions.
pub open spec fn lex_cmp(a: Seq<char>, b: Seq<char>) -> Ordering
    decreases a.len(),
{
    if a.len() == 0 && b.len() == 0 {
        Ordering::Equal
    } else if a.len() == 0 {
        Ordering::Less
    } else if b.len() == 0 {
        Ordering::Greater
    } else if (a[0] as u32) < (b[0] as u32) {
        Ordering::Less
    } else if (a[0] as u32) > (b[0] as u32) {
        Ordering::Greater
    } else {
        lex_cmp(a.skip(1), b.skip(1))
    }
}

/// A collator compares two display names and yields a total, consistent
/// order. `spec_compare` is the mathematical order; `compare` computes it.
/// The proof obligations are the laws every collator must satisfy: equal
/// names compare equal, the order is consistent under swapping the
/// arguments, and strict ordering is transitive.
pub trait Collator: Sized {
    spec fn spec_compare(&self, a: Seq<char>, b: Seq<char>) -> Ordering;

    /// Equal names always compare equal.
    proof fn reflexivity(&self, a: Seq<char>)
        ensures
            self.spec_compare(a, a) == Ordering::Equal,
    ;

    /// Swapping the arguments flips the verdict.
    proof fn antisymmetry(&self, a: Seq<char>, b: Seq<char>)
        ensures
            (self.spec_compare(a, b) == Ordering::Less) <==> (self.spec_compare(b, a)
                == Ordering::Greater),
            (self.spec_compare(a, b) == Ordering::Equal) <==> (self.spec_compare(b, a)
                == Ordering::Equal),
    ;

    /// Strict ordering is transitive.
    proof fn transitivity(&self, a: Seq<char>, b: Seq<char>, c: Seq<char>)
        requires
            self.spec_compare(a, b) == Ordering::Less,
            self.spec_compare(b, c) == Ordering::Less,
        ensures
            self.spec_compare(a, c) == Ordering::Less,
    ;

    fn compare(&self, a: &str, b: &str) -> (r: Ordering)
        ensures
            r == self.spec_compare(a@, b@),
    ;
}

/// Equal sequences compare equal under `lex_cmp`.
pub proof fn lex_cmp_reflexive(a: Seq<char>)
    ensures
        lex_cmp(a, a) == Ordering::Equal,
    decreases a.len(),
{
    if a.len() > 0 {
        lex_cmp_reflexive(a.skip(1));
    }
}

/// Swapping the arguments of `lex_cmp` flips the verdict.
pub proof fn lex_cmp_antisymmetric(a: Seq<char>, b: Seq<char>)
    ensures
        (lex_cmp(a, b) == Ordering::Less) <==> (lex_cmp(b, a) == Ordering::Greater),
        (lex_cmp(a, b) == Ordering::Equal) <==> (lex_cmp(b, a) == Ordering::Equal),
    decreases a.len(),
{
    if a.len() > 0 && b.len() > 0 && (a[0] as u32) == (b[0] as u32) {
        lex_cmp_antisymmetric(a.skip(1), b.skip(1));
    }
}

/// Strict `lex_cmp` ordering is transitive.
pub proof fn lex_cmp_transitive(a: Seq<char>, b: Seq<char>, c: Seq<char>)
    requires
        lex_cmp(a, b) == Ordering::Less,
        lex_cmp(b, c) == Ordering::Less,
    ensures
        lex_cmp(a, c) == Ordering::Less,
    decreases a.len(),
{
    if a.len() > 0 && b.len() > 0 && c.len() > 0 && (a[0] as u32) == (b[0] as u32) && (b[0] as u32)
        == (c[0] as u32) {
        lex_cmp_transitive(a.skip(1), b.skip(1), c.skip(1));
    }
}

/// A collator that orders names by raw Unicode scalar value. It stands in for
/// a locale-configured collator where no locale data is wanted, and serves as
/// the mock collator for testing the node ordering in isolation.
pub struct CodepointCollator;

impl Collator for CodepointCollator {
    open spec fn spec_compare(&self, a: Seq<char>, b: Seq<char>) -> Ordering {
        lex_cmp(a, b)
    }

    proof fn reflexivity(&self, a: Seq<char>) {
        lex_cmp_reflexive(a);
    }

    proof fn antisymmetry(&self, a: Seq<char>, b: Seq<char>) {
        lex_cmp_antisymmetric(a, b);
    }

    proof fn transitivity(&self, a: Seq<char>, b: Seq<char>, c: Seq<char>) {
        lex_cmp_transitive(a, b, c);
    }

    fn compare(&self, a: &str, b: &str) -> (r: Ordering) {
        let a_len = a.unicode_len();
        let b_len = b.unicode_len();
        let mut i: usize = 0;
        proof {
            assert(a@.skip(0) =~= a@);
            assert(b@.skip(0) =~= b@);
        }
        while i < a_len && i < b_len
            invariant
                i <= a_len,
                i <= b_len,
                a_len == a@.len(),
                b_len == b@.len(),
                lex_cmp(a@, b@) == lex_cmp(a@.skip(i as int), b@.skip(i as int)),
            decreases a_len - i,
        {
            let ca = a.get_char(i);
            let cb = b.get_char(i);
            proof {
                assert(a@.skip(i as int)[0] == a@[i as int]);
                assert(b@.skip(i as int)[0] == b@[i as int]);
                assert(a@.skip(i as int).skip(1) =~= a@.skip(i as int + 1));
                assert(b@.skip(i as int).skip(1) =~= b@.skip(i as int + 1));
            }
            if (ca as u32) < (cb as u32) {
                return Ordering::Less;
            }
            if (ca as u32) > (cb as u32) {
                return Ordering::Greater;
            }
            i = i + 1;
        }
        if i < b_len {
            Ordering::Less
        } else if i < a_len {
            Ordering::Greater
        } else {
            Ordering::Equal
        }
    }
}

} // verus!
