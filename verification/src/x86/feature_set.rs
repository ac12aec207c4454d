//! [`FeatureSet`]: a bitset of [`Feature`] flags, viewed as a `Set<Feature>`.

use vstd::prelude::*;

use super::feature::{
    feature_at, feature_index, lemma_feature_at, lemma_feature_index, Feature, FEATURE_COUNT,
};

verus! {

/// Bitset of [`Feature`] flags: `contains`, `contains_all`, `with`, `union`.
#[derive(Debug, Clone, Copy, PartialEq, Eq, Structural)]
pub struct FeatureSet {
    bits: u64,
}

/// Whether bit `i` of `w` is set.
pub open spec fn bit_set(w: u64, i: u64) -> bool {
    w & (1u64 << i) != 0
}

/// The word-level facts behind the set operations.
pub(crate) proof fn lemma_word_bits(a: u64, b: u64, i: u64, j: u64, k: u64)
    by (bit_vector)
    ensures
        i < 64 ==> (bit_set(a | b, i) == (bit_set(a, i) || bit_set(b, i))),
        i < 64 ==> (bit_set(a & b, i) == (bit_set(a, i) && bit_set(b, i))),
        (i < 64 && j < 64) ==> (bit_set(1u64 << i, j) == (i == j)),
        (a >> 43u64 == 0 && 43u64 <= i < 64) ==> !bit_set(a, i),
        (a >> 43u64 == 0 && b >> 43u64 == 0) ==> (a | b) >> 43u64 == 0,
        (a >> 43u64 == 0 && i < 43) ==> (a | (1u64 << i)) >> 43u64 == 0,
        0u64 >> 43u64 == 0,
        i < 64 ==> !bit_set(0u64, i),
        a >> 0u64 == a,
        a >> 64u64 == 0,
        (i < 64 && k == i + 1 && a >> k == b >> k && bit_set(a, i) == bit_set(b, i)) ==> a >> i
            == b >> i,
{
}

/// Two words agree above bit `k` once they agree on every bit from `k` up.
pub(crate) proof fn lemma_agree_from(x: u64, y: u64, k: u64)
    requires
        k <= 64,
        forall|j: u64| k <= j < 64 ==> bit_set(x, j) == bit_set(y, j),
    ensures
        x >> k == y >> k,
    decreases 64 - k,
{
    if k == 64 {
        lemma_word_bits(x, y, 0, 0, 0);
        lemma_word_bits(y, x, 0, 0, 0);
    } else {
        lemma_agree_from(x, y, (k + 1) as u64);
        assert(bit_set(x, k) == bit_set(y, k));
        lemma_word_bits(x, y, k, 0, (k + 1) as u64);
    }
}

impl FeatureSet {
    /// The set is well formed: only bits that belong to a feature are used.
    pub closed spec fn wf(self) -> bool {
        self.bits >> FEATURE_COUNT == 0
    }

    /// The features held.
    pub closed spec fn features(self) -> Set<Feature> {
        Set::new(|f: Feature| bit_set(self.bits, feature_index(f)))
    }

    /// The empty set.
    pub fn empty() -> (r: Self)
        ensures
            r.wf(),
            r@ == Set::<Feature>::empty(),
    {
        let r = FeatureSet { bits: 0 };
        proof {
            lemma_word_bits(0, 0, 0, 0, 0);
        }
        assert forall|f: Feature| !r@.contains(f) by {
            lemma_feature_index(f);
            lemma_word_bits(0, 0, feature_index(f), 0, 0);
        }
        assert(r@ =~= Set::<Feature>::empty());
        r
    }

    /// `self` with `f` added.
    pub fn with(self, f: Feature) -> (r: Self)
        requires
            self.wf(),
        ensures
            r.wf(),
            r@ == self@.insert(f),
    {
        let b = f.bit();
        let r = FeatureSet { bits: self.bits | b };
        proof {
            lemma_feature_index(f);
            let i = feature_index(f);
            let s = self.bits;
            lemma_word_bits(s, b, i, 0, 0);
            assert forall|g: Feature| r@.contains(g) == self@.insert(f).contains(g) by {
                lemma_feature_index(g);
                let j = feature_index(g);
                lemma_word_bits(s, b, j, 0, 0);
                lemma_word_bits(s, b, i, j, 0);
            }
            assert(r@ =~= self@.insert(f));
        }
        r
    }

    /// Whether `f` is in the set.
    pub fn contains(self, f: Feature) -> (r: bool)
        ensures
            r == self@.contains(f),
    {
        self.bits & f.bit() != 0
    }

    /// The union of two sets.
    pub fn union(self, other: Self) -> (r: Self)
        requires
            self.wf(),
            other.wf(),
        ensures
            r.wf(),
            r@ == self@.union(other@),
    {
        let r = FeatureSet { bits: self.bits | other.bits };
        proof {
            let a = self.bits;
            let b = other.bits;
            lemma_word_bits(a, b, 0, 0, 0);
            assert forall|g: Feature| r@.contains(g) == self@.union(other@).contains(g) by {
                lemma_feature_index(g);
                lemma_word_bits(a, b, feature_index(g), 0, 0);
            }
            assert(r@ =~= self@.union(other@));
        }
        r
    }

    /// Whether every feature of `other` is also in `self`.
    pub fn contains_all(self, other: Self) -> (r: bool)
        requires
            self.wf(),
            other.wf(),
        ensures
            r == other@.subset_of(self@),
    {
        let r = self.bits & other.bits == other.bits;
        proof {
            let a = self.bits;
            let b = other.bits;
            if r {
                assert forall|f: Feature| other@.contains(f) implies self@.contains(f) by {
                    lemma_feature_index(f);
                    lemma_word_bits(a, b, feature_index(f), 0, 0);
                }
            } else {
                if other@.subset_of(self@) {
                    assert forall|j: u64| 0 <= j < 64 implies bit_set(a & b, j) == bit_set(b, j) by {
                        lemma_word_bits(a, b, j, 0, 0);
                        if j < FEATURE_COUNT {
                            lemma_feature_at(j);
                            let f = feature_at(j).unwrap();
                            assert(other@.contains(f) ==> self@.contains(f));
                        } else {
                            lemma_word_bits(b, 0, j, 0, 0);
                        }
                    }
                    lemma_agree_from(a & b, b, 0);
                    lemma_word_bits(a & b, 0, 0, 0, 0);
                    lemma_word_bits(b, 0, 0, 0, 0);
                }
            }
        }
        r
    }
}

impl View for FeatureSet {
    type V = Set<Feature>;

    open spec fn view(&self) -> Set<Feature> {
        self.features()
    }
}

impl Default for FeatureSet {
    fn default() -> (r: Self)
        ensures
            r.wf(),
            r@ == Set::<Feature>::empty(),
    {
        FeatureSet::empty()
    }
}

} // verus!
