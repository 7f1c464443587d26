//! Named optional capabilities of the wrapped graphics library, and sets of
//! them in canonical order.

use vstd::prelude::*;

verus! {

/// A named optional capability of the wrapped graphics library. Enabling a
/// capability changes the arguments handed to the build generator and the
/// set of artifacts expected after a successful build.
#[derive(Clone, Copy, Debug, PartialEq, Eq, Hash, Structural)]
pub enum Capability {
    /// The OpenGL GPU backend.
    Gl,
    /// The Vulkan GPU backend.
    Vulkan,
    /// The Metal GPU backend.
    Metal,
    /// The Direct3D GPU backend.
    D3d,
    /// Text shaping and paragraph layout.
    TextShaping,
    /// Vector animation playback.
    VectorAnimation,
}

/// Position of a capability in the canonical order. The order is total:
/// distinct capabilities have distinct ranks.
pub open spec fn cap_rank(c: Capability) -> int {
    match c {
        Capability::Gl => 0,
        Capability::Vulkan => 1,
        Capability::Metal => 2,
        Capability::D3d => 3,
        Capability::TextShaping => 4,
        Capability::VectorAnimation => 5,
    }
}

/// Distinct capabilities have distinct ranks.
pub proof fn lemma_cap_rank_injective(c: Capability, d: Capability)
    ensures
        cap_rank(c) == cap_rank(d) ==> c == d,
{
}

/// The name under which a capability is enabled and reported.
pub open spec fn spec_cap_name(c: Capability) -> Seq<char> {
    match c {
        Capability::Gl => "gl"@,
        Capability::Vulkan => "vulkan"@,
        Capability::Metal => "metal"@,
        Capability::D3d => "d3d"@,
        Capability::TextShaping => "textlayout"@,
        Capability::VectorAnimation => "animation"@,
    }
}

impl Capability {
    /// The name under which this capability is enabled and reported.
    pub fn name(&self) -> (r: &'static str)
        ensures
            r@ == spec_cap_name(*self),
    {
        match self {
            Capability::Gl => "gl",
            Capability::Vulkan => "vulkan",
            Capability::Metal => "metal",
            Capability::D3d => "d3d",
            Capability::TextShaping => "textlayout",
            Capability::VectorAnimation => "animation",
        }
    }

    /// The position of this capability in the canonical order.
    pub fn rank(&self) -> (r: u32)
        ensures
            r == cap_rank(*self),
    {
        match self {
            Capability::Gl => 0,
            Capability::Vulkan => 1,
            Capability::Metal => 2,
            Capability::D3d => 3,
            Capability::TextShaping => 4,
            Capability::VectorAnimation => 5,
        }
    }
}

/// A set of capabilities, kept as a vector that is strictly increasing in
/// canonical rank, so that iteration order is deterministic and every
/// capability appears at most once.
#[derive(Clone, Debug)]
pub struct CapabilitySet {
    /// The enabled capabilities, strictly increasing in canonical rank.
    pub caps: Vec<Capability>,
}

impl CapabilitySet {
    /// The canonical order invariant: strictly increasing ranks.
    pub open spec fn wf(self) -> bool {
        forall|i: int, j: int|
            0 <= i < j < self.caps@.len() ==> cap_rank(self.caps@[i]) < cap_rank(
                self.caps@[j],
            )
    }

    /// Whether the capability is enabled in this set.
    pub open spec fn has(self, c: Capability) -> bool {
        self.caps@.contains(c)
    }

    /// The enabled capabilities, in canonical order.
    pub open spec fn ordered(self) -> Seq<Capability> {
        self.caps@
    }

    /// The empty capability set.
    pub fn new() -> (r: Self)
        ensures
            r.wf(),
            r.ordered() == Seq::<Capability>::empty(),
    {
        CapabilitySet { caps: Vec::new() }
    }

    /// Whether the capability is enabled in this set.
    pub fn contains(&self, c: Capability) -> (r: bool)
        ensures
            r == self.has(c),
    {
        let mut i: usize = 0;
        while i < self.caps.len()
            invariant
                i <= self.caps@.len(),
                forall|k: int| 0 <= k < i ==> self.caps@[k] != c,
            decreases self.caps@.len() - i,
        {
            if self.caps[i] == c {
                return true;
            }
            i += 1;
        }
        false
    }

    /// Enables the capability, keeping the canonical order. Enabling a
    /// capability that is already enabled leaves the set unchanged.
    pub fn enable(&mut self, c: Capability)
        requires
            old(self).wf(),
        ensures
            final(self).wf(),
            forall|d: Capability| final(self).has(d) <==> (old(self).has(d) || d == c),
    {
        let mut i: usize = 0;
        while i < self.caps.len() && self.caps[i].rank() < c.rank()
            invariant
                self == old(self),
                i <= self.caps@.len(),
                forall|k: int| 0 <= k < i ==> cap_rank(self.caps@[k]) < cap_rank(c),
            decreases self.caps@.len() - i,
        {
            i += 1;
        }
        if i < self.caps.len() && self.caps[i] == c {
            return;
        }
        proof {
            assert(forall|k: int|
                i <= k < self.caps@.len() ==> cap_rank(self.caps@[k]) >= cap_rank(c));
            assert(forall|k: int| i <= k < self.caps@.len() ==> self.caps@[k] != c) by {
                assert forall|k: int|
                    i <= k < self.caps@.len() && self.caps@[k] == c implies false by {
                    if k > i {
                        assert(cap_rank(self.caps@[i as int]) < cap_rank(self.caps@[k]));
                    }
                }
            }
        }
        self.caps.insert(i, c);
        proof {
            let s = self.caps@;
            assert forall|d: Capability| final(self).has(d) implies (old(self).has(d) || d
                == c) by {
                let k = choose|k: int| 0 <= k < s.len() && s[k] == d;
                if k < i {
                    assert(old(self).caps@[k] == d);
                } else if k > i {
                    assert(old(self).caps@[k - 1] == d);
                }
            }
            assert forall|d: Capability| (old(self).has(d) || d == c)
                implies final(self).has(d) by {
                if d == c {
                    assert(s[i as int] == d);
                } else {
                    let k = choose|k: int|
                        0 <= k < old(self).caps@.len() && old(self).caps@[k] == d;
                    if k < i {
                        assert(s[k] == d);
                    } else {
                        assert(s[k + 1] == d);
                    }
                }
            }
            assert forall|p: int, q: int| 0 <= p < q < s.len() implies cap_rank(s[p])
                < cap_rank(s[q]) by {
                lemma_cap_rank_injective(s[p], s[q]);
            }
        }
    }

    /// A capability set in canonical order is determined by its members:
    /// two well-formed sets that enable the same capabilities hold them in
    /// the same order. Everything derived from a capability set is therefore
    /// a function of membership alone.
    pub proof fn lemma_canonical_form_unique(a: CapabilitySet, b: CapabilitySet)
        requires
            a.wf(),
            b.wf(),
            forall|c: Capability| a.has(c) <==> b.has(c),
        ensures
            a.ordered() == b.ordered(),
    {
        assert forall|c: Capability| a.caps@.contains(c) <==> b.caps@.contains(c) by {
            assert(a.has(c) <==> b.has(c));
        }
        lemma_sorted_seq_unique(a.caps@, b.caps@);
    }

    /// The enabled capabilities, in canonical order.
    pub fn list(&self) -> (r: &Vec<Capability>)
        ensures
            r@ == self.ordered(),
    {
        &self.caps
    }
}

/// A sequence of capabilities that is strictly increasing in rank.
pub open spec fn spec_rank_sorted(s: Seq<Capability>) -> bool {
    forall|i: int, j: int| 0 <= i < j < s.len() ==> cap_rank(s[i]) < cap_rank(s[j])
}

/// Two rank-sorted sequences with the same members are equal.
proof fn lemma_sorted_seq_unique(s: Seq<Capability>, t: Seq<Capability>)
    requires
        spec_rank_sorted(s),
        spec_rank_sorted(t),
        forall|c: Capability| s.contains(c) <==> t.contains(c),
    ensures
        s == t,
    decreases s.len(),
{
    if s.len() == 0 {
        if t.len() > 0 {
            assert(s.contains(t[0]));
        }
        assert(s =~= t);
    } else {
        assert(t.contains(s[0])) by {
            assert(s.contains(s[0]));
        }
        assert(s.contains(t[0])) by {
            assert(t.contains(t[0]));
        }
        let j = choose|j: int| 0 <= j < t.len() && t[j] == s[0];
        let k = choose|k: int| 0 <= k < s.len() && s[k] == t[0];
        assert(cap_rank(t[0]) <= cap_rank(s[0])) by {
            if j > 0 {
                assert(cap_rank(t[0]) < cap_rank(t[j]));
            }
        }
        assert(cap_rank(s[0]) <= cap_rank(t[0])) by {
            if k > 0 {
                assert(cap_rank(s[0]) < cap_rank(s[k]));
            }
        }
        lemma_cap_rank_injective(s[0], t[0]);
        let s1 = s.subrange(1, s.len() as int);
        let t1 = t.subrange(1, t.len() as int);
        assert forall|c: Capability| s1.contains(c) implies t1.contains(c) by {
            lemma_tail_membership(s, c);
            lemma_tail_membership(t, c);
        }
        assert forall|c: Capability| t1.contains(c) implies s1.contains(c) by {
            lemma_tail_membership(s, c);
            lemma_tail_membership(t, c);
        }
        lemma_sorted_seq_unique(s1, t1);
        assert(s.len() == t.len());
        assert forall|i: int| 0 <= i < s.len() implies s[i] == t[i] by {
            if i > 0 {
                assert(s1[i - 1] == t1[i - 1]);
            }
        }
        assert(s =~= t);
    }
}

/// In a rank-sorted sequence, membership in the tail is membership in the
/// whole at a nonzero position, and the head occurs nowhere else.
proof fn lemma_tail_membership(s: Seq<Capability>, c: Capability)
    requires
        spec_rank_sorted(s),
        s.len() > 0,
    ensures
        s.subrange(1, s.len() as int).contains(c) <==> (s.contains(c) && c != s[0]),
{
    let tail = s.subrange(1, s.len() as int);
    if tail.contains(c) {
        let i = choose|i: int| 0 <= i < tail.len() && tail[i] == c;
        assert(s[i + 1] == c);
        assert(cap_rank(s[0]) < cap_rank(s[i + 1]));
    }
    if s.contains(c) && c != s[0] {
        let i = choose|i: int| 0 <= i < s.len() && s[i] == c;
        assert(tail[i - 1] == c);
    }
}

} // verus!
