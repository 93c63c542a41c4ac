use vstd::prelude::*;

verus! {

/// Which node of an ordered pair (node A, node B) receives the force that the
/// repulsion law computes for it. A node that does not receives the zero vector.
#[derive(Clone, Copy, Debug, PartialEq, Eq, Structural)]
pub struct ForceMask {
    /// Node A receives the law's force.
    pub node1: bool,
    /// Node B receives the law's force.
    pub node2: bool,
}

/// The mask of a pair: a coincident pair has no defined direction and exerts
/// no force; otherwise a selected (pinned) node gets no force, independently
/// of the other node.
pub open spec fn mask_of(coincident: bool, sel1: bool, sel2: bool) -> ForceMask {
    ForceMask { node1: !coincident && !sel1, node2: !coincident && !sel2 }
}

/// Decides the mask of a pair from whether its positions coincide and from
/// the selection of each node.
pub fn force_mask(coincident: bool, sel1: bool, sel2: bool) -> (m: ForceMask)
    ensures
        m == mask_of(coincident, sel1, sel2),
{
    ForceMask { node1: !coincident && !sel1, node2: !coincident && !sel2 }
}

impl ForceMask {
    /// Whether either node receives the law's force, that is, whether the
    /// law has to be evaluated for the pair at all.
    pub open spec fn spec_needs_law(self) -> bool {
        self.node1 || self.node2
    }

    /// The result `(force1x, force1y, force2x, force2y)` of the pair, given
    /// the law's force `f1` for node A and `f2` for node B: each node keeps
    /// its force where the mask lets it through and gets `(zero, zero)` where
    /// it does not.
    pub open spec fn spec_apply<T>(self, zero: T, f1: (T, T), f2: (T, T)) -> (T, T, T, T) {
        let a = if self.node1 { f1 } else { (zero, zero) };
        let b = if self.node2 { f2 } else { (zero, zero) };
        (a.0, a.1, b.0, b.1)
    }

    /// Whether the law has to be evaluated for the pair. Where it returns
    /// `false`, the forces handed to `apply` are never read.
    pub fn needs_law(&self) -> (r: bool)
        ensures
            r == self.spec_needs_law(),
    {
        self.node1 || self.node2
    }

    /// Masks the law's forces `f1` (node A) and `f2` (node B) into the
    /// pair's result, in input order.
    pub fn apply<T: Copy>(&self, zero: T, f1: (T, T), f2: (T, T)) -> (r: (T, T, T, T))
        ensures
            r == self.spec_apply(zero, f1, f2),
            !self.spec_needs_law() ==> r == (zero, zero, zero, zero),
    {
        let a = if self.node1 {
            f1
        } else {
            (zero, zero)
        };
        let b = if self.node2 {
            f2
        } else {
            (zero, zero)
        };
        (a.0, a.1, b.0, b.1)
    }
}

/// A pair of coincident nodes exerts no force: whatever the selection of the
/// nodes and whatever the law would give, both force vectors are zero.
pub proof fn lemma_coincident_pair_exerts_no_force<T>(
    sel1: bool,
    sel2: bool,
    zero: T,
    f1: (T, T),
    f2: (T, T),
)
    ensures
        !mask_of(true, sel1, sel2).spec_needs_law(),
        mask_of(true, sel1, sel2).spec_apply(zero, f1, f2) == (zero, zero, zero, zero),
{
}

/// Selecting a node zeroes that node's force and leaves the other node's
/// force as it was, for node A and for node B alike.
pub proof fn lemma_selection_masks_only_its_node<T>(
    coincident: bool,
    sel1: bool,
    sel2: bool,
    zero: T,
    f1: (T, T),
    f2: (T, T),
)
    ensures
        ({
            let on = mask_of(coincident, true, sel2).spec_apply(zero, f1, f2);
            let off = mask_of(coincident, false, sel2).spec_apply(zero, f1, f2);
            on.0 == zero && on.1 == zero && on.2 == off.2 && on.3 == off.3
        }),
        ({
            let on = mask_of(coincident, sel1, true).spec_apply(zero, f1, f2);
            let off = mask_of(coincident, sel1, false).spec_apply(zero, f1, f2);
            on.2 == zero && on.3 == zero && on.0 == off.0 && on.1 == off.1
        }),
{
}

/// A pair that is not coincident and whose node is not selected hands that
/// node exactly the force the law computes for it.
pub proof fn lemma_free_node_receives_law_force<T>(
    sel1: bool,
    sel2: bool,
    zero: T,
    f1: (T, T),
    f2: (T, T),
)
    ensures
        ({
            let r = mask_of(false, sel1, sel2).spec_apply(zero, f1, f2);
            (!sel1 ==> r.0 == f1.0 && r.1 == f1.1) && (!sel2 ==> r.2 == f2.0 && r.3 == f2.1)
        }),
{
}

} // verus!
