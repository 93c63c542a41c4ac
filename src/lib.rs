//! Decision logic of the pairwise repulsion force used by a force-directed
//! graph layout: when a pair of nodes exerts no force at all, and which node
//! of the pair is pinned by its selection.
//!
//! The force law itself (distance, softening, inverse-power decay and mass
//! normalization) is floating-point arithmetic and is evaluated by the
//! caller; the mask here decides which of its results reach each node.

mod mask;

pub use mask::{
    force_mask, lemma_coincident_pair_exerts_no_force, lemma_free_node_receives_law_force,
    lemma_selection_masks_only_its_node, mask_of, ForceMask,
};
