//! The data types a node is built on.
use vstd::prelude::*;

verus! {

/// Names the block, header, body, transaction and receipt types of a node,
/// so that code can be written once for every chain.
pub trait NodePrimitives: Send + Sync + Unpin + Clone + Default + core::fmt::Debug + PartialEq + Eq + 'static {
    /// Block type.
    type Block;
    /// Block header type.
    type BlockHeader;
    /// Block body type.
    type BlockBody;
    /// Signed transaction type.
    type SignedTx;
    /// Transaction receipt type.
    type Receipt;
}

/// The block header type of a node.
pub type HeaderTy<N> = <N as NodePrimitives>::BlockHeader;

/// The block body type of a node.
pub type BodyTy<N> = <N as NodePrimitives>::BlockBody;

/// The block type of a node.
pub type BlockTy<N> = <N as NodePrimitives>::Block;

/// The receipt type of a node.
pub type ReceiptTy<N> = <N as NodePrimitives>::Receipt;

/// The signed transaction type of a node.
pub type TxTy<N> = <N as NodePrimitives>::SignedTx;

} // verus!
