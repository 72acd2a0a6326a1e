//! How plans are shown: the text of scalar expressions and operators, and
//! the tree of labelled nodes that an expression tree is explained as.

pub mod copy;
pub mod label;
pub mod lines;
pub mod scalar;
pub mod tree;

pub use self::label::{
    format_aggregate, format_exchange, format_hash_join, format_logical_join, FormatContext,
};
pub use self::scalar::format_scalar;
pub use self::tree::{logical_join_to_format_tree, FormatTreeNode};
