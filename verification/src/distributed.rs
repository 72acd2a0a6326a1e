//! Making a distributed plan deliver its rows to one place.

use vstd::prelude::*;

use crate::plans::{Exchange, RelOperator, SExpr, Scalar};

verus! {

/// How the rows of a plan are spread over the nodes of a cluster.
#[derive(Debug)]
pub enum Distribution {
    Any,
    Random,
    Serial,
    Broadcast,
    Hash(Vec<Scalar>),
}

/// A distribution that a consumer asks of its input.
#[derive(Debug)]
pub struct RequiredProperty {
    pub distribution: Distribution,
}

/// The distribution that a plan delivers.
#[derive(Debug)]
pub struct PhysicalProperty {
    pub distribution: Distribution,
}

impl RequiredProperty {
    /// A serial requirement is met exactly by serial delivery.
    pub fn serial_satisfied_by(physical: &PhysicalProperty) -> (res: bool)
        ensures
            res == (physical.distribution is Serial),
    {
        match physical.distribution {
            Distribution::Serial => true,
            _ => false,
        }
    }
}

/// Finishes a distributed plan: `s_expr` is the plan as its distribution
/// requirements were enforced, and `physical_prop` the property derived for
/// it.  Unless it already delivers serially, a merge exchange on top
/// gathers its rows to one node.
pub fn optimize_distributed_query(s_expr: SExpr, physical_prop: &PhysicalProperty) -> (res: SExpr)
    ensures
        physical_prop.distribution is Serial ==> res == s_expr,
        !(physical_prop.distribution is Serial) ==> res.plan == RelOperator::Exchange(Exchange::Merge)
            && res.children@ == seq![s_expr],
{
    let mut result = s_expr;
    if !RequiredProperty::serial_satisfied_by(physical_prop) {
        result = SExpr::create_unary(RelOperator::Exchange(Exchange::Merge), result);
    }
    result
}

} // verus!
