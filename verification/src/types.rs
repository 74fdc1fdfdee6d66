use vstd::prelude::*;

verus! {

/// The resolved static type of an expression node, compared for equality
/// during binary-operator checks.
#[derive(Clone, Copy, PartialEq, Eq, Structural, Debug)]
pub enum Type {
    Bool,
    Num,
    Text,
    Void,
}

/// The typed-node capability: every node that can serve as an expression
/// operand reports its own static type, a pure query over the node's
/// structure. Operator productions consult it, never mutate it.
pub trait Typed {
    /// The type this node resolves to.
    spec fn resolved_type(&self) -> Type;

    /// Reports the resolved type.
    fn get_type(&self) -> (t: Type)
        ensures
            t == self.resolved_type(),
    ;
}

} // verus!
