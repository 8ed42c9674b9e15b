//! Nodes of a tree, each known by an identifier of its own.

use uuid::Uuid;
use vstd::prelude::*;

verus! {

/// `Uuid` of the `uuid` crate, carried around as it is: nothing is read from
/// an identifier here.
#[verifier::external_type_specification]
#[verifier::external_body]
pub struct ExUuid(Uuid);

/// `Uuid::new_v4` of the `uuid` crate: an identifier drawn from the random
/// numbers of the operating system. Which one comes is not known beforehand,
/// so nothing is claimed of it, not even that two of them differ. The call
/// does not return where the operating system gives no random numbers.
pub assume_specification[ Uuid::new_v4 ]() -> (id: Uuid)
;

/// A value in a tree: it has an identifier, may have a parent, and has
/// children in order.
pub struct Node<T> {
    id: Uuid,
    value: T,
    parent: Option<Uuid>,
    children: Vec<Uuid>,
}

impl<T> Node<T> {
    /// The identifier of the node.
    pub closed spec fn id(&self) -> Uuid {
        self.id
    }

    /// The value the node holds.
    pub closed spec fn value(&self) -> T {
        self.value
    }

    /// The identifier of the parent, if the node has one.
    pub closed spec fn parent(&self) -> Option<Uuid> {
        self.parent
    }

    /// The identifiers of the children, in order.
    pub closed spec fn children(&self) -> Seq<Uuid> {
        self.children@
    }

    /// A node with a fresh identifier that holds `value` and stands alone.
    pub fn new(value: T) -> (node: Self)
        ensures
            node.value() == value,
            node.parent() is None,
            node.children() == Seq::<Uuid>::empty(),
    {
        Self { id: Uuid::new_v4(), value, parent: None, children: Vec::new() }
    }

    pub fn get_id(&self) -> (id: Uuid)
        ensures
            id == self.id(),
    {
        self.id
    }

    pub fn get_value(&self) -> (value: &T)
        ensures
            *value == self.value(),
    {
        &self.value
    }

    pub fn get_parent(&self) -> (parent: Option<Uuid>)
        ensures
            parent == self.parent(),
    {
        self.parent
    }

    pub fn get_children(&self) -> (children: &Vec<Uuid>)
        ensures
            children@ == self.children(),
    {
        &self.children
    }
}

} // verus!
