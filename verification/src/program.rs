//! The state of the program: the components it shows.

use crate::component::Component;
use crate::node::Node;
use uuid::Uuid;
use vstd::prelude::*;

verus! {

/// The components of the screen. There is always a root among them, and it
/// comes first.
pub struct ProgramState {
    components: Vec<Node<Component>>,
    component_root: Uuid,
}

impl ProgramState {
    #[verifier::type_invariant]
    spec fn root_comes_first(&self) -> bool {
        self.components@.len() > 0 && self.components@[0].id() == self.component_root
    }

    /// The identifiers of the components, in order.
    pub closed spec fn ids(&self) -> Seq<Uuid> {
        Seq::new(self.components@.len(), |i: int| self.components@[i].id())
    }

    /// The identifier of the root.
    pub closed spec fn root(&self) -> Uuid {
        self.component_root
    }

    /// A state that holds a root and nothing else.
    pub fn new() -> (state: Self)
        ensures
            state.ids() == seq![state.root()],
    {
        let component_root = Node::new(Component::Root {  });
        let component_root_id = component_root.get_id();
        let mut components: Vec<Node<Component>> = Vec::new();
        components.push(component_root);
        let state = Self { components, component_root: component_root_id };
        assert(state.ids() =~= seq![state.root()]);
        state
    }

    pub fn get_component_root(&self) -> (root: Uuid)
        ensures
            root == self.root(),
            self.ids().len() > 0,
            self.ids()[0] == root,
    {
        proof {
            use_type_invariant(self);
        }
        self.component_root
    }

    pub fn list_component(&self) -> (ids: Vec<Uuid>)
        ensures
            ids@ == self.ids(),
    {
        let mut ids: Vec<Uuid> = Vec::new();
        let mut i: usize = 0;
        while i < self.components.len()
            invariant
                i <= self.components@.len(),
                ids@ == self.ids().take(i as int),
            decreases self.components@.len() - i,
        {
            ids.push(self.components[i].get_id());
            assert(ids@ =~= self.ids().take(i as int + 1));
            i = i + 1;
        }
        assert(self.ids().take(i as int) =~= self.ids());
        ids
    }
}

} // verus!
