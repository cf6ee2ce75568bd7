//! Registers of components: each component under its id, at most one per id;
//! a component that leaves the register is brought down to `Configured` first.

use vstd::prelude::*;

verus! {

/// The operation states of a component.
#[derive(Clone, Copy, Debug, PartialEq, Eq, Structural)]
pub enum OperationState {
    Error,
    Created,
    Configured,
    Inactive,
    Standby,
    Active,
}

/// A component that can be registered, implemented by the users' components: it
/// has an id, and its operation state can be managed.
pub trait Component {
    /// The id of the component.
    fn id(&self) -> String;

    /// Bring the component to `state`.
    fn manage_operation_state(&mut self, state: OperationState) -> Result<(), String>;
}

/// The ids of the entries, in order.
pub open spec fn keys<C>(es: Seq<(String, C)>) -> Seq<Seq<char>> {
    es.map_values(|e: (String, C)| e.0@)
}

/// No two entries have the same id.
pub open spec fn unique_keys<C>(es: Seq<(String, C)>) -> bool {
    forall|i: int, j: int| 0 <= i < es.len() && 0 <= j < es.len() && i != j ==> #[trigger] es[i].0@ != #[trigger] es[j].0@
}

/// The position of the entry with id `id` from the `k`-th on, if any.
pub open spec fn position<C>(es: Seq<(String, C)>, id: Seq<char>, k: int) -> Option<int>
    decreases es.len() - k,
{
    if k < 0 || k >= es.len() {
        None
    } else if es[k].0@ == id {
        Some(k)
    } else {
        position(es, id, k + 1)
    }
}

/// `new` is `old` with `c` registered under the id `k`: in place of the entry
/// with that id, or added at the end.
pub open spec fn placed<C>(old: Seq<(String, C)>, new: Seq<(String, C)>, k: Seq<char>, c: C) -> bool {
    match position(old, k, 0) {
        Some(i) => new.len() == old.len() && new[i].0@ == k && new[i].1 == c && forall|j: int|
            0 <= j < old.len() && j != i ==> #[trigger] new[j] == old[j],
        None => new.len() == old.len() + 1 && new[old.len() as int].0@ == k && new[old.len() as int].1 == c
            && forall|j: int| 0 <= j < old.len() ==> #[trigger] new[j] == old[j],
    }
}

proof fn lemma_position<C>(es: Seq<(String, C)>, id: Seq<char>, k: int)
    requires
        0 <= k,
    ensures
        match position(es, id, k) {
            Some(i) => k <= i < es.len() && es[i].0@ == id,
            None => forall|i: int| k <= i < es.len() ==> es[i].0@ != id,
        },
    decreases es.len() - k,
{
    if k < es.len() && es[k].0@ != id {
        lemma_position(es, id, k + 1);
    }
}

/// The position of the entry with id `id`.
fn find<C>(es: &Vec<(String, C)>, id: &str) -> (r: Option<usize>)
    ensures
        match r {
            Some(i) => position(es@, id@, 0) == Some(i as int) && i < es@.len(),
            None => position(es@, id@, 0) is None,
        },
{
    let key = String::from_str(id);
    let mut k: usize = 0;
    while k < es.len()
        invariant
            k <= es@.len(),
            key@ == id@,
            position(es@, id@, 0) == position(es@, id@, k as int),
        decreases es@.len() - k,
    {
        if es[k].0 == key {
            return Some(k);
        }
        k = k + 1;
    }
    None
}

/// Register `plugin` in `es` under its id, in place of the entry with that id.
fn register_in<C: Component>(es: &mut Vec<(String, C)>, plugin: C)
    requires
        unique_keys(old(es)@),
    ensures
        unique_keys(final(es)@),
        exists|k: Seq<char>| #[trigger] placed(old(es)@, final(es)@, k, plugin),
{
    let id = plugin.id();
    proof {
        lemma_position(es@, id@, 0);
    }
    match find(es, id.as_str()) {
        Some(i) => {
            es.set(i, (id, plugin));
        },
        None => {
            es.push((id, plugin));
        },
    }
    assert(placed(old(es)@, es@, id@, plugin));
}

/// Take the entry with id `id` out of `es`, its component brought down to
/// `Configured`.
fn deregister_from<C: Component>(es: &mut Vec<(String, C)>, id: &str) -> (r: Result<Option<C>, String>)
    requires
        unique_keys(old(es)@),
    ensures
        unique_keys(final(es)@),
        match position(old(es)@, id@, 0) {
            None => final(es)@ == old(es)@ && r matches Ok(None),
            Some(i) => final(es)@ == old(es)@.remove(i) && (r matches Ok(c) ==> c is Some),
        },
{
    proof {
        lemma_position(es@, id@, 0);
    }
    match find(es, id) {
        None => Ok(None),
        Some(i) => {
            let (_, mut plugin) = es.remove(i);
            proof {
                assert forall|a: int, b: int| 0 <= a < es@.len() && 0 <= b < es@.len() && a != b implies #[trigger] es@[a].0@
                    != #[trigger] es@[b].0@ by {
                    let oa = if a < i { a } else { a + 1 };
                    let ob = if b < i { b } else { b + 1 };
                    assert(es@[a] == old(es)@[oa]);
                    assert(es@[b] == old(es)@[ob]);
                }
            }
            match plugin.manage_operation_state(OperationState::Configured) {
                Err(e) => Err(e),
                Ok(()) => Ok(Some(plugin)),
            }
        },
    }
}

/// The components of a system, each under its id.
pub struct ComponentRegister<C: Component> {
    /// the components with their ids, no two with the same id
    pub components: Vec<(String, C)>,
}

impl<C: Component> ComponentRegister<C> {
    /// No two components have the same id.
    pub open spec fn wf(&self) -> bool {
        unique_keys(self.components@)
    }

    /// An empty register.
    pub fn new() -> (r: Self)
        ensures
            r.wf(),
            r.components@.len() == 0,
    {
        ComponentRegister { components: Vec::new() }
    }

    /// Register `plugin` under its id, in place of the component with that id.
    pub fn register(&mut self, plugin: C)
        requires
            old(self).wf(),
        ensures
            final(self).wf(),
            exists|k: Seq<char>| #[trigger] placed(old(self).components@, final(self).components@, k, plugin),
    {
        let ghost c = plugin;
        register_in(&mut self.components, plugin);
        proof {
            let k = choose|k: Seq<char>| #[trigger] placed(old(self).components@, self.components@, k, c);
            assert(placed(old(self).components@, self.components@, k, c));
        }
    }

    /// Take the component with id `id` out of the register, brought down to
    /// `Configured`; `None` when there is none.
    pub fn deregister(&mut self, id: &str) -> (r: Result<Option<C>, String>)
        requires
            old(self).wf(),
        ensures
            final(self).wf(),
            match position(old(self).components@, id@, 0) {
                None => final(self).components@ == old(self).components@ && r matches Ok(None),
                Some(i) => final(self).components@ == old(self).components@.remove(i) && (r matches Ok(c)
                    ==> c is Some),
            },
    {
        let mut cs = Vec::new();
        std::mem::swap(&mut cs, &mut self.components);
        let r = deregister_from(&mut cs, id);
        self.components = cs;
        r
    }
}

impl<C: Component> Default for ComponentRegister<C> {
    /// An empty register.
    fn default() -> (r: Self)
        ensures
            r.wf(),
            r.components@.len() == 0,
    {
        Self::new()
    }
}

/// A registry of components.
pub trait ComponentRegistry<C: Component> {
    /// Register a component.
    fn register(&mut self, component: C);

    /// Take the component with this id out of the registry.
    fn deregister(&mut self, id: &str) -> Result<Option<C>, String>;
}

/// The components of a system, each under its id, as a registry.
pub struct ComponentRegistryType<C: Component> {
    components: Vec<(String, C)>,
}

impl<C: Component> ComponentRegistryType<C> {
    /// No two components have the same id.
    #[verifier::type_invariant]
    spec fn unique(&self) -> bool {
        unique_keys(self.components@)
    }

    /// The components with their ids, in the order of their registration.
    pub closed spec fn contents(&self) -> Seq<(String, C)> {
        self.components@
    }

    /// An empty registry.
    pub fn new() -> (r: Self)
        ensures
            r.contents().len() == 0,
    {
        ComponentRegistryType { components: Vec::new() }
    }
}

impl<C: Component> Default for ComponentRegistryType<C> {
    /// An empty registry.
    fn default() -> (r: Self)
        ensures
            r.contents().len() == 0,
    {
        Self::new()
    }
}

impl<C: Component> ComponentRegistry<C> for ComponentRegistryType<C> {
    /// Register `component` under its id, in place of the component with that id.
    fn register(&mut self, component: C)
        ensures
            exists|k: Seq<char>| #[trigger] placed(old(self).contents(), final(self).contents(), k, component),
    {
        proof {
            use_type_invariant(&*self);
        }
        let ghost c = component;
        let mut cs = Vec::new();
        std::mem::swap(&mut cs, &mut self.components);
        let ghost before = cs@;
        register_in(&mut cs, component);
        self.components = cs;
        proof {
            let k = choose|k: Seq<char>| #[trigger] placed(before, self.components@, k, c);
            assert(placed(old(self).contents(), self.contents(), k, c));
        }
    }

    /// Take the component with id `id` out of the registry, brought down to
    /// `Configured`; `None` when there is none.
    fn deregister(&mut self, id: &str) -> (r: Result<Option<C>, String>)
        ensures
            match position(old(self).contents(), id@, 0) {
                None => final(self).contents() == old(self).contents() && r matches Ok(None),
                Some(i) => final(self).contents() == old(self).contents().remove(i) && (r matches Ok(c)
                    ==> c is Some),
            },
    {
        proof {
            use_type_invariant(&*self);
        }
        let mut cs = Vec::new();
        std::mem::swap(&mut cs, &mut self.components);
        let r = deregister_from(&mut cs, id);
        self.components = cs;
        r
    }
}

} // verus!
