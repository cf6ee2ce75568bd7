//! The data of a behavior factory: the behaviors it can create, by name, and the
//! subtree definitions it has read.

use vstd::prelude::*;
use vstd::string::*;
use crate::behavior::{
    Behavior, BehaviorCategory, BehaviorConfig, BehaviorData, BehaviorManifest, BehaviorType, ConfigView,
    ManifestView, NodeContext, PortList, PortView,
};
use crate::builtin::{builtin_category, builtin_name, builtin_ports, lemma_builtin_names_distinct, made_by_builtin, BuiltinNode};
use crate::registry::{NameTable, TextTable};
use crate::status::BehaviorStatus;
use crate::blackboard::{Blackboard, BlackboardView, root_blackboard};
use crate::error::{Error, ErrorView};
use crate::text::shrink;
use crate::xml::{children_of, first_element, xml_parse, XmlDocument};
use crate::xml_parser::{build_context, main_outcome, realizes, root_check, sub_outcome, MainOutcome, XmlParser};

verus! {

/// How a registered behavior is created.
#[derive(Clone, Copy, Debug, PartialEq, Eq, Structural)]
pub enum Creator {
    /// by the creation function of a behavior of the library
    Builtin(BuiltinNode),
    /// by a creation function of the user, known by this number
    Custom(u64),
}

/// A registered behavior: its name, category, creation and ports.
#[derive(Debug)]
pub struct Registration {
    /// the name it is registered under
    pub name: String,
    /// its category
    pub category: BehaviorCategory,
    /// how it is created
    pub creator: Creator,
    /// the ports it provides
    pub ports: PortList,
}

/// The value of a [`Registration`].
pub struct RegistrationView {
    pub name: Seq<char>,
    pub category: BehaviorCategory,
    pub creator: Creator,
    pub ports: Seq<(Seq<char>, PortView)>,
}

impl View for Registration {
    type V = RegistrationView;

    open spec fn view(&self) -> RegistrationView {
        RegistrationView { name: self.name@, category: self.category, creator: self.creator, ports: self.ports@ }
    }
}

/// The registered behaviors: each name with its registration.
pub open spec fn registry(names: Map<Seq<char>, usize>, entries: Seq<Registration>) -> Map<
    Seq<char>,
    RegistrationView,
> {
    Map::new(|n: Seq<char>| names.contains_key(n), |n: Seq<char>| entries[names[n] as int]@)
}

/// The behavior category a registered behavior of the user runs as.
pub open spec fn custom_type(c: BehaviorCategory) -> BehaviorType {
    match c {
        BehaviorCategory::Action => BehaviorType::Action,
        BehaviorCategory::Condition => BehaviorType::Condition,
        BehaviorCategory::Control => BehaviorType::Control,
        BehaviorCategory::Decorator => BehaviorType::Decorator,
    }
}

/// The category of a behavior created by the registration `reg`.
pub open spec fn created_category(reg: RegistrationView) -> BehaviorCategory {
    match reg.creator {
        Creator::Builtin(k) => builtin_category(k),
        Creator::Custom(_) => reg.category,
    }
}

/// The manifest that a behavior created by the registration `reg` carries in
/// its configuration: its category, the registered name and ports, and an empty
/// description.
pub open spec fn registration_manifest(reg: RegistrationView) -> ManifestView {
    ManifestView { bhvr_category: created_category(reg), registration_id: reg.name, ports: reg.ports, description: ""@ }
}

/// The behavior `b` was created, idle, by the registration `reg`.
pub open spec fn created_by(b: Behavior, reg: RegistrationView) -> bool {
    &&& b.data.status == BehaviorStatus::Idle
    &&& match reg.creator {
        Creator::Builtin(k) => made_by_builtin(b, k) && b.data.name@ == builtin_name(k),
        Creator::Custom(id) => {
            &&& b.context == NodeContext::Custom(id)
            &&& b.data.name@ == reg.name
            &&& b.data.type_str@ == reg.name
            &&& b.data.bhvr_type == custom_type(reg.category)
            &&& b.data.bhvr_category == reg.category
        },
    }
}

/// The data of a factory.
pub struct FactoryData {
    /// the id of the main tree, once one has been read
    pub main_tree_id: Option<String>,
    /// the registered names, each with the position of its registration
    pub names: NameTable,
    /// the registrations
    pub entries: Vec<Registration>,
    /// the subtree definitions read: each id with the text of its tree
    pub tree_definitions: TextTable,
}

/// The registration of the behavior of the library named `n`, under that name.
pub open spec fn builtin_entry(r: RegistrationView, n: Seq<char>) -> bool {
    &&& r.creator is Builtin
    &&& builtin_name(r.creator->Builtin_0) == n
    &&& r.name == n
    &&& r.category == builtin_category(r.creator->Builtin_0)
    &&& r.ports == builtin_ports(r.creator->Builtin_0)
}

/// The names of the behaviors `ks` of the library.
pub open spec fn names_of(ks: Seq<BuiltinNode>) -> Set<Seq<char>> {
    ks.map_values(|k: BuiltinNode| builtin_name(k)).to_set()
}

/// The names of the behaviors that extend the fundamental ones.
pub open spec fn extension_names() -> Set<Seq<char>> {
    set![
        builtin_name(BuiltinNode::ForceFailure),
        builtin_name(BuiltinNode::ForceSuccess),
        builtin_name(BuiltinNode::IfThenElse),
        builtin_name(BuiltinNode::Inverter),
        builtin_name(BuiltinNode::KeepRunningUntilFailure),
        builtin_name(BuiltinNode::ParallelAll),
        builtin_name(BuiltinNode::ReactiveFallback),
        builtin_name(BuiltinNode::ReactiveSequence),
        builtin_name(BuiltinNode::Repeat),
        builtin_name(BuiltinNode::Retry),
        builtin_name(BuiltinNode::RetryUntilSuccessful),
        builtin_name(BuiltinNode::RunOnce),
        builtin_name(BuiltinNode::SequenceWithMemory),
        builtin_name(BuiltinNode::WhileDoElse),
    ]
}

impl FactoryData {
    /// The data is consistent: each registered name has its own registration,
    /// which carries that name, and the tables are finite.
    pub open spec fn wf(&self) -> bool {
        &&& forall|n: Seq<char>| #[trigger]
            self.names@.contains_key(n) ==> self.names@[n] < self.entries@.len() && self.entries@[self.names@[n] as int]@.name
                == n
        &&& self.names@.dom().finite()
        &&& self.tree_definitions@.dom().finite()
    }

    /// The registered behaviors.
    pub open spec fn bhvr_map(&self) -> Map<Seq<char>, RegistrationView> {
        registry(self.names@, self.entries@)
    }

    /// Register `ports`' behavior under `name`, with its category and creation,
    /// replacing what was registered under that name.
    pub fn register_behavior(
        &mut self,
        name: &str,
        creator: Creator,
        ports: PortList,
        bhvr_type: BehaviorCategory,
    )
        requires
            old(self).wf(),
        ensures
            final(self).wf(),
            final(self).bhvr_map() == old(self).bhvr_map().insert(
                name@,
                RegistrationView { name: name@, category: bhvr_type, creator, ports: ports@ },
            ),
            final(self).tree_definitions@ == old(self).tree_definitions@,
            final(self).main_tree_id == old(self).main_tree_id,
    {
        let ghost reg = RegistrationView { name: name@, category: bhvr_type, creator, ports: ports@ };
        let ghost old_map = self.bhvr_map();
        let entry = Registration { name: String::from_str(name), category: bhvr_type, creator, ports };
        match self.names.get(name) {
            Some(i) => {
                self.entries.set(i, entry);
                assert forall|n: Seq<char>| #[trigger] self.names@.contains_key(n) implies self.names@[n]
                    < self.entries@.len() && self.entries@[self.names@[n] as int]@.name == n by {
                    if n != name@ {
                        assert(old(self).entries@[old(self).names@[n] as int]@.name == n);
                    }
                }
                assert(self.bhvr_map() =~= old_map.insert(name@, reg));
            },
            None => {
                let pos = self.entries.len();
                self.entries.push(entry);
                self.names.insert(String::from_str(name), pos);
                assert forall|n: Seq<char>| #[trigger] self.names@.contains_key(n) implies self.names@[n]
                    < self.entries@.len() && self.entries@[self.names@[n] as int]@.name == n by {
                    if n != name@ {
                        assert(old(self).names@.contains_key(n));
                        assert(self.entries@[self.names@[n] as int] == old(self).entries@[old(self).names@[n] as int]);
                    }
                }
                assert forall|n: Seq<char>| #[trigger] self.bhvr_map().contains_key(n) implies self.bhvr_map()[n]
                    == old_map.insert(name@, reg)[n] by {
                    if n != name@ {
                        assert(self.entries@[self.names@[n] as int] == old(self).entries@[old(self).names@[n] as int]);
                    }
                }
                assert(self.bhvr_map() =~= old_map.insert(name@, reg));
            },
        }
    }

    /// Create the behavior of registration `e` with this configuration and these
    /// children.
    pub fn create(&self, e: usize, config: BehaviorConfig, children: Vec<Behavior>) -> (r: Behavior)
        requires
            e < self.entries@.len(),
        ensures
            created_by(r, self.entries@[e as int]@),
            r.data.config@ == (ConfigView {
                manifest: Some(registration_manifest(self.entries@[e as int]@)),
                ..config@
            }),
            r.data.children == children,
    {
        let reg = &self.entries[e];
        let empty = "";
        proof {
            reveal_strlit("");
        }
        let manifest = BehaviorManifest {
            bhvr_category: reg.category,
            registration_id: reg.name.clone(),
            ports: reg.ports.duplicate(),
            description: String::from_str(empty),
        };
        let mut config = config;
        match reg.creator {
            Creator::Builtin(k) => {
                let name = k.name();
                config.set_manifest(BehaviorManifest { bhvr_category: k.category(), ..manifest });
                let mut b = k.create(name.as_str(), config);
                b.data.children = children;
                b
            },
            Creator::Custom(id) => {
                let bhvr_type = match reg.category {
                    BehaviorCategory::Action => BehaviorType::Action,
                    BehaviorCategory::Condition => BehaviorType::Condition,
                    BehaviorCategory::Control => BehaviorType::Control,
                    BehaviorCategory::Decorator => BehaviorType::Decorator,
                };
                config.set_manifest(manifest);
                Behavior {
                    data: BehaviorData {
                        name: reg.name.clone(),
                        type_str: reg.name.clone(),
                        bhvr_type,
                        bhvr_category: reg.category,
                        config,
                        status: BehaviorStatus::Idle,
                        children,
                    },
                    context: NodeContext::Custom(id),
                }
            },
        }
    }

    /// Register the behavior `k` of the library under its name.
    fn register_builtin(&mut self, k: BuiltinNode)
        requires
            old(self).wf(),
        ensures
            final(self).wf(),
            final(self).bhvr_map().dom() == old(self).bhvr_map().dom().insert(builtin_name(k)),
            final(self).bhvr_map()[builtin_name(k)].name == builtin_name(k),
            final(self).bhvr_map()[builtin_name(k)].category == builtin_category(k),
            final(self).bhvr_map()[builtin_name(k)].creator == Creator::Builtin(k),
            final(self).bhvr_map()[builtin_name(k)].ports == builtin_ports(k),
            forall|n: Seq<char>| n != builtin_name(k) && #[trigger] old(self).bhvr_map().contains_key(n)
                ==> final(self).bhvr_map()[n] == old(self).bhvr_map()[n],
            final(self).tree_definitions@ == old(self).tree_definitions@,
            final(self).main_tree_id == old(self).main_tree_id,
    {
        let name = k.name();
        self.register_behavior(name.as_str(), Creator::Builtin(k), k.ports(), k.category());
    }

    /// Register the other behaviors of the library, each under its name.
    pub fn add_extensions(&mut self)
        requires
            old(self).wf(),
        ensures
            final(self).wf(),
            final(self).bhvr_map().dom() == old(self).bhvr_map().dom().union(extension_names()),
            forall|n: Seq<char>| #[trigger]
                extension_names().contains(n) ==> builtin_entry(final(self).bhvr_map()[n], n),
            forall|n: Seq<char>| !extension_names().contains(n) && #[trigger] old(self).bhvr_map().contains_key(n)
                ==> final(self).bhvr_map()[n] == old(self).bhvr_map()[n],
            final(self).tree_definitions@ == old(self).tree_definitions@,
            final(self).main_tree_id == old(self).main_tree_id,
    {
        proof {
            lemma_builtin_names_distinct();
        }
        let kinds: Vec<BuiltinNode> = vec![
            BuiltinNode::ForceFailure,
            BuiltinNode::ForceSuccess,
            BuiltinNode::IfThenElse,
            BuiltinNode::Inverter,
            BuiltinNode::KeepRunningUntilFailure,
            BuiltinNode::ParallelAll,
            BuiltinNode::ReactiveFallback,
            BuiltinNode::ReactiveSequence,
            BuiltinNode::Repeat,
            BuiltinNode::Retry,
            BuiltinNode::RetryUntilSuccessful,
            BuiltinNode::RunOnce,
            BuiltinNode::SequenceWithMemory,
            BuiltinNode::WhileDoElse,
        ];
        assert(kinds@.map_values(|k: BuiltinNode| builtin_name(k)).to_set() =~= extension_names()) by {
            assert forall|n: Seq<char>| extension_names().contains(n) implies kinds@.map_values(
                |k: BuiltinNode| builtin_name(k),
            ).contains(n) by {
                if n == builtin_name(BuiltinNode::ForceFailure) {
                    assert(kinds@.map_values(|k: BuiltinNode| builtin_name(k))[0] == n);
                }
                if n == builtin_name(BuiltinNode::ForceSuccess) {
                    assert(kinds@.map_values(|k: BuiltinNode| builtin_name(k))[1] == n);
                }
                if n == builtin_name(BuiltinNode::IfThenElse) {
                    assert(kinds@.map_values(|k: BuiltinNode| builtin_name(k))[2] == n);
                }
                if n == builtin_name(BuiltinNode::Inverter) {
                    assert(kinds@.map_values(|k: BuiltinNode| builtin_name(k))[3] == n);
                }
                if n == builtin_name(BuiltinNode::KeepRunningUntilFailure) {
                    assert(kinds@.map_values(|k: BuiltinNode| builtin_name(k))[4] == n);
                }
                if n == builtin_name(BuiltinNode::ParallelAll) {
                    assert(kinds@.map_values(|k: BuiltinNode| builtin_name(k))[5] == n);
                }
                if n == builtin_name(BuiltinNode::ReactiveFallback) {
                    assert(kinds@.map_values(|k: BuiltinNode| builtin_name(k))[6] == n);
                }
                if n == builtin_name(BuiltinNode::ReactiveSequence) {
                    assert(kinds@.map_values(|k: BuiltinNode| builtin_name(k))[7] == n);
                }
                if n == builtin_name(BuiltinNode::Repeat) {
                    assert(kinds@.map_values(|k: BuiltinNode| builtin_name(k))[8] == n);
                }
                if n == builtin_name(BuiltinNode::Retry) {
                    assert(kinds@.map_values(|k: BuiltinNode| builtin_name(k))[9] == n);
                }
                if n == builtin_name(BuiltinNode::RetryUntilSuccessful) {
                    assert(kinds@.map_values(|k: BuiltinNode| builtin_name(k))[10] == n);
                }
                if n == builtin_name(BuiltinNode::RunOnce) {
                    assert(kinds@.map_values(|k: BuiltinNode| builtin_name(k))[11] == n);
                }
                if n == builtin_name(BuiltinNode::SequenceWithMemory) {
                    assert(kinds@.map_values(|k: BuiltinNode| builtin_name(k))[12] == n);
                }
                if n == builtin_name(BuiltinNode::WhileDoElse) {
                    assert(kinds@.map_values(|k: BuiltinNode| builtin_name(k))[13] == n);
                }
            }
        }
        let mut i: usize = 0;
        while i < kinds.len()
            invariant
                forall|a: BuiltinNode, b: BuiltinNode| #[trigger] builtin_name(a) == #[trigger] builtin_name(b) ==> a
                    == b,
                i <= kinds@.len(),
                self.wf(),
                self.bhvr_map().dom() == old(self).bhvr_map().dom().union(names_of(kinds@.subrange(0, i as int))),
                forall|n: Seq<char>| #[trigger] names_of(kinds@.subrange(0, i as int)).contains(n) ==> builtin_entry(self.bhvr_map()[n], n),
                forall|n: Seq<char>| !names_of(kinds@.subrange(0, i as int)).contains(n) && #[trigger] old(self).bhvr_map().contains_key(n)
                    ==> self.bhvr_map()[n] == old(self).bhvr_map()[n],
                self.tree_definitions@ == old(self).tree_definitions@,
                self.main_tree_id == old(self).main_tree_id,
            decreases kinds@.len() - i,
        {
            let k = kinds[i];
            let ghost prev = self.bhvr_map();
            self.register_builtin(k);
            proof {
                assert(kinds@.subrange(0, i + 1) =~= kinds@.subrange(0, i as int).push(k));
                assert(kinds@.subrange(0, i + 1).map_values(|k: BuiltinNode| builtin_name(k)) =~= kinds@.subrange(
                    0,
                    i as int,
                ).map_values(|k: BuiltinNode| builtin_name(k)).push(builtin_name(k)));
                kinds@.subrange(0, i as int).map_values(|k: BuiltinNode| builtin_name(k)).lemma_push_to_set_commute(
                    builtin_name(k),
                );
                assert(names_of(kinds@.subrange(0, i + 1)) == names_of(kinds@.subrange(0, i as int)).insert(builtin_name(k)));
                assert(self.bhvr_map().dom() =~= old(self).bhvr_map().dom().union(names_of(kinds@.subrange(0, i + 1))));
                assert forall|n: Seq<char>| !names_of(kinds@.subrange(0, i + 1)).contains(n) && #[trigger] old(
                    self,
                ).bhvr_map().contains_key(n) implies self.bhvr_map()[n] == old(self).bhvr_map()[n] by {
                    assert(prev.contains_key(n));
                }
            }
            i = i + 1;
        }
        assert(kinds@.subrange(0, i as int) =~= kinds@);
    }

    /// A factory's data with the fundamental behaviors registered: `Fallback`,
    /// `Parallel` and `Sequence`.
    pub fn create_fundamentals() -> (r: FactoryData)
        ensures
            r.wf(),
            r.bhvr_map().dom() == set![
                builtin_name(BuiltinNode::Fallback),
                builtin_name(BuiltinNode::Parallel),
                builtin_name(BuiltinNode::Sequence),
            ],
            forall|n: Seq<char>| #[trigger] r.bhvr_map().contains_key(n) ==> builtin_entry(r.bhvr_map()[n], n),
            r.tree_definitions@ == Map::<Seq<char>, Seq<char>>::empty(),
            r.main_tree_id is None,
    {
        let mut d = FactoryData {
            main_tree_id: None,
            names: NameTable::new(),
            entries: Vec::new(),
            tree_definitions: TextTable::new(),
        };
        assert(d.bhvr_map().dom() =~= Set::<Seq<char>>::empty());
        d.register_builtin(BuiltinNode::Fallback);
        d.register_builtin(BuiltinNode::Parallel);
        d.register_builtin(BuiltinNode::Sequence);
        assert(d.bhvr_map().dom() =~= set![
            builtin_name(BuiltinNode::Fallback),
            builtin_name(BuiltinNode::Parallel),
            builtin_name(BuiltinNode::Sequence),
        ]);
        d
    }
}

impl Default for FactoryData {
    /// The data of a factory with the fundamental behaviors registered.
    fn default() -> (r: Self)
        ensures
            r.wf(),
            r.bhvr_map().dom() == set![
                builtin_name(BuiltinNode::Fallback),
                builtin_name(BuiltinNode::Parallel),
                builtin_name(BuiltinNode::Sequence),
            ],
            forall|n: Seq<char>| #[trigger] r.bhvr_map().contains_key(n) ==> builtin_entry(r.bhvr_map()[n], n),
            r.tree_definitions@ == Map::<Seq<char>, Seq<char>>::empty(),
            r.main_tree_id is None,
    {
        FactoryData::create_fundamentals()
    }
}

/// A tree of behaviors: its root.
pub struct BehaviorTree {
    /// the root behavior
    pub root: Behavior,
}

impl BehaviorTree {
    /// The tree with this root.
    pub fn new(root: Behavior) -> (r: Self)
        ensures
            r.root == root,
    {
        BehaviorTree { root }
    }
}

/// What creating a tree from the document `xml` does: the checks of its root
/// element, then the reading of the shrunk document.
pub open spec fn create_outcome(cx: crate::xml_parser::BuildContext, bb: BlackboardView, xml: Seq<char>) -> MainOutcome {
    match xml_parse(xml) {
        None => MainOutcome { main_id: None, defs: cx.defs, result: Err(ErrorView::RoXmlTree) },
        Some(nodes) => match first_element(nodes, children_of(nodes, 0)) {
            None => MainOutcome { main_id: None, defs: cx.defs, result: Err(ErrorView::RoXmlTree) },
            Some(root) => match root_check(nodes, root) {
                Some(x) => MainOutcome { main_id: None, defs: cx.defs, result: Err(x) },
                None => main_outcome(cx, bb, shrink(xml)),
            },
        },
    }
}

/// A factory of behavior trees: the blackboard its trees use and its data.
pub struct BTFactory {
    blackboard: Blackboard,
    data: FactoryData,
}

impl BTFactory {
    /// The blackboard of the factory.
    pub closed spec fn board(&self) -> BlackboardView {
        self.blackboard@
    }

    /// The data of the factory.
    pub closed spec fn factory_data(&self) -> FactoryData {
        self.data
    }

    /// The factory is consistent.
    pub open spec fn wf(&self) -> bool {
        self.factory_data().wf()
    }

    /// A factory with this blackboard and data.
    pub fn new(blackboard: Blackboard, data: FactoryData) -> (r: Self)
        ensures
            r.board() == blackboard@,
            r.factory_data() == data,
    {
        BTFactory { blackboard, data }
    }

    /// A factory with its own blackboard and all the behaviors of the library.
    pub fn extended() -> (r: Self)
        ensures
            r.wf(),
            r.board() == root_blackboard(),
            r.factory_data().bhvr_map().dom() == set![
                builtin_name(BuiltinNode::Fallback),
                builtin_name(BuiltinNode::Parallel),
                builtin_name(BuiltinNode::Sequence),
            ].union(extension_names()),
            forall|n: Seq<char>| #[trigger]
                r.factory_data().bhvr_map().contains_key(n) ==> builtin_entry(r.factory_data().bhvr_map()[n], n),
            r.factory_data().tree_definitions@ == Map::<Seq<char>, Seq<char>>::empty(),
            r.factory_data().main_tree_id is None,
    {
        let mut data = FactoryData::default();
        data.add_extensions();
        BTFactory::new(Blackboard::default(), data)
    }

    /// A factory using this blackboard, with the fundamental behaviors.
    pub fn with_blackboard(blackboard: Blackboard) -> (r: Self)
        ensures
            r.wf(),
            r.board() == blackboard@,
            r.factory_data().bhvr_map().dom() == set![
                builtin_name(BuiltinNode::Fallback),
                builtin_name(BuiltinNode::Parallel),
                builtin_name(BuiltinNode::Sequence),
            ],
            forall|n: Seq<char>| #[trigger]
                r.factory_data().bhvr_map().contains_key(n) ==> builtin_entry(r.factory_data().bhvr_map()[n], n),
            r.factory_data().tree_definitions@ == Map::<Seq<char>, Seq<char>>::empty(),
            r.factory_data().main_tree_id is None,
    {
        BTFactory { blackboard, data: FactoryData::default() }
    }

    /// Register the other behaviors of the library.
    pub fn add_extensions(&mut self)
        requires
            old(self).wf(),
        ensures
            final(self).wf(),
            final(self).board() == old(self).board(),
            final(self).factory_data().bhvr_map().dom() == old(self).factory_data().bhvr_map().dom().union(
                extension_names(),
            ),
            forall|n: Seq<char>| #[trigger]
                extension_names().contains(n) ==> builtin_entry(final(self).factory_data().bhvr_map()[n], n),
            forall|n: Seq<char>| !extension_names().contains(n) && #[trigger] old(
                self,
            ).factory_data().bhvr_map().contains_key(n) ==> final(self).factory_data().bhvr_map()[n] == old(
                self,
            ).factory_data().bhvr_map()[n],
            final(self).factory_data().tree_definitions@ == old(self).factory_data().tree_definitions@,
            final(self).factory_data().main_tree_id == old(self).factory_data().main_tree_id,
    {
        self.data.add_extensions();
    }

    /// The blackboard of the factory.
    pub fn blackboard(&self) -> (r: &Blackboard)
        ensures
            r@ == self.board(),
    {
        &self.blackboard
    }

    /// Register a behavior under `name`, replacing what was registered under it.
    pub fn register_behavior(&mut self, name: &str, creator: Creator, ports: PortList, bhvr_type: BehaviorCategory)
        requires
            old(self).wf(),
        ensures
            final(self).wf(),
            final(self).board() == old(self).board(),
            final(self).factory_data().bhvr_map() == old(self).factory_data().bhvr_map().insert(
                name@,
                RegistrationView { name: name@, category: bhvr_type, creator, ports: ports@ },
            ),
            final(self).factory_data().tree_definitions@ == old(self).factory_data().tree_definitions@,
            final(self).factory_data().main_tree_id == old(self).factory_data().main_tree_id,
    {
        self.data.register_behavior(name, creator, ports, bhvr_type);
    }

    /// Create the tree that the document `xml` describes: its root element must
    /// be `root`, with `BTCPP_format` 4 if given; the subtrees it defines are
    /// kept, and its main tree is built.
    pub fn create_tree_from_xml(&mut self, xml: &str) -> (r: Result<BehaviorTree, Error>)
        requires
            old(self).wf(),
        ensures
            final(self).wf(),
            final(self).board() == old(self).board(),
            final(self).factory_data().names@ == old(self).factory_data().names@,
            final(self).factory_data().entries@ == old(self).factory_data().entries@,
            final(self).factory_data().tree_definitions@ == create_outcome(
                build_context(old(self).factory_data()),
                old(self).board(),
                xml@,
            ).defs,
            match create_outcome(build_context(old(self).factory_data()), old(self).board(), xml@).main_id {
                Some(id) => final(self).factory_data().main_tree_id matches Some(s) && s@ == id,
                None => final(self).factory_data().main_tree_id == old(self).factory_data().main_tree_id,
            },
            match (r, create_outcome(build_context(old(self).factory_data()), old(self).board(), xml@).result) {
                (Ok(t), Ok(p)) => realizes(t.root, p, build_context(old(self).factory_data()).entries),
                (Err(e), Err(x)) => e@ == x,
                _ => false,
            },
    {
        match XmlDocument::parse(xml) {
            Err(e) => Err(Error::RoXmlTree(e)),
            Ok(doc) => {
                let root = doc.root_element();
                assert(crate::xml::nodes_view(doc.nodes@)[root as int] == doc.nodes@[root as int]@);
                if doc.nodes[root].name != String::from_str("root") {
                    return Err(Error::RootName);
                }
                match doc.attribute(root, "BTCPP_format") {
                    Some(f) => {
                        if f != String::from_str("4") {
                            return Err(Error::BtCppFormat);
                        }
                    },
                    None => {},
                }
                let shrunk = BTFactory::shrink_xml(xml);
                match XmlParser::parse_main_xml(&self.blackboard, &mut self.data, shrunk.as_str()) {
                    Err(x) => Err(x),
                    Ok(b) => Ok(BehaviorTree::new(b)),
                }
            },
        }
    }

    /// Read the subtree definitions of the document `xml`.
    pub fn register_subtree(&mut self, xml: &str) -> (r: Result<(), Error>)
        requires
            old(self).wf(),
        ensures
            final(self).wf(),
            final(self).board() == old(self).board(),
            final(self).factory_data().names@ == old(self).factory_data().names@,
            final(self).factory_data().entries@ == old(self).factory_data().entries@,
            final(self).factory_data().main_tree_id == old(self).factory_data().main_tree_id,
            final(self).factory_data().tree_definitions@ == sub_outcome(
                old(self).factory_data().tree_definitions@,
                shrink(xml@),
            ).0,
            match sub_outcome(old(self).factory_data().tree_definitions@, shrink(xml@)).1 {
                Some(x) => r matches Err(e) && e@ == x,
                None => r is Ok,
            },
    {
        let shrunk = BTFactory::shrink_xml(xml);
        XmlParser::parse_sub_xml(&self.blackboard, &mut self.data, shrunk.as_str())
    }
}

impl Default for BTFactory {
    /// A factory with its own blackboard and the fundamental behaviors.
    fn default() -> (r: Self)
        ensures
            r.wf(),
            r.board() == root_blackboard(),
            r.factory_data().bhvr_map().dom() == set![
                builtin_name(BuiltinNode::Fallback),
                builtin_name(BuiltinNode::Parallel),
                builtin_name(BuiltinNode::Sequence),
            ],
            forall|n: Seq<char>| #[trigger]
                r.factory_data().bhvr_map().contains_key(n) ==> builtin_entry(r.factory_data().bhvr_map()[n], n),
            r.factory_data().tree_definitions@ == Map::<Seq<char>, Seq<char>>::empty(),
            r.factory_data().main_tree_id is None,
    {
        BTFactory::new(Blackboard::default(), FactoryData::default())
    }
}

} // verus!
