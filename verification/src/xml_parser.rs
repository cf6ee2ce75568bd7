//! Reading behavior trees from XML: subtree definitions, port values and the
//! tree of behaviors to create.

use vstd::prelude::*;
use vstd::string::*;
use crate::behavior::{BehaviorCategory, BehaviorConfig, ConfigView, PortDirection, PortList, PortView, has_remapping};
use crate::blackboard::{Blackboard, BlackboardView, LayerView, child_blackboard, pairs_view, set_entry};
use crate::error::{Error, ErrorView, strings_view};
use crate::behavior::Behavior;
use crate::factory::{FactoryData, RegistrationView, created_by, registration_manifest};
use crate::text::{chars_range, concat3, contains_str, is_substring, occurs_at, same_chars, str_chars, string_from_chars};
use crate::xml::{XmlDocument, XmlKind, XmlNodeView, attr_lookup, children_of, plain_attributes, first_element, nodes_view, well_parsed, xml_parse};

verus! {

// ---------------------------------------------------------------------------
// Names and values of ports and attributes.
// ---------------------------------------------------------------------------

/// An ASCII letter.
pub open spec fn is_ascii_letter(c: char) -> bool {
    ('a' <= c && c <= 'z') || ('A' <= c && c <= 'Z')
}

/// A name that may be given to a port: `_autoremap`, or a name that starts with
/// a letter and is neither `name` nor `ID`.
pub open spec fn allowed_port_name(n: Seq<char>) -> bool {
    n == "_autoremap"@ || (n.len() > 0 && is_ascii_letter(n[0]) && n != "name"@ && n != "ID"@)
}

/// The key of a blackboard pointer `{key}`, if the value is one.
pub open spec fn bb_pointer(v: Seq<char>) -> Option<Seq<char>> {
    if v.len() >= 3 && v[0] == '{' && v[v.len() - 1] == '}' {
        Some(v.subrange(1, v.len() - 1))
    } else {
        None
    }
}

/// The `bool` a text stands for, as `str::parse` reads it.
pub open spec fn bool_text(v: Seq<char>) -> Option<bool> {
    if v == "true"@ {
        Some(true)
    } else if v == "false"@ {
        Some(false)
    } else {
        None
    }
}

/// What the expression parser makes of a text: the variables of the expression,
/// in the order in which it visits them, or the message of its error.
pub uninterp spec fn expression_parse(text: Seq<char>) -> Result<Seq<Seq<char>>, Seq<char>>;

/// Calls `evalexpr::build_operator_tree` on the text and lists the variable
/// identifiers of the expression, in the order of `Node::iter_variable_identifiers`;
/// when the text is no expression, the message (`Display`) of the error. The
/// contract claims that both are a function of the text.
#[verifier::external_body]
fn parse_expression(text: &str) -> (r: Result<Vec<String>, String>)
    ensures
        match (r, expression_parse(text@)) {
            (Ok(v), Ok(s)) => strings_view(v@) == s,
            (Err(m), Err(t)) => m@ == t,
            _ => false,
        },
{
    match evalexpr::build_operator_tree::<evalexpr::DefaultNumericTypes>(text) {
        Ok(tree) => Ok(tree.iter_variable_identifiers().map(String::from).collect()),
        Err(e) => Err(e.to_string()),
    }
}

/// Calls `str::parse::<bool>`, which, as its documentation says, reads `true`
/// and `false` and refuses any other text.
#[verifier::external_body]
pub(crate) fn parse_bool(text: &str) -> (r: Result<bool, std::str::ParseBoolError>)
    ensures
        match bool_text(text@) {
            Some(b) => r matches Ok(x) && x == b,
            None => r is Err,
        },
{
    text.parse::<bool>()
}

/// The text of a behavior category.
pub open spec fn category_name(c: BehaviorCategory) -> Seq<char> {
    match c {
        BehaviorCategory::Action => "Action"@,
        BehaviorCategory::Condition => "Condition"@,
        BehaviorCategory::Control => "Control"@,
        BehaviorCategory::Decorator => "Decorator"@,
    }
}

/// The position of the first `c` in `s` from `i` on, if any.
pub open spec fn char_index(s: Seq<char>, c: char, i: int) -> Option<int>
    decreases s.len() - i,
{
    if i < 0 || i >= s.len() {
        None
    } else if s[i] == c {
        Some(i)
    } else {
        char_index(s, c, i + 1)
    }
}

/// The types a variable of an expression may have.
pub open spec fn allowed_variable_type(t: Seq<char>) -> bool {
    t == "int"@ || t == "float"@ || t == "str"@ || t == "bool"@
}

/// The check of the variables of an expression, from the `k`-th on: a variable
/// `{name:type}` must have an allowed type.
pub open spec fn check_variables(vars: Seq<Seq<char>>, k: int) -> Option<ErrorView>
    decreases vars.len() - k,
{
    if k < 0 || k >= vars.len() {
        None
    } else {
        let key = vars[k];
        if key.len() >= 2 && key[0] == '{' && key[key.len() - 1] == '}' {
            let inner = key.subrange(1, key.len() - 1);
            match char_index(inner, ':', 0) {
                None => Some(ErrorView::PortExpressionMissingType(inner)),
                Some(c) => {
                    let name = inner.subrange(0, c);
                    let ty = inner.subrange(c + 1, inner.len() as int);
                    if allowed_variable_type(ty) {
                        check_variables(vars, k + 1)
                    } else {
                        Some(ErrorView::PortExpressionInvalidType(ty, name))
                    }
                },
            }
        } else {
            check_variables(vars, k + 1)
        }
    }
}

/// The position of the first port named `n`, from the `k`-th on.
pub open spec fn port_index(ports: Seq<(Seq<char>, PortView)>, n: Seq<char>, k: int) -> Option<int>
    decreases ports.len() - k,
{
    if k < 0 || k >= ports.len() {
        None
    } else if ports[k].0 == n {
        Some(k)
    } else {
        port_index(ports, n, k + 1)
    }
}

/// The names of the ports.
pub open spec fn port_names(ports: Seq<(Seq<char>, PortView)>) -> Seq<Seq<char>> {
    ports.map_values(|p: (Seq<char>, PortView)| p.0)
}

/// The first attribute, from the `k`-th on, that names no port.
pub open spec fn first_unknown_attribute(
    ports: Seq<(Seq<char>, PortView)>,
    attrs: Seq<(Seq<char>, Seq<char>)>,
    k: int,
) -> Option<Seq<char>>
    decreases attrs.len() - k,
{
    if k < 0 || k >= attrs.len() {
        None
    } else if port_index(ports, attrs[k].0, 0) is None {
        Some(attrs[k].0)
    } else {
        first_unknown_attribute(ports, attrs, k + 1)
    }
}

/// An attribute after the `k`-th has the name `name`.
pub open spec fn named_later(attrs: Seq<(Seq<char>, Seq<char>)>, name: Seq<char>, k: int) -> bool {
    exists|j: int| k < j < attrs.len() && #[trigger] attrs[j].0 == name
}

/// The attributes from the `k`-th on that no later attribute of the same name
/// replaces, in order.
pub open spec fn last_named_from(attrs: Seq<(Seq<char>, Seq<char>)>, k: int) -> Seq<(Seq<char>, Seq<char>)>
    decreases attrs.len() - k,
{
    if k < 0 || k >= attrs.len() {
        Seq::empty()
    } else if named_later(attrs, attrs[k].0, k) {
        last_named_from(attrs, k + 1)
    } else {
        seq![attrs[k]] + last_named_from(attrs, k + 1)
    }
}

/// The attributes of an element as a map from name to value: of several with the
/// same (local) name, the last one stands.
pub open spec fn attribute_map(attrs: Seq<(Seq<char>, Seq<char>)>) -> Seq<(Seq<char>, Seq<char>)> {
    last_named_from(attrs, 0)
}

/// The attributes of an element with one value per name, the last given.
pub fn attribute_map_of(attrs: &Vec<(String, String)>) -> (r: Vec<(String, String)>)
    ensures
        pairs_view(r@) == attribute_map(pairs_view(attrs@)),
{
    let ghost av = pairs_view(attrs@);
    let mut r: Vec<(String, String)> = Vec::new();
    let mut k: usize = 0;
    while k < attrs.len()
        invariant
            k <= attrs@.len(),
            av == pairs_view(attrs@),
            pairs_view(r@) + last_named_from(av, k as int) == attribute_map(av),
        decreases attrs@.len() - k,
    {
        let mut m: usize = k + 1;
        let mut later = false;
        while m < attrs.len()
            invariant
                k < m <= attrs@.len(),
                av == pairs_view(attrs@),
                later ==> named_later(av, av[k as int].0, k as int),
                !later ==> forall|j: int| k < j < m ==> #[trigger] av[j].0 != av[k as int].0,
            decreases attrs@.len() - m,
        {
            assert(av[m as int].0 == attrs@[m as int].0@ && av[k as int].0 == attrs@[k as int].0@);
            if attrs[m].0 == attrs[k].0 {
                later = true;
            }
            m = m + 1;
        }
        let ghost before = pairs_view(r@);
        if !later {
            assert(!named_later(av, av[k as int].0, k as int));
            r.push((attrs[k].0.clone(), attrs[k].1.clone()));
            assert(pairs_view(r@) =~= before.push(av[k as int]));
            assert(pairs_view(r@) + last_named_from(av, k + 1) =~= before + (seq![av[k as int]] + last_named_from(
                av,
                k + 1,
            )));
        } else {
            assert(pairs_view(r@) =~= before);
        }
        k = k + 1;
    }
    assert(pairs_view(r@) + Seq::<(Seq<char>, Seq<char>)>::empty() =~= pairs_view(r@));
    r
}

/// The port values given by the attributes from the `k`-th on, each checked
/// where its port takes an expression, added to `rm`.
pub open spec fn attribute_values(
    ports: Seq<(Seq<char>, PortView)>,
    attrs: Seq<(Seq<char>, Seq<char>)>,
    k: int,
    rm: Seq<(PortDirection, Seq<char>, Seq<char>)>,
) -> Result<Seq<(PortDirection, Seq<char>, Seq<char>)>, ErrorView>
    decreases attrs.len() - k,
{
    if k < 0 || k >= attrs.len() {
        Ok(rm)
    } else {
        let (name, value) = attrs[k];
        match port_index(ports, name, 0) {
            None => attribute_values(ports, attrs, k + 1, rm),
            Some(p) => {
                let port = ports[p].1;
                let checked = if port.parse_expr {
                    match expression_parse(value) {
                        Err(m) => Some(ErrorView::PortExpressionInvalid(m)),
                        Ok(vars) => check_variables(vars, 0),
                    }
                } else {
                    None
                };
                match checked {
                    Some(e) => Err(e),
                    None => attribute_values(ports, attrs, k + 1, rm.push((port.direction, name, value))),
                }
            },
        }
    }
}

/// The default values of the ports from the `k`-th on that are not outputs and
/// have not been given a value, added to `rm` as inputs.
pub open spec fn default_values(
    ports: Seq<(Seq<char>, PortView)>,
    k: int,
    rm: Seq<(PortDirection, Seq<char>, Seq<char>)>,
) -> Seq<(PortDirection, Seq<char>, Seq<char>)>
    decreases ports.len() - k,
{
    if k < 0 || k >= ports.len() {
        rm
    } else {
        let (name, port) = ports[k];
        if port.direction != PortDirection::Output && !has_remapping(rm, port.direction, name)
            && port.default_value is Some {
            default_values(ports, k + 1, rm.push((PortDirection::Input, name, port.default_value->0)))
        } else {
            default_values(ports, k + 1, rm)
        }
    }
}

/// The configuration `cfg` of the behavior `bhvr_name` with the port values its
/// element's attributes give and the default values of its other ports.
pub open spec fn ports_result(
    ports: Seq<(Seq<char>, PortView)>,
    bhvr_name: Seq<char>,
    attrs: Seq<(Seq<char>, Seq<char>)>,
    cfg: ConfigView,
) -> Result<ConfigView, ErrorView> {
    match first_unknown_attribute(ports, attrs, 0) {
        Some(a) => Err(ErrorView::PortInvalid(a, bhvr_name, port_names(ports))),
        None => match attribute_values(ports, attrs, 0, cfg.remappings) {
            Err(e) => Err(e),
            Ok(rm) => Ok(ConfigView { remappings: default_values(ports, 0, rm), ..cfg }),
        },
    }
}

/// The blackboard of a subtree after the attributes, from the `k`-th on, of the
/// element that includes it: `_autoremap` switches automatic remapping, a value
/// `{key}` remaps to the parent's key, another value is set.
pub open spec fn subtree_blackboard(
    bb: BlackboardView,
    attrs: Seq<(Seq<char>, Seq<char>)>,
    k: int,
) -> Result<BlackboardView, ErrorView>
    decreases attrs.len() - k,
{
    if k < 0 || k >= attrs.len() {
        Ok(bb)
    } else {
        let (a, v) = attrs[k];
        if a == "_autoremap"@ {
            match bool_text(v) {
                None => Err(ErrorView::ParseBool),
                Some(b) => subtree_blackboard(
                    BlackboardView { own: LayerView { auto_remapping: b, ..bb.own }, ..bb },
                    attrs,
                    k + 1,
                ),
            }
        } else if !allowed_port_name(a) {
            subtree_blackboard(bb, attrs, k + 1)
        } else {
            match bb_pointer(v) {
                Some(p) => subtree_blackboard(
                    BlackboardView { own: LayerView { remappings: bb.own.remappings.push((a, p)), ..bb.own }, ..bb },
                    attrs,
                    k + 1,
                ),
                None => subtree_blackboard(
                    BlackboardView { own: LayerView { values: set_entry(bb.own.values, a, v), ..bb.own }, ..bb },
                    attrs,
                    k + 1,
                ),
            }
        }
    }
}

} // verus!

verus! {

// ---------------------------------------------------------------------------
// Port values.
// ---------------------------------------------------------------------------

/// The name of a behavior category.
pub fn category_text(c: BehaviorCategory) -> (r: String)
    ensures
        r@ == category_name(c),
{
    match c {
        BehaviorCategory::Action => String::from_str("Action"),
        BehaviorCategory::Condition => String::from_str("Condition"),
        BehaviorCategory::Control => String::from_str("Control"),
        BehaviorCategory::Decorator => String::from_str("Decorator"),
    }
}

/// The position of the first `c` in `v`.
fn find_char(v: &Vec<char>, c: char) -> (r: Option<usize>)
    ensures
        match r {
            Some(i) => char_index(v@, c, 0) == Some(i as int) && i < v@.len(),
            None => char_index(v@, c, 0) is None,
        },
{
    let mut i: usize = 0;
    while i < v.len()
        invariant
            i <= v@.len(),
            char_index(v@, c, 0) == char_index(v@, c, i as int),
        decreases v@.len() - i,
    {
        if v[i] == c {
            return Some(i);
        }
        i = i + 1;
    }
    None
}

/// Whether the text is a type a variable of an expression may have.
fn is_allowed_type(t: &Vec<char>) -> (r: bool)
    ensures
        r == allowed_variable_type(t@),
{
    let int_t = str_chars("int");
    let float_t = str_chars("float");
    let str_t = str_chars("str");
    let bool_t = str_chars("bool");
    same_chars(t, &int_t) || same_chars(t, &float_t) || same_chars(t, &str_t) || same_chars(t, &bool_t)
}

/// Check the variables of an expression: a variable `{name:type}` must have an
/// allowed type.
pub fn variables_check(vars: &Vec<String>) -> (r: Option<Error>)
    ensures
        match r {
            Some(e) => check_variables(strings_view(vars@), 0) == Some(e@),
            None => check_variables(strings_view(vars@), 0) is None,
        },
{
    let ghost sv = strings_view(vars@);
    let mut k: usize = 0;
    while k < vars.len()
        invariant
            k <= vars@.len(),
            sv == strings_view(vars@),
            check_variables(sv, 0) == check_variables(sv, k as int),
        decreases vars@.len() - k,
    {
        let key = str_chars(vars[k].as_str());
        assert(key@ == sv[k as int]);
        let n = key.len();
        if n >= 2 && key[0] == '{' && key[n - 1] == '}' {
            let inner = chars_range(&key, 1, n - 1);
            match find_char(&inner, ':') {
                None => {
                    return Some(Error::PortExpressionMissingType(string_from_chars(&inner)));
                },
                Some(c) => {
                    let name = chars_range(&inner, 0, c);
                    let ty = chars_range(&inner, c + 1, inner.len());
                    if !is_allowed_type(&ty) {
                        return Some(
                            Error::PortExpressionInvalidType(string_from_chars(&ty), string_from_chars(&name)),
                        );
                    }
                },
            }
        }
        k = k + 1;
    }
    None
}

/// The position of the first port named `name`.
fn find_port(ports: &PortList, name: &str) -> (r: Option<usize>)
    ensures
        match r {
            Some(i) => port_index(ports@, name@, 0) == Some(i as int) && i < ports@.len(),
            None => port_index(ports@, name@, 0) is None,
        },
{
    let key = String::from_str(name);
    let mut k: usize = 0;
    while k < ports.ports.len()
        invariant
            k <= ports@.len(),
            key@ == name@,
            port_index(ports@, name@, 0) == port_index(ports@, name@, k as int),
        decreases ports@.len() - k,
    {
        if ports.ports[k].0 == key {
            return Some(k);
        }
        k = k + 1;
    }
    None
}

/// The names of the ports.
fn port_name_list(ports: &PortList) -> (r: Vec<String>)
    ensures
        strings_view(r@) == port_names(ports@),
{
    let mut r: Vec<String> = Vec::new();
    let mut k: usize = 0;
    while k < ports.ports.len()
        invariant
            k <= ports@.len(),
            r@.len() == k,
            forall|j: int| 0 <= j < k ==> #[trigger] r@[j]@ == port_names(ports@)[j],
        decreases ports@.len() - k,
    {
        assert(ports@[k as int] == (ports.ports@[k as int].0@, ports.ports@[k as int].1@));
        assert(port_names(ports@)[k as int] == ports.ports@[k as int].0@);
        r.push(ports.ports[k].0.clone());
        k = k + 1;
    }
    assert(strings_view(r@) =~= port_names(ports@));
    r
}

impl XmlParser {
    /// Give the configuration of the behavior `bhvr_name` the port values that its
    /// element's attributes `attrs` name, checking those that are expressions, and
    /// the default values of its other ports that are not outputs.
    fn add_ports(config: BehaviorConfig, ports: &PortList, bhvr_name: &str, attrs: &Vec<(String, String)>) -> (r:
        Result<BehaviorConfig, Error>)
        ensures
            match (r, ports_result(ports@, bhvr_name@, pairs_view(attrs@), config@)) {
                (Ok(c), Ok(v)) => c@ == v,
                (Err(e), Err(v)) => e@ == v,
                _ => false,
            },
    {
        let ghost av = pairs_view(attrs@);
        let ghost pv = ports@;
        let ghost c0 = config@;
        let mut cfg = config;
        let mut k: usize = 0;
        while k < attrs.len()
            invariant
                k <= attrs@.len(),
                av == pairs_view(attrs@),
                pv == ports@,
                first_unknown_attribute(pv, av, 0) == first_unknown_attribute(pv, av, k as int),
            decreases attrs@.len() - k,
        {
            assert(av[k as int].0 == attrs@[k as int].0@);
            if find_port(ports, attrs[k].0.as_str()).is_none() {
                let names = port_name_list(ports);
                return Err(Error::PortInvalid(attrs[k].0.clone(), String::from_str(bhvr_name), names));
            }
            k = k + 1;
        }
        assert(first_unknown_attribute(pv, av, k as int) is None);
        k = 0;
        while k < attrs.len()
            invariant
                k <= attrs@.len(),
                av == pairs_view(attrs@),
                pv == ports@,
                cfg@.path == c0.path,
                cfg@.blackboard == c0.blackboard,
                cfg@.manifest == c0.manifest,
                attribute_values(pv, av, 0, c0.remappings) == attribute_values(pv, av, k as int, cfg@.remappings),
                first_unknown_attribute(pv, av, 0) is None,
                c0 == config@,
            decreases attrs@.len() - k,
        {
            assert(av[k as int] == (attrs@[k as int].0@, attrs@[k as int].1@));
            match find_port(ports, attrs[k].0.as_str()) {
                None => {},
                Some(p) => {
                    let port = &ports.ports[p].1;
                    assert(pv[p as int].1 == port@);
                    if port.parse_expr {
                        match parse_expression(attrs[k].1.as_str()) {
                            Err(m) => {
                                return Err(Error::PortExpressionInvalid(m));
                            },
                            Ok(vars) => {
                                match variables_check(&vars) {
                                    Some(e) => {
                                        return Err(e);
                                    },
                                    None => {},
                                }
                            },
                        }
                    }
                    cfg.add_port(port.direction, attrs[k].0.clone(), attrs[k].1.clone());
                },
            }
            k = k + 1;
        }
        assert(attribute_values(pv, av, k as int, cfg@.remappings) == Ok::<
            Seq<(PortDirection, Seq<char>, Seq<char>)>,
            ErrorView,
        >(cfg@.remappings));
        let ghost rm1 = cfg@.remappings;
        let mut k: usize = 0;
        while k < ports.ports.len()
            invariant
                k <= ports@.len(),
                av == pairs_view(attrs@),
                pv == ports@,
                cfg@.path == c0.path,
                cfg@.blackboard == c0.blackboard,
                cfg@.manifest == c0.manifest,
                default_values(pv, 0, rm1) == default_values(pv, k as int, cfg@.remappings),
                first_unknown_attribute(pv, av, 0) is None,
                c0 == config@,
                attribute_values(pv, av, 0, c0.remappings) == Ok::<
                    Seq<(PortDirection, Seq<char>, Seq<char>)>,
                    ErrorView,
                >(rm1),
            decreases ports@.len() - k,
        {
            let name = &ports.ports[k].0;
            let port = &ports.ports[k].1;
            assert(pv[k as int] == (name@, port@));
            if port.direction != PortDirection::Output && !cfg.has_port(port.direction, name.as_str()) {
                match &port.default_value {
                    Some(d) => {
                        cfg.add_port(PortDirection::Input, name.clone(), d.clone());
                    },
                    None => {},
                }
            }
            k = k + 1;
        }
        Ok(cfg)
    }
}

} // verus!

verus! {

// ---------------------------------------------------------------------------
// The tree of behaviors an element stands for.
// ---------------------------------------------------------------------------

/// What the building of a tree reads of a factory: the registered names with
/// the positions of their registrations, the registrations, and the subtree
/// definitions.
pub struct BuildContext {
    pub names: Map<Seq<char>, usize>,
    pub entries: Seq<RegistrationView>,
    pub defs: Map<Seq<char>, Seq<char>>,
}

/// What the building of a tree reads of `data`.
pub open spec fn build_context(data: FactoryData) -> BuildContext {
    BuildContext {
        names: data.names@,
        entries: data.entries@.map_values(|r: crate::factory::Registration| r@),
        defs: data.tree_definitions@,
    }
}

/// A behavior to create: the position of its registration, its configuration
/// and its children.
pub struct PlanView {
    pub entry: int,
    pub config: ConfigView,
    pub children: Seq<PlanView>,
}

/// The tree `id` is one of the trees on `path`, whose ids `path` lists
/// separated by `->`.
pub open spec fn on_path(id: Seq<char>, path: Seq<char>) -> bool {
    is_substring("->"@ + id + "->"@, "->"@ + path + "->"@)
}

/// The subtree definitions whose id is not on `path`.
pub open spec fn open_definitions(defs: Map<Seq<char>, Seq<char>>, path: Seq<char>) -> Set<Seq<char>> {
    defs.dom().filter(|id: Seq<char>| !on_path(id, path))
}

/// How many subtrees may still be entered below `path`.
pub open spec fn budget(defs: Map<Seq<char>, Seq<char>>, path: Seq<char>) -> nat {
    open_definitions(defs, path).len()
}

/// The path of a subtree `id` entered from `path`.
pub open spec fn sub_path(path: Seq<char>, id: Seq<char>) -> Seq<char> {
    path + "->"@ + id
}

/// Entering a subtree whose id is not on the path leaves fewer subtrees to
/// enter.
pub proof fn lemma_budget_decreases(defs: Map<Seq<char>, Seq<char>>, path: Seq<char>, id: Seq<char>)
    requires
        defs.dom().finite(),
        defs.contains_key(id),
        !on_path(id, path),
    ensures
        budget(defs, sub_path(path, id)) < budget(defs, path),
{
    reveal_strlit("->");
    let p2 = sub_path(path, id);
    let big = "->"@ + path + "->"@;
    let big2 = "->"@ + p2 + "->"@;
    assert(big2 =~= big + id + "->"@);
    let a = open_definitions(defs, p2);
    let b = open_definitions(defs, path);
    assert forall|x: Seq<char>| a.contains(x) implies b.remove(id).contains(x) by {
        let xs = "->"@ + x + "->"@;
        if on_path(x, path) {
            let i = choose|i: int| occurs_at(big, xs, i);
            assert(big2.subrange(i, i + xs.len()) =~= big.subrange(i, i + xs.len()));
            assert(occurs_at(big2, xs, i));
        }
        if x == id {
            let k: int = path.len() as int + 2;
            assert(big2.subrange(k, k + xs.len()) =~= xs);
            assert(occurs_at(big2, xs, k));
        }
    }
    defs.dom().lemma_len_filter(|id: Seq<char>| !on_path(id, path));
    vstd::set_lib::lemma_len_subset(a, b.remove(id));
}

/// The name an element is looked up by: its `ID` attribute, or its tag name.
pub open spec fn behavior_key(node: XmlNodeView) -> Seq<char> {
    match attr_lookup(plain_attributes(node), "ID"@) {
        Some(id) => id,
        None => node.name,
    }
}

/// The behavior of registration `e` for the element `node`, with its port values
/// and the manifest of the registration.
pub open spec fn plan_with_ports(
    reg: RegistrationView,
    e: int,
    node: XmlNodeView,
    cfg: ConfigView,
    children: Seq<PlanView>,
) -> Result<PlanView, ErrorView> {
    match ports_result(reg.ports, node.name, attribute_map(node.attributes), cfg) {
        Ok(c) => Ok(PlanView { entry: e, config: ConfigView { manifest: Some(registration_manifest(reg)), ..c }, children }),
        Err(x) => Err(x),
    }
}

/// The behavior the element `i` of `nodes` stands for, in a tree with blackboard
/// `bb`, reached through the subtrees `path`.
pub open spec fn plan_child(
    cx: BuildContext,
    nodes: Seq<XmlNodeView>,
    i: int,
    bb: BlackboardView,
    path: Seq<char>,
) -> Result<PlanView, ErrorView>
    decreases budget(cx.defs, path), nodes.len() - i, 2int, 0int,
    when cx.defs.dom().finite()
{
    if i < 0 || i >= nodes.len() {
        Err(ErrorView::NoTreeContent)
    } else {
        let node = nodes[i];
        let key = behavior_key(node);
        if !cx.names.contains_key(key) {
            plan_subtree(cx, nodes, i, bb, path)
        } else {
            let e = cx.names[key] as int;
            let reg = cx.entries[e];
            let cfg = ConfigView { path: path + "->"@ + node.name, blackboard: bb, remappings: Seq::empty(), manifest: None };
            match reg.category {
                BehaviorCategory::Control => match plan_children(cx, nodes, i, 0, bb, path) {
                    Err(x) => Err(x),
                    Ok(ch) => plan_with_ports(reg, e, node, cfg, ch),
                },
                BehaviorCategory::Decorator => match plan_children(cx, nodes, i, 0, bb, path) {
                    Err(x) => Err(x),
                    Ok(ch) => if ch.len() != 1 {
                        Err(ErrorView::DecoratorChildren(node.name))
                    } else {
                        plan_with_ports(reg, e, node, cfg, ch)
                    },
                },
                _ => if children_of(nodes, i).len() > 0 {
                    Err(ErrorView::ChildrenNotAllowed(category_name(reg.category)))
                } else {
                    plan_with_ports(reg, e, node, cfg, Seq::empty())
                },
            }
        }
    }
}

/// The behaviors the element children of element `i`, from its `k`-th child on,
/// stand for.
pub open spec fn plan_children(
    cx: BuildContext,
    nodes: Seq<XmlNodeView>,
    i: int,
    k: int,
    bb: BlackboardView,
    path: Seq<char>,
) -> Result<Seq<PlanView>, ErrorView>
    decreases budget(cx.defs, path), nodes.len() - i, 1int, children_of(nodes, i).len() - k,
    when cx.defs.dom().finite()
{
    let cs = children_of(nodes, i);
    if k < 0 || k >= cs.len() {
        Ok(Seq::empty())
    } else {
        let j = cs[k];
        if j <= i || j >= nodes.len() {
            Ok(Seq::empty())
        } else {
            match nodes[j].kind {
                XmlKind::ProcessingInstruction => Err(ErrorView::UnkownProcessingInstruction),
                XmlKind::Element => match plan_child(cx, nodes, j, bb, path) {
                    Err(x) => Err(x),
                    Ok(p) => match plan_children(cx, nodes, i, k + 1, bb, path) {
                        Err(x) => Err(x),
                        Ok(ps) => Ok(seq![p] + ps),
                    },
                },
                _ => plan_children(cx, nodes, i, k + 1, bb, path),
            }
        }
    }
}

/// The behavior the element `i`, which names no registered behavior, stands for
/// as a subtree: the root of the definition of its `ID`, with a blackboard of its
/// own.
pub open spec fn plan_subtree(
    cx: BuildContext,
    nodes: Seq<XmlNodeView>,
    i: int,
    bb: BlackboardView,
    path: Seq<char>,
) -> Result<PlanView, ErrorView>
    decreases budget(cx.defs, path), nodes.len() - i, 0int, 0int,
    when cx.defs.dom().finite()
{
    if i < 0 || i >= nodes.len() {
        Err(ErrorView::NoTreeContent)
    } else {
        let node = nodes[i];
        match attr_lookup(plain_attributes(node), "ID"@) {
            None => Err(ErrorView::UnknownBehavior(node.name)),
            Some(id) => if !cx.defs.contains_key(id) {
                Err(ErrorView::UnknownBehavior(id))
            } else {
                match xml_parse(cx.defs[id]) {
                    None => Err(ErrorView::RoXmlTree),
                    Some(sub) => match first_element(sub, children_of(sub, 0)) {
                        None => Err(ErrorView::RoXmlTree),
                        Some(r) => if on_path(id, path) {
                            Err(ErrorView::LoopDetected(path, id))
                        } else {
                            match subtree_blackboard(child_blackboard(bb), attribute_map(node.attributes), 0) {
                                Err(x) => Err(x),
                                Ok(bb2) => {
                                    proof {
                                        lemma_budget_decreases(cx.defs, path, id);
                                    }
                                    plan_child(cx, sub, r, bb2, sub_path(path, id))
                                },
                            }
                        },
                    },
                }
            },
        }
    }
}

/// An element whose behavior key (its `ID` attribute, else its tag) is not
/// registered stands for a subtree, built as `plan_subtree` says; one without an
/// `ID` attribute is then refused as an unknown behavior named by its tag. Since
/// `XmlParser::build_child` and `XmlParser::build_subtree` build what these plans
/// say, the child is built exactly as the subtree.
pub proof fn law_unregistered_element_is_subtree(
    cx: BuildContext,
    nodes: Seq<XmlNodeView>,
    i: int,
    bb: BlackboardView,
    path: Seq<char>,
)
    requires
        cx.defs.dom().finite(),
        0 <= i < nodes.len(),
        !cx.names.contains_key(behavior_key(nodes[i])),
    ensures
        plan_child(cx, nodes, i, bb, path) == plan_subtree(cx, nodes, i, bb, path),
        attr_lookup(plain_attributes(nodes[i]), "ID"@) is None ==> plan_child(cx, nodes, i, bb, path) == Err::<
            PlanView,
            ErrorView,
        >(ErrorView::UnknownBehavior(nodes[i].name)),
{
}

} // verus!

verus! {

// ---------------------------------------------------------------------------
// Building the tree of behaviors.
// ---------------------------------------------------------------------------

/// The behavior `b` was made as the plan `p` says, with the registrations
/// `entries`.
pub open spec fn realizes(b: Behavior, p: PlanView, entries: Seq<RegistrationView>) -> bool
    decreases p,
{
    &&& 0 <= p.entry < entries.len()
    &&& created_by(b, entries[p.entry])
    &&& b.data.config@ == p.config
    &&& b.data.children@.len() == p.children.len()
    &&& forall|k: int| 0 <= k < p.children.len() ==> realizes(#[trigger] b.data.children@[k], p.children[k], entries)
}

/// The behaviors `bs` were made as the plans `ps` say.
pub open spec fn all_realize(bs: Seq<Behavior>, ps: Seq<PlanView>, entries: Seq<RegistrationView>) -> bool {
    &&& bs.len() == ps.len()
    &&& forall|k: int| 0 <= k < ps.len() ==> realizes(#[trigger] bs[k], ps[k], entries)
}

/// The outcome `r` of building a behavior is the one `s` says.
pub open spec fn built(r: Result<Behavior, Error>, s: Result<PlanView, ErrorView>, entries: Seq<RegistrationView>) -> bool {
    match (r, s) {
        (Ok(b), Ok(p)) => realizes(b, p, entries),
        (Err(e), Err(x)) => e@ == x,
        _ => false,
    }
}

/// The outcome `r` of building behaviors is the one `s` says.
pub open spec fn built_all(
    r: Result<Vec<Behavior>, Error>,
    s: Result<Seq<PlanView>, ErrorView>,
    entries: Seq<RegistrationView>,
) -> bool {
    match (r, s) {
        (Ok(bs), Ok(ps)) => all_realize(bs@, ps, entries),
        (Err(e), Err(x)) => e@ == x,
        _ => false,
    }
}

/// `ps` followed by the plans of `r`, if it has some.
pub open spec fn prepend(ps: Seq<PlanView>, r: Result<Seq<PlanView>, ErrorView>) -> Result<Seq<PlanView>, ErrorView> {
    match r {
        Ok(qs) => Ok(ps + qs),
        Err(x) => Err(x),
    }
}

/// Whether a name may be given to a port.
pub fn is_allowed_port_name(name: &str) -> (r: bool)
    ensures
        r == allowed_port_name(name@),
{
    let cs = str_chars(name);
    if same_chars(&cs, &str_chars("_autoremap")) {
        return true;
    }
    if cs.len() == 0 {
        return false;
    }
    let c = cs[0];
    let letter = ('a' <= c && c <= 'z') || ('A' <= c && c <= 'Z');
    letter && !same_chars(&cs, &str_chars("name")) && !same_chars(&cs, &str_chars("ID"))
}

/// The key of a blackboard pointer `{key}`, if the value is one.
pub fn strip_bb_pointer(value: &str) -> (r: Option<String>)
    ensures
        match r {
            Some(k) => bb_pointer(value@) == Some(k@),
            None => bb_pointer(value@) is None,
        },
{
    let cs = str_chars(value);
    let n = cs.len();
    if n >= 3 && cs[0] == '{' && cs[n - 1] == '}' {
        let inner = chars_range(&cs, 1, n - 1);
        Some(string_from_chars(&inner))
    } else {
        None
    }
}

/// The blackboard of a subtree after the attributes of the element that
/// includes it.
fn subtree_attributes(bb: Blackboard, attrs: &Vec<(String, String)>) -> (r: Result<Blackboard, Error>)
    ensures
        match (r, subtree_blackboard(bb@, pairs_view(attrs@), 0)) {
            (Ok(b), Ok(v)) => b@ == v,
            (Err(e), Err(x)) => e@ == x,
            _ => false,
        },
{
    let ghost av = pairs_view(attrs@);
    let ghost b0 = bb@;
    let mut cur = bb;
    let autoremap = String::from_str("_autoremap");
    let mut k: usize = 0;
    while k < attrs.len()
        invariant
            k <= attrs@.len(),
            av == pairs_view(attrs@),
            b0 == bb@,
            autoremap@ == "_autoremap"@,
            subtree_blackboard(b0, av, 0) == subtree_blackboard(cur@, av, k as int),
        decreases attrs@.len() - k,
    {
        let a = &attrs[k].0;
        let v = &attrs[k].1;
        assert(av[k as int] == (a@, v@));
        if *a == autoremap {
            match parse_bool(v.as_str()) {
                Err(e) => {
                    return Err(Error::ParseBool(e));
                },
                Ok(b) => {
                    cur.enable_auto_remapping(b);
                },
            }
        } else if is_allowed_port_name(a.as_str()) {
            match strip_bb_pointer(v.as_str()) {
                Some(p) => {
                    cur.add_subtree_remapping(a.clone(), p);
                },
                None => {
                    cur.set(a.clone(), v.clone());
                },
            }
        }
        k = k + 1;
    }
    Ok(cur)
}

impl XmlParser {
    /// The position of the registration of the behavior that element `i` of
    /// `doc` names by its `ID` attribute, or else by its tag name.
    fn find_in_map(doc: &XmlDocument, i: usize, data: &FactoryData) -> (r: Option<usize>)
        requires
            data.wf(),
            i < doc.nodes@.len(),
        ensures
            match r {
                Some(e) => data.names@.contains_key(behavior_key(doc.nodes@[i as int]@)) && data.names@[behavior_key(
                    doc.nodes@[i as int]@,
                )] == e && e < data.entries@.len(),
                None => !data.names@.contains_key(behavior_key(doc.nodes@[i as int]@)),
            },
    {
        let key = match doc.attribute(i, "ID") {
            Some(id) => id,
            None => doc.nodes[i].name.clone(),
        };
        data.names.get(key.as_str())
    }

    /// Build the behavior that element `i` of `doc` stands for, in a tree with this
    /// blackboard, reached through the subtrees `path`.
    pub fn build_child(
        data: &FactoryData,
        doc: &XmlDocument,
        i: usize,
        blackboard: &Blackboard,
        tree_name: &str,
        path: &str,
    ) -> (r: Result<Behavior, Error>)
        requires
            data.wf(),
            well_parsed(nodes_view(doc.nodes@)),
            i < doc.nodes@.len(),
        ensures
            built(r, plan_child(build_context(*data), nodes_view(doc.nodes@), i as int, blackboard@, path@), build_context(*data).entries),
        decreases budget(data.tree_definitions@, path@), doc.nodes@.len() - i, 2int, 0int,
    {
        let ghost cx = build_context(*data);
        let ghost nodes = nodes_view(doc.nodes@);
        let node = &doc.nodes[i];
        assert(nodes[i as int] == node@);
        assert(pairs_view(node.attributes@) =~= node@.attributes);
        match XmlParser::find_in_map(doc, i, data) {
            None => XmlParser::build_subtree(data, doc, i, blackboard, path),
            Some(e) => {
                let reg = &data.entries[e];
                assert(cx.entries[e as int] == reg@);
                let p = concat3(path, "->", node.name.as_str());
                let config = BehaviorConfig::new(blackboard.copy(), p.as_str());
                let attrs = attribute_map_of(&node.attributes);
                match reg.category {
                    BehaviorCategory::Control => {
                        match XmlParser::build_children(data, doc, i, blackboard, tree_name, path) {
                            Err(x) => Err(x),
                            Ok(children) => match XmlParser::add_ports(config, &reg.ports, node.name.as_str(), &attrs) {
                                Err(x) => Err(x),
                                Ok(c) => Ok(data.create(e, c, children)),
                            },
                        }
                    },
                    BehaviorCategory::Decorator => {
                        match XmlParser::build_children(data, doc, i, blackboard, tree_name, path) {
                            Err(x) => Err(x),
                            Ok(children) => {
                                if children.len() != 1 {
                                    Err(Error::DecoratorChildren(node.name.clone()))
                                } else {
                                    match XmlParser::add_ports(config, &reg.ports, node.name.as_str(), &attrs) {
                                        Err(x) => Err(x),
                                        Ok(c) => Ok(data.create(e, c, children)),
                                    }
                                }
                            },
                        }
                    },
                    _ => {
                        if doc.has_children(i) {
                            Err(Error::ChildrenNotAllowed(category_text(reg.category)))
                        } else {
                            match XmlParser::add_ports(config, &reg.ports, node.name.as_str(), &attrs) {
                                Err(x) => Err(x),
                                Ok(c) => {
                                    let b = data.create(e, c, Vec::new());
                                    assert(b.data.children@.len() == 0);
                                    Ok(b)
                                },
                            }
                        }
                    },
                }
            },
        }
    }
}

impl XmlParser {
    /// Build the behaviors that the element children of element `i` stand for.
    pub fn build_children(
        data: &FactoryData,
        doc: &XmlDocument,
        i: usize,
        blackboard: &Blackboard,
        tree_name: &str,
        path: &str,
    ) -> (r: Result<Vec<Behavior>, Error>)
        requires
            data.wf(),
            well_parsed(nodes_view(doc.nodes@)),
            i < doc.nodes@.len(),
        ensures
            built_all(r, plan_children(build_context(*data), nodes_view(doc.nodes@), i as int, 0, blackboard@, path@), build_context(*data).entries),
        decreases budget(data.tree_definitions@, path@), doc.nodes@.len() - i, 1int, 0int,
    {
        let ghost cx = build_context(*data);
        let ghost nodes = nodes_view(doc.nodes@);
        let cs = doc.children(i);
        let mut children: Vec<Behavior> = Vec::new();
        let ghost mut ps: Seq<PlanView> = Seq::empty();
        let mut k: usize = 0;
        assert(ps + plan_children(cx, nodes, i as int, 0, blackboard@, path@)->Ok_0 =~= plan_children(cx, nodes, i as int, 0, blackboard@, path@)->Ok_0);
        while k < cs.len()
            invariant
                data.wf(),
                cx == build_context(*data),
                nodes == nodes_view(doc.nodes@),
                well_parsed(nodes),
                i < nodes.len(),
                cs@.map_values(|x: usize| x as int) == children_of(nodes, i as int),
                forall|m: int| 0 <= m < cs@.len() ==> i < #[trigger] cs@[m] < nodes.len(),
                k <= cs@.len(),
                all_realize(children@, ps, cx.entries),
                plan_children(cx, nodes, i as int, 0, blackboard@, path@) == prepend(
                    ps,
                    plan_children(cx, nodes, i as int, k as int, blackboard@, path@),
                ),
            decreases cs@.len() - k,
        {
            let j = cs[k];
            assert(children_of(nodes, i as int)[k as int] == j as int);
            assert(nodes[j as int] == doc.nodes@[j as int]@);
            match doc.nodes[j].kind {
                XmlKind::ProcessingInstruction => {
                    return Err(Error::UnkownProcessingInstruction);
                },
                XmlKind::Element => {
                    match XmlParser::build_child(data, doc, j, blackboard, tree_name, path) {
                        Err(x) => {
                            return Err(x);
                        },
                        Ok(b) => {
                            let ghost p = plan_child(cx, nodes, j as int, blackboard@, path@)->Ok_0;
                            children.push(b);
                            proof {
                                let rest = plan_children(cx, nodes, i as int, k + 1, blackboard@, path@);
                                if rest is Ok {
                                    assert(ps + (seq![p] + rest->Ok_0) =~= ps.push(p) + rest->Ok_0);
                                }
                                ps = ps.push(p);
                            }
                        },
                    }
                },
                _ => {},
            }
            k = k + 1;
        }
        assert(ps + Seq::<PlanView>::empty() =~= ps);
        Ok(children)
    }
}

impl XmlParser {
    /// Build the behavior that element `i`, which names no registered behavior,
    /// stands for as a subtree.
    pub fn build_subtree(data: &FactoryData, doc: &XmlDocument, i: usize, blackboard: &Blackboard, path: &str) -> (r:
        Result<Behavior, Error>)
        requires
            data.wf(),
            well_parsed(nodes_view(doc.nodes@)),
            i < doc.nodes@.len(),
        ensures
            built(r, plan_subtree(build_context(*data), nodes_view(doc.nodes@), i as int, blackboard@, path@), build_context(*data).entries),
        decreases budget(data.tree_definitions@, path@), doc.nodes@.len() - i, 0int, 0int,
    {
        let ghost nodes = nodes_view(doc.nodes@);
        let node = &doc.nodes[i];
        assert(nodes[i as int] == node@);
        assert(pairs_view(node.attributes@) =~= node@.attributes);
        match doc.attribute(i, "ID") {
            None => Err(Error::UnknownBehavior(node.name.clone())),
            Some(id) => {
                match data.tree_definitions.get(id.as_str()) {
                    None => Err(Error::UnknownBehavior(id)),
                    Some(definition) => {
                        match XmlDocument::parse(definition.as_str()) {
                            Err(e) => Err(Error::RoXmlTree(e)),
                            Ok(sub) => {
                                let root = sub.root_element();
                                let trees = concat3("->", path, "->");
                                let tree = concat3("->", id.as_str(), "->");
                                if contains_str(trees.as_str(), tree.as_str()) {
                                    return Err(Error::LoopDetected(String::from_str(path), id));
                                }
                                let new_path = concat3(path, "->", id.as_str());
                                match subtree_attributes(Blackboard::new(blackboard), &attribute_map_of(&node.attributes)) {
                                    Err(x) => Err(x),
                                    Ok(bb2) => {
                                        proof {
                                            lemma_budget_decreases(data.tree_definitions@, path@, id@);
                                        }
                                        XmlParser::build_child(data, &sub, root, &bb2, id.as_str(), new_path.as_str())
                                    },
                                }
                            },
                        }
                    },
                }
            },
        }
    }
}

} // verus!

verus! {

// ---------------------------------------------------------------------------
// Subtree definitions and whole documents.
// ---------------------------------------------------------------------------

/// The text of the definition of the tree `id` in `source`: what stands between
/// the character after `BehaviorTree ID="id"` and the next `</BehaviorTree`.
pub open spec fn build_instructions(source: Seq<char>, id: Seq<char>) -> Result<Seq<char>, ErrorView> {
    let pattern = "BehaviorTree ID=\""@ + id + "\""@;
    match crate::text::first_occurrence(source, pattern) {
        None => Err(ErrorView::MissingId(id)),
        Some(p) => {
            let start = p + pattern.len() + 1;
            if start > source.len() {
                Err(ErrorView::MissingEndTag("BehaviorTree"@))
            } else {
                match crate::text::first_occurrence(source.subrange(start, source.len() as int), "</BehaviorTree"@) {
                    None => Err(ErrorView::MissingEndTag("BehaviorTree"@)),
                    Some(q) => Ok(source.subrange(start, start + q)),
                }
            }
        },
    }
}

/// The definitions after reading the children `cs` of a document's root element,
/// from the `k`-th on, into `defs`, and the error that stopped the reading.
pub open spec fn read_definitions(
    source: Seq<char>,
    nodes: Seq<XmlNodeView>,
    cs: Seq<int>,
    k: int,
    defs: Map<Seq<char>, Seq<char>>,
) -> (Map<Seq<char>, Seq<char>>, Option<ErrorView>)
    decreases cs.len() - k,
{
    if k < 0 || k >= cs.len() {
        (defs, None)
    } else {
        let j = cs[k];
        if j < 0 || j >= nodes.len() {
            (defs, None)
        } else {
            let node = nodes[j];
            match node.kind {
                XmlKind::ProcessingInstruction => (defs, Some(ErrorView::UnkownProcessingInstruction)),
                XmlKind::Element => if node.name == "TreeNodesModel"@ {
                    read_definitions(source, nodes, cs, k + 1, defs)
                } else if node.name == "BehaviorTree"@ {
                    match attr_lookup(plain_attributes(node), "ID"@) {
                        None => (defs, Some(ErrorView::MissingId(node.name))),
                        Some(id) => match build_instructions(source, id) {
                            Err(x) => (defs, Some(x)),
                            Ok(bi) => read_definitions(source, nodes, cs, k + 1, defs.insert(id, bi)),
                        },
                    }
                } else {
                    (defs, Some(ErrorView::ElementNotSupported(node.name)))
                },
                _ => read_definitions(source, nodes, cs, k + 1, defs),
            }
        }
    }
}

/// What reading a main tree document does: the main tree id it sets, if any,
/// the definitions afterwards, and the behavior built, or the error.
pub struct MainOutcome {
    pub main_id: Option<Seq<char>>,
    pub defs: Map<Seq<char>, Seq<char>>,
    pub result: Result<PlanView, ErrorView>,
}

/// What reading the main tree document `xml` with the factory `cx` and the
/// blackboard `bb` does.
pub open spec fn main_outcome(cx: BuildContext, bb: BlackboardView, xml: Seq<char>) -> MainOutcome {
    match xml_parse(xml) {
        None => MainOutcome { main_id: None, defs: cx.defs, result: Err(ErrorView::RoXmlTree) },
        Some(nodes) => match first_element(nodes, children_of(nodes, 0)) {
            None => MainOutcome { main_id: None, defs: cx.defs, result: Err(ErrorView::RoXmlTree) },
            Some(root) => match attr_lookup(plain_attributes(nodes[root]), "main_tree_to_execute"@) {
                None => MainOutcome { main_id: None, defs: cx.defs, result: Err(ErrorView::NoTreeToExecute) },
                Some(id) => {
                    let (d, err) = read_definitions(xml, nodes, children_of(nodes, root), 0, cx.defs);
                    let result = match err {
                        Some(x) => Err(x),
                        None => if !d.contains_key(id) {
                            Err(ErrorView::UnknownBehavior(id))
                        } else {
                            match xml_parse(d[id]) {
                                None => Err(ErrorView::RoXmlTree),
                                Some(sub) => match first_element(sub, children_of(sub, 0)) {
                                    None => Err(ErrorView::RoXmlTree),
                                    Some(r) => plan_child(BuildContext { defs: d, ..cx }, sub, r, bb, id),
                                },
                            }
                        },
                    };
                    MainOutcome { main_id: Some(id), defs: d, result }
                },
            },
        },
    }
}

/// The checks of the root element `root` of a document that every tree document
/// passes: it is named `root`, and its `BTCPP_format`, if given, is `4`.
pub open spec fn root_check(nodes: Seq<XmlNodeView>, root: int) -> Option<ErrorView> {
    if nodes[root].name != "root"@ {
        Some(ErrorView::RootName)
    } else {
        match attr_lookup(plain_attributes(nodes[root]), "BTCPP_format"@) {
            Some(f) => if f != "4"@ {
                Some(ErrorView::BtCppFormat)
            } else {
                None
            },
            None => None,
        }
    }
}

/// What reading the subtree document `xml` into `defs` does: the definitions
/// afterwards and the error, if any.
pub open spec fn sub_outcome(defs: Map<Seq<char>, Seq<char>>, xml: Seq<char>) -> (
    Map<Seq<char>, Seq<char>>,
    Option<ErrorView>,
) {
    match xml_parse(xml) {
        None => (defs, Some(ErrorView::RoXmlTree)),
        Some(nodes) => match first_element(nodes, children_of(nodes, 0)) {
            None => (defs, Some(ErrorView::RoXmlTree)),
            Some(root) => match root_check(nodes, root) {
                Some(x) => (defs, Some(x)),
                None => if attr_lookup(plain_attributes(nodes[root]), "main_tree_to_execute"@) is Some {
                    (defs, Some(ErrorView::MainTreeNotAllowed))
                } else {
                    read_definitions(xml, nodes, children_of(nodes, root), 0, defs)
                },
            },
        },
    }
}

impl XmlParser {
    /// The text of the definition of the tree `id` in `source`.
    fn get_build_instructions(source: &str, id: &str) -> (r: Result<String, Error>)
        ensures
            match (r, build_instructions(source@, id@)) {
                (Ok(s), Ok(t)) => s@ == t,
                (Err(e), Err(x)) => e@ == x,
                _ => false,
            },
    {
        let src = str_chars(source);
        let pattern = concat3("BehaviorTree ID=\"", id, "\"");
        let pat = str_chars(pattern.as_str());
        match crate::text::find_chars(&src, &pat) {
            None => Err(Error::MissingId(String::from_str(id))),
            Some(p) => {
                proof {
                    crate::text::lemma_first_occurrence(src@, pat@);
                    assert(occurs_at(src@, pat@, p as int));
                }
                let n = src.len();
                let m = pat.len();
                let after = p + m;
                if after >= n {
                    return Err(Error::MissingEndTag(String::from_str("BehaviorTree")));
                }
                let start = after + 1;
                let rest = chars_range(&src, start, src.len());
                let end_tag = str_chars("</BehaviorTree");
                match crate::text::find_chars(&rest, &end_tag) {
                    None => Err(Error::MissingEndTag(String::from_str("BehaviorTree"))),
                    Some(q) => {
                        proof {
                            crate::text::lemma_first_occurrence(rest@, end_tag@);
                            assert(occurs_at(rest@, end_tag@, q as int));
                        }
                        let def = chars_range(&src, start, start + q);
                        Ok(string_from_chars(&def))
                    },
                }
            },
        }
    }
}

} // verus!

verus! {

/// The reader of behavior tree documents.
pub struct XmlParser {}

/// Whether `s` holds the text `t`.
fn is_text(s: &String, t: &str) -> (r: bool)
    ensures
        r == (s@ == t@),
{
    *s == String::from_str(t)
}

impl XmlParser {
    /// Read the subtree definitions among the children of the root element `root`
    /// of `doc` into `data`.
    fn parse_document(doc: &XmlDocument, root: usize, data: &mut FactoryData) -> (r: Result<(), Error>)
        requires
            old(data).wf(),
            well_parsed(nodes_view(doc.nodes@)),
            root < doc.nodes@.len(),
        ensures
            final(data).wf(),
            final(data).names@ == old(data).names@,
            final(data).entries@ == old(data).entries@,
            final(data).main_tree_id == old(data).main_tree_id,
            final(data).tree_definitions@ == read_definitions(
                doc.text@,
                nodes_view(doc.nodes@),
                children_of(nodes_view(doc.nodes@), root as int),
                0,
                old(data).tree_definitions@,
            ).0,
            match read_definitions(
                doc.text@,
                nodes_view(doc.nodes@),
                children_of(nodes_view(doc.nodes@), root as int),
                0,
                old(data).tree_definitions@,
            ).1 {
                Some(x) => r matches Err(e) && e@ == x,
                None => r is Ok,
            },
    {
        let ghost nodes = nodes_view(doc.nodes@);
        let ghost csv = children_of(nodes, root as int);
        let ghost d0 = data.tree_definitions@;
        let cs = doc.children(root);
        let mut k: usize = 0;
        while k < cs.len()
            invariant
                data.wf(),
                data.names@ == old(data).names@,
                data.entries@ == old(data).entries@,
                data.main_tree_id == old(data).main_tree_id,
                d0 == old(data).tree_definitions@,
                nodes == nodes_view(doc.nodes@),
                csv == children_of(nodes, root as int),
                cs@.map_values(|x: usize| x as int) == csv,
                forall|m: int| 0 <= m < cs@.len() ==> root < #[trigger] cs@[m] < nodes.len(),
                k <= cs@.len(),
                read_definitions(doc.text@, nodes, csv, 0, d0) == read_definitions(
                    doc.text@,
                    nodes,
                    csv,
                    k as int,
                    data.tree_definitions@,
                ),
            decreases cs@.len() - k,
        {
            let j = cs[k];
            assert(csv[k as int] == j as int);
            let node = &doc.nodes[j];
            assert(nodes[j as int] == node@);
            match node.kind {
                XmlKind::ProcessingInstruction => {
                    return Err(Error::UnkownProcessingInstruction);
                },
                XmlKind::Element => {
                    if is_text(&node.name, "TreeNodesModel") {
                    } else if is_text(&node.name, "BehaviorTree") {
                        match doc.attribute(j, "ID") {
                            None => {
                                return Err(Error::MissingId(node.name.clone()));
                            },
                            Some(id) => {
                                match XmlParser::get_build_instructions(doc.text.as_str(), id.as_str()) {
                                    Err(x) => {
                                        return Err(x);
                                    },
                                    Ok(bi) => {
                                        data.tree_definitions.insert(id, bi);
                                    },
                                }
                            },
                        }
                    } else {
                        return Err(Error::ElementNotSupported(node.name.clone()));
                    }
                },
                _ => {},
            }
            k = k + 1;
        }
        Ok(())
    }
}

impl XmlParser {
    /// Read the main tree document `xml` into `data` and build its main tree with
    /// this blackboard.
    pub fn parse_main_xml(blackboard: &Blackboard, data: &mut FactoryData, xml: &str) -> (r: Result<Behavior, Error>)
        requires
            old(data).wf(),
        ensures
            final(data).wf(),
            final(data).names@ == old(data).names@,
            final(data).entries@ == old(data).entries@,
            final(data).tree_definitions@ == main_outcome(build_context(*old(data)), blackboard@, xml@).defs,
            match main_outcome(build_context(*old(data)), blackboard@, xml@).main_id {
                Some(id) => final(data).main_tree_id matches Some(s) && s@ == id,
                None => final(data).main_tree_id == old(data).main_tree_id,
            },
            built(r, main_outcome(build_context(*old(data)), blackboard@, xml@).result, build_context(*old(data)).entries),
    {
        let ghost cx = build_context(*data);
        match XmlDocument::parse(xml) {
            Err(e) => Err(Error::RoXmlTree(e)),
            Ok(doc) => {
                let root = doc.root_element();
                assert(nodes_view(doc.nodes@)[root as int] == doc.nodes@[root as int]@);
                match doc.attribute(root, "main_tree_to_execute") {
                    None => Err(Error::NoTreeToExecute),
                    Some(id) => {
                        data.main_tree_id = Some(id.clone());
                        match XmlParser::parse_document(&doc, root, data) {
                            Err(x) => Err(x),
                            Ok(()) => {
                                match data.tree_definitions.get(id.as_str()) {
                                    None => Err(Error::UnknownBehavior(id)),
                                    Some(definition) => {
                                        match XmlDocument::parse(definition.as_str()) {
                                            Err(e) => Err(Error::RoXmlTree(e)),
                                            Ok(sub) => {
                                                let main_root = sub.root_element();
                                                assert(build_context(*data) == BuildContext {
                                                    defs: data.tree_definitions@,
                                                    ..cx
                                                });
                                                XmlParser::build_child(data, &sub, main_root, blackboard, id.as_str(), id.as_str())
                                            },
                                        }
                                    },
                                }
                            },
                        }
                    },
                }
            },
        }
    }
}

impl XmlParser {
    /// Read the subtree document `xml` into `data`.
    pub fn parse_sub_xml(_blackboard: &Blackboard, data: &mut FactoryData, xml: &str) -> (r: Result<(), Error>)
        requires
            old(data).wf(),
        ensures
            final(data).wf(),
            final(data).names@ == old(data).names@,
            final(data).entries@ == old(data).entries@,
            final(data).main_tree_id == old(data).main_tree_id,
            final(data).tree_definitions@ == sub_outcome(old(data).tree_definitions@, xml@).0,
            match sub_outcome(old(data).tree_definitions@, xml@).1 {
                Some(x) => r matches Err(e) && e@ == x,
                None => r is Ok,
            },
    {
        match XmlDocument::parse(xml) {
            Err(e) => Err(Error::RoXmlTree(e)),
            Ok(doc) => {
                let root = doc.root_element();
                assert(nodes_view(doc.nodes@)[root as int] == doc.nodes@[root as int]@);
                if !is_text(&doc.nodes[root].name, "root") {
                    return Err(Error::RootName);
                }
                match doc.attribute(root, "BTCPP_format") {
                    Some(f) => {
                        if !is_text(&f, "4") {
                            return Err(Error::BtCppFormat);
                        }
                    },
                    None => {},
                }
                match doc.attribute(root, "main_tree_to_execute") {
                    Some(_) => Err(Error::MainTreeNotAllowed),
                    None => XmlParser::parse_document(&doc, root, data),
                }
            },
        }
    }
}

} // verus!

verus! {

// ---------------------------------------------------------------------------
// Laws of building.
// ---------------------------------------------------------------------------

/// Every behavior of the plan has as many children as its category allows:
/// none for actions and conditions, one for decorators.
pub open spec fn well_shaped(p: PlanView, entries: Seq<RegistrationView>) -> bool
    decreases p,
{
    &&& (entries[p.entry].category == BehaviorCategory::Decorator ==> p.children.len() == 1)
    &&& (entries[p.entry].category == BehaviorCategory::Action ==> p.children.len() == 0)
    &&& (entries[p.entry].category == BehaviorCategory::Condition ==> p.children.len() == 0)
    &&& forall|k: int| 0 <= k < p.children.len() ==> well_shaped(#[trigger] p.children[k], entries)
}

/// Each of the plans, if there are plans, is well shaped.
pub open spec fn all_shaped(r: Result<Seq<PlanView>, ErrorView>, entries: Seq<RegistrationView>) -> bool {
    match r {
        Ok(ps) => forall|m: int| 0 <= m < ps.len() ==> well_shaped(#[trigger] ps[m], entries),
        Err(_) => true,
    }
}

/// A built behavior, and each of its descendants, has as many children as its
/// category allows: none for actions and conditions, one for decorators.
pub proof fn law_built_trees_are_well_shaped(
    cx: BuildContext,
    nodes: Seq<XmlNodeView>,
    i: int,
    bb: BlackboardView,
    path: Seq<char>,
)
    requires
        cx.defs.dom().finite(),
    ensures
        plan_child(cx, nodes, i, bb, path) matches Ok(p) ==> well_shaped(p, cx.entries),
        plan_subtree(cx, nodes, i, bb, path) matches Ok(p) ==> well_shaped(p, cx.entries),
        forall|k: int| all_shaped(#[trigger] plan_children(cx, nodes, i, k, bb, path), cx.entries),
    decreases budget(cx.defs, path), nodes.len() - i, 3int,
{
    lemma_children_shaped(cx, nodes, i, bb, path);
    if 0 <= i < nodes.len() {
        let node = nodes[i];
        let key = behavior_key(node);
        if cx.names.contains_key(key) {
            let e = cx.names[key] as int;
            let reg = cx.entries[e];
            if let Ok(p) = plan_child(cx, nodes, i, bb, path) {
                assert(p.entry == e);
                assert(all_shaped(plan_children(cx, nodes, i, 0, bb, path), cx.entries));
                match reg.category {
                    BehaviorCategory::Control | BehaviorCategory::Decorator => {
                        assert(p.children == plan_children(cx, nodes, i, 0, bb, path)->Ok_0);
                    },
                    _ => {
                        assert(p.children.len() == 0);
                    },
                }
                assert(well_shaped(p, cx.entries));
            }
        }
        match attr_lookup(plain_attributes(node), "ID"@) {
            Some(id) => if cx.defs.contains_key(id) {
                match xml_parse(cx.defs[id]) {
                    Some(sub) => match first_element(sub, children_of(sub, 0)) {
                        Some(r) => if !on_path(id, path) {
                            match subtree_blackboard(child_blackboard(bb), attribute_map(node.attributes), 0) {
                                Ok(bb2) => {
                                    lemma_budget_decreases(cx.defs, path, id);
                                    law_built_trees_are_well_shaped(cx, sub, r, bb2, sub_path(path, id));
                                },
                                Err(_) => {},
                            }
                        },
                        None => {},
                    },
                    None => {},
                }
            },
            None => {},
        }
    }
}

proof fn lemma_children_shaped(cx: BuildContext, nodes: Seq<XmlNodeView>, i: int, bb: BlackboardView, path: Seq<char>)
    requires
        cx.defs.dom().finite(),
    ensures
        forall|k: int| all_shaped(#[trigger] plan_children(cx, nodes, i, k, bb, path), cx.entries),
    decreases budget(cx.defs, path), nodes.len() - i, 2int,
{
    assert forall|k: int| all_shaped(#[trigger] plan_children(cx, nodes, i, k, bb, path), cx.entries) by {
        lemma_children_shaped_from(cx, nodes, i, k, bb, path);
    }
}

proof fn lemma_children_shaped_from(
    cx: BuildContext,
    nodes: Seq<XmlNodeView>,
    i: int,
    k: int,
    bb: BlackboardView,
    path: Seq<char>,
)
    requires
        cx.defs.dom().finite(),
    ensures
        all_shaped(plan_children(cx, nodes, i, k, bb, path), cx.entries),
    decreases budget(cx.defs, path), nodes.len() - i, 1int, children_of(nodes, i).len() - k,
{
    let cs = children_of(nodes, i);
    if 0 <= k < cs.len() {
        let j = cs[k];
        if i < j < nodes.len() {
            if nodes[j].kind != XmlKind::ProcessingInstruction {
                lemma_children_shaped_from(cx, nodes, i, k + 1, bb, path);
            }
            if nodes[j].kind == XmlKind::Element {
                law_built_trees_are_well_shaped(cx, nodes, j, bb, path);
                match plan_children(cx, nodes, i, k, bb, path) {
                    Ok(ps) => {
                        let p = plan_child(cx, nodes, j, bb, path)->Ok_0;
                        let rest = plan_children(cx, nodes, i, k + 1, bb, path)->Ok_0;
                        assert(ps == seq![p] + rest);
                        assert forall|m: int| 0 <= m < ps.len() implies well_shaped(#[trigger] ps[m], cx.entries) by {
                            if m > 0 {
                                assert(ps[m] == rest[m - 1]);
                            }
                        }
                    },
                    Err(_) => {},
                }
            }
        }
    }
}

} // verus!
