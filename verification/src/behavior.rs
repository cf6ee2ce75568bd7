//! Behaviors: the data every node of a tree carries, its configuration and ports.

use vstd::prelude::*;
use vstd::string::*;
use crate::status::BehaviorStatus;
use crate::blackboard::{key_index, pairs_view, Blackboard, BlackboardView};
use crate::xml_parser::{bb_pointer, bool_text, parse_bool, strip_bb_pointer};
use crate::step::{BehaviorError, BehaviorErrorView};
use crate::text::{concat3, str_chars};
use crate::control::fallback::Fallback;
use crate::control::if_then_else::IfThenElse;
use crate::control::parallel::Parallel;
use crate::control::parallel_all::ParallelAll;
use crate::control::reactive_fallback::ReactiveFallback;
use crate::control::reactive_sequence::ReactiveSequence;
use crate::control::sequence::Sequence;
use crate::control::sequence_with_memory::SequenceWithMemory;
use crate::control::while_do_else::WhileDoElse;
use crate::decorator::force_failure::ForceFailure;
use crate::decorator::force_success::ForceSuccess;
use crate::decorator::inverter::Inverter;
use crate::decorator::keep_running_until_failure::KeepRunningUntilFailure;
use crate::decorator::repeat::Repeat;
use crate::decorator::retry::Retry;
use crate::decorator::retry_until_successful::RetryUntilSuccessful;
use crate::decorator::run_once::RunOnce;

verus! {

/// How a behavior runs.
#[derive(Clone, Copy, Debug, PartialEq, Eq, Structural)]
pub enum BehaviorType {
    Action,
    Condition,
    Control,
    Decorator,
    SyncAction,
    SyncControl,
    SyncDecorator,
}

/// What a behavior is, as far as the tree structure goes.
#[derive(Clone, Copy, Debug, PartialEq, Eq, Structural)]
pub enum BehaviorCategory {
    Action,
    Condition,
    Control,
    Decorator,
}

/// The direction of a port.
#[derive(Clone, Copy, Debug, PartialEq, Eq, Structural)]
pub enum PortDirection {
    Input,
    Output,
    InOut,
}

/// A port of a behavior.
#[derive(Debug)]
pub struct Port {
    /// the direction of the port
    pub direction: PortDirection,
    /// the default value, as text
    pub default_value: Option<String>,
    /// a description
    pub description: String,
    /// whether a value given to the port is an expression to be checked
    pub parse_expr: bool,
}

/// The value of a [`Port`].
pub struct PortView {
    pub direction: PortDirection,
    pub default_value: Option<Seq<char>>,
    pub description: Seq<char>,
    pub parse_expr: bool,
}

impl View for Port {
    type V = PortView;

    open spec fn view(&self) -> PortView {
        PortView {
            direction: self.direction,
            default_value: match self.default_value {
                Some(d) => Some(d@),
                None => None,
            },
            description: self.description@,
            parse_expr: self.parse_expr,
        }
    }
}

/// The ports of a behavior, by name.
#[derive(Debug)]
pub struct PortList {
    /// the ports with their names
    pub ports: Vec<(String, Port)>,
}

impl View for PortList {
    type V = Seq<(Seq<char>, PortView)>;

    open spec fn view(&self) -> Seq<(Seq<char>, PortView)> {
        self.ports@.map_values(|p: (String, Port)| (p.0@, p.1@))
    }
}

impl PortList {
    /// An empty list.
    pub fn new() -> (r: Self)
        ensures
            r.ports@.len() == 0,
            r@ == Seq::<(Seq<char>, PortView)>::empty(),
    {
        let r = PortList { ports: Vec::new() };
        assert(r@ =~= Seq::<(Seq<char>, PortView)>::empty());
        r
    }

    /// Add a port.
    pub fn insert(&mut self, name: &str, port: Port)
        ensures
            final(self).ports@.len() == old(self).ports@.len() + 1,
            forall|i: int| 0 <= i < old(self).ports@.len() ==> final(self).ports@[i] == old(self).ports@[i],
            final(self).ports@.last().0@ == name@,
            final(self).ports@.last().1 == port,
    {
        self.ports.push((String::from_str(name), port));
    }
}

/// An input port with the given default value and description.
pub fn input_port(default_value: Option<&str>, description: &str) -> (r: Port)
    ensures
        r.direction == PortDirection::Input,
        !r.parse_expr,
        match default_value {
            Some(d) => r.default_value is Some && r.default_value->0@ == d@,
            None => r.default_value is None,
        },
        r.description@ == description@,
{
    let d = match default_value {
        Some(d) => Some(String::from_str(d)),
        None => None,
    };
    Port {
        direction: PortDirection::Input,
        default_value: d,
        description: String::from_str(description),
        parse_expr: false,
    }
}

/// An output port with the given description.
pub fn output_port(description: &str) -> (r: Port)
    ensures
        r.direction == PortDirection::Output,
        r.default_value is None,
        !r.parse_expr,
        r.description@ == description@,
{
    Port {
        direction: PortDirection::Output,
        default_value: None,
        description: String::from_str(description),
        parse_expr: false,
    }
}

/// The port `p` has this name, direction, default value and description.
pub open spec fn port_is(
    p: (String, Port),
    name: Seq<char>,
    direction: PortDirection,
    default_value: Option<Seq<char>>,
    description: Seq<char>,
) -> bool {
    &&& p.0@ == name
    &&& p.1.direction == direction
    &&& match default_value {
        Some(d) => p.1.default_value is Some && p.1.default_value->0@ == d,
        None => p.1.default_value is None,
    }
    &&& p.1.description@ == description
    &&& !p.1.parse_expr
}

impl PortList {
    /// A list with the same ports.
    pub fn duplicate(&self) -> (r: PortList)
        ensures
            r@ == self@,
    {
        let mut ports: Vec<(String, Port)> = Vec::new();
        let mut i: usize = 0;
        while i < self.ports.len()
            invariant
                i <= self.ports@.len(),
                ports@.len() == i,
                forall|j: int| 0 <= j < i ==> (#[trigger] ports@[j].0@, ports@[j].1@) == (
                    self.ports@[j].0@,
                    self.ports@[j].1@,
                ),
            decreases self.ports@.len() - i,
        {
            let (name, port) = &self.ports[i];
            let default_value = match &port.default_value {
                Some(d) => Some(d.clone()),
                None => None,
            };
            let copy = Port {
                direction: port.direction,
                default_value,
                description: port.description.clone(),
                parse_expr: port.parse_expr,
            };
            ports.push((name.clone(), copy));
            i = i + 1;
        }
        let r = PortList { ports };
        assert(r@ =~= self@);
        r
    }
}

/// What the registration of a behavior says of it: its category, the name it
/// is registered under, its ports and a description.
#[derive(Debug)]
pub struct BehaviorManifest {
    /// the category
    pub bhvr_category: BehaviorCategory,
    /// the name of the registration
    pub registration_id: String,
    /// the ports
    pub ports: PortList,
    /// a description
    pub description: String,
}

/// The value of a [`BehaviorManifest`].
pub struct ManifestView {
    pub bhvr_category: BehaviorCategory,
    pub registration_id: Seq<char>,
    pub ports: Seq<(Seq<char>, PortView)>,
    pub description: Seq<char>,
}

impl View for BehaviorManifest {
    type V = ManifestView;

    open spec fn view(&self) -> ManifestView {
        ManifestView {
            bhvr_category: self.bhvr_category,
            registration_id: self.registration_id@,
            ports: self.ports@,
            description: self.description@,
        }
    }
}

/// The configuration of a behavior: where it stands in the tree, its blackboard,
/// the values given to its ports and, once created by a factory, the manifest
/// of its registration.
#[derive(Debug)]
pub struct BehaviorConfig {
    /// the path of the behavior in the tree
    pub path: String,
    /// the blackboard of its tree
    pub blackboard: Blackboard,
    /// the ports given a value: direction, name and value
    pub remappings: Vec<(PortDirection, String, String)>,
    /// the manifest of the behavior's registration
    pub manifest: Option<BehaviorManifest>,
}

/// The value of a [`BehaviorConfig`].
pub struct ConfigView {
    pub path: Seq<char>,
    pub blackboard: BlackboardView,
    pub remappings: Seq<(PortDirection, Seq<char>, Seq<char>)>,
    pub manifest: Option<ManifestView>,
}

impl View for BehaviorConfig {
    type V = ConfigView;

    open spec fn view(&self) -> ConfigView {
        ConfigView {
            path: self.path@,
            blackboard: self.blackboard@,
            remappings: self.remappings@.map_values(|p: (PortDirection, String, String)| (p.0, p.1@, p.2@)),
            manifest: match self.manifest {
                Some(m) => Some(m@),
                None => None,
            },
        }
    }
}

/// A port of this direction and name has been given a value.
pub open spec fn has_remapping(
    remappings: Seq<(PortDirection, Seq<char>, Seq<char>)>,
    direction: PortDirection,
    name: Seq<char>,
) -> bool {
    exists|i: int| 0 <= i < remappings.len() && #[trigger] remappings[i].0 == direction && remappings[i].1 == name
}

/// The position of the first value given, from the `i`-th on, to a port named
/// `name` that is not an output.
pub open spec fn input_index(remappings: Seq<(PortDirection, Seq<char>, Seq<char>)>, name: Seq<char>, i: int) -> Option<
    int,
>
    decreases remappings.len() - i,
{
    if i < 0 || i >= remappings.len() {
        None
    } else if remappings[i].0 != PortDirection::Output && remappings[i].1 == name {
        Some(i)
    } else {
        input_index(remappings, name, i + 1)
    }
}

/// The value of the input port `name`: the value given to it, or, for a
/// blackboard pointer `{key}`, the value of `key` on the blackboard's own level.
pub open spec fn input_value(cfg: ConfigView, name: Seq<char>) -> Option<Seq<char>> {
    match input_index(cfg.remappings, name, 0) {
        None => None,
        Some(i) => {
            let v = cfg.remappings[i].2;
            match bb_pointer(v) {
                None => Some(v),
                Some(key) => match key_index(cfg.blackboard.own.values, key, 0) {
                    Some(j) => Some(cfg.blackboard.own.values[j].1),
                    None => None,
                },
            }
        },
    }
}

/// The error for an input port without a usable value.
pub open spec fn port_error(name: Seq<char>) -> BehaviorErrorView {
    BehaviorErrorView::NodeStructure("missing or invalid port ["@ + name + "]"@)
}

/// Whether `c` is an ASCII decimal digit.
pub open spec fn is_digit(c: char) -> bool {
    '0' <= c && c <= '9'
}

/// The number that the decimal digits `s` write.
pub open spec fn digits_value(s: Seq<char>) -> int
    decreases s.len(),
{
    if s.len() == 0 {
        0
    } else {
        digits_value(s.drop_last()) * 10 + (s.last() as int - '0' as int)
    }
}

/// One or more decimal digits.
pub open spec fn all_digits(s: Seq<char>) -> bool {
    s.len() > 0 && forall|i: int| 0 <= i < s.len() ==> is_digit(#[trigger] s[i])
}

/// The integer the text `s` writes: an optional `+` or `-` followed by decimal
/// digits only.
pub open spec fn int_text(s: Seq<char>) -> Option<int> {
    if s.len() > 0 && s[0] == '-' && all_digits(s.drop_first()) {
        Some(-digits_value(s.drop_first()))
    } else if s.len() > 0 && s[0] == '+' && all_digits(s.drop_first()) {
        Some(digits_value(s.drop_first()))
    } else if all_digits(s) {
        Some(digits_value(s))
    } else {
        None
    }
}

/// The `i32` the text `s` writes, if it writes one in range.
pub open spec fn i32_text(s: Seq<char>) -> Option<i32> {
    match int_text(s) {
        Some(v) => if i32::MIN <= v && v <= i32::MAX {
            Some(v as i32)
        } else {
            None
        },
        None => None,
    }
}

/// The `i32` that the text writes, read as `str::parse::<i32>` reads it: an
/// optional `+` or `-` sign followed by decimal digits only, in range.
pub fn parse_i32(text: &str) -> (r: Option<i32>)
    ensures
        r == i32_text(text@),
{
    let cs = str_chars(text);
    let n = cs.len();
    let mut start: usize = 0;
    let mut neg = false;
    if n > 0 && (cs[0] == '-' || cs[0] == '+') {
        neg = cs[0] == '-';
        start = 1;
    }
    if start >= n {
        return None;
    }
    let mut acc: i64 = 0;
    let mut big = false;
    let mut i: usize = start;
    assert(cs@.subrange(start as int, start as int) =~= Seq::<char>::empty());
    while i < n
        invariant
            start <= i <= n,
            start <= 1,
            n == cs@.len(),
            cs@ == text@,
            start == 0 ==> !(cs@[0] == '-' || cs@[0] == '+'),
            start == 1 ==> (cs@[0] == '-' || cs@[0] == '+') && neg == (cs@[0] == '-'),
            forall|j: int| start <= j < i ==> is_digit(#[trigger] cs@[j]),
            big ==> digits_value(cs@.subrange(start as int, i as int)) > 2147483648,
            !big ==> acc == digits_value(cs@.subrange(start as int, i as int)) && 0 <= acc <= 2147483648,
        decreases n - i,
    {
        let c = cs[i];
        if !('0' <= c && c <= '9') {
            proof {
                let s = text@;
                assert(!is_digit(s[i as int]));
                if start == 1 {
                    assert(s.drop_first()[i - 1] == s[i as int]);
                } else {
                    assert(!(s[0] == '-' || s[0] == '+'));
                }
            }
            return None;
        }
        let ghost prev = cs@.subrange(start as int, i as int);
        assert(cs@.subrange(start as int, i + 1).drop_last() =~= prev);
        assert(cs@.subrange(start as int, i + 1).last() == c);
        let d = (c as u32 - '0' as u32) as i64;
        if !big {
            let next = acc * 10 + d;
            if next > 2147483648 {
                big = true;
            } else {
                acc = next;
            }
        }
        i = i + 1;
    }
    proof {
        let s = text@;
        let digits = cs@.subrange(start as int, n as int);
        assert(all_digits(digits));
        if start == 1 {
            assert(digits =~= s.drop_first());
        } else {
            assert(digits =~= s);
        }
    }
    if big {
        None
    } else if neg {
        Some((-acc) as i32)
    } else if acc <= 2147483647 {
        Some(acc as i32)
    } else {
        None
    }
}

impl BehaviorConfig {
    /// The value of the input port `name`: the value given to it, or, for a
    /// blackboard pointer `{key}`, the value of `key` on the blackboard's own
    /// level.
    pub fn input(&self, name: &str) -> (r: Option<String>)
        ensures
            match r {
                Some(v) => input_value(self@, name@) == Some(v@),
                None => input_value(self@, name@) is None,
            },
    {
        let key = String::from_str(name);
        let mut i: usize = 0;
        while i < self.remappings.len()
            invariant
                i <= self.remappings@.len(),
                key@ == name@,
                input_index(self@.remappings, name@, 0) == input_index(self@.remappings, name@, i as int),
            decreases self.remappings@.len() - i,
        {
            assert(self@.remappings[i as int] == (self.remappings@[i as int].0, self.remappings@[i as int].1@, self.remappings@[i as int].2@));
            if self.remappings[i].0 != PortDirection::Output && self.remappings[i].1 == key {
                let v = &self.remappings[i].2;
                assert(input_index(self@.remappings, name@, i as int) == Some(i as int));
                return match strip_bb_pointer(v.as_str()) {
                    None => Some(v.clone()),
                    Some(k) => {
                        let values = &self.blackboard.own.values;
                        let ghost vv = pairs_view(values@);
                        let mut j: usize = 0;
                        while j < values.len()
                            invariant
                                j <= values@.len(),
                                vv == pairs_view(values@),
                                vv == self@.blackboard.own.values,
                                key_index(vv, k@, 0) == key_index(vv, k@, j as int),
                                i < self@.remappings.len(),
                                input_index(self@.remappings, name@, 0) == Some(i as int),
                                bb_pointer(self@.remappings[i as int].2) == Some(k@),
                            decreases values@.len() - j,
                        {
                            assert(vv[j as int] == (values@[j as int].0@, values@[j as int].1@));
                            if values[j].0 == k {
                                return Some(values[j].1.clone());
                            }
                            j = j + 1;
                        }
                        None
                    },
                };
            }
            i = i + 1;
        }
        None
    }

    /// The value of the input port `name` read as an `i32`; an error when the
    /// port has no value or its text is no `i32`.
    pub fn input_i32(&self, name: &str) -> (r: Result<i32, BehaviorError>)
        ensures
            match input_value(self@, name@) {
                Some(v) => match i32_text(v) {
                    Some(x) => r == Ok::<i32, BehaviorError>(x),
                    None => r matches Err(e) && e@ == port_error(name@),
                },
                None => r matches Err(e) && e@ == port_error(name@),
            },
    {
        match self.input(name) {
            Some(v) => match parse_i32(v.as_str()) {
                Some(x) => Ok(x),
                None => Err(BehaviorError::NodeStructure(concat3("missing or invalid port [", name, "]"))),
            },
            None => Err(BehaviorError::NodeStructure(concat3("missing or invalid port [", name, "]"))),
        }
    }

    /// The value of the input port `name` read as a `bool`; an error when the
    /// port has no value or its text is neither `true` nor `false`.
    pub fn input_bool(&self, name: &str) -> (r: Result<bool, BehaviorError>)
        ensures
            match input_value(self@, name@) {
                Some(v) => match bool_text(v) {
                    Some(x) => r == Ok::<bool, BehaviorError>(x),
                    None => r matches Err(e) && e@ == port_error(name@),
                },
                None => r matches Err(e) && e@ == port_error(name@),
            },
    {
        match self.input(name) {
            Some(v) => match parse_bool(v.as_str()) {
                Ok(x) => Ok(x),
                Err(_) => Err(BehaviorError::NodeStructure(concat3("missing or invalid port [", name, "]"))),
            },
            None => Err(BehaviorError::NodeStructure(concat3("missing or invalid port [", name, "]"))),
        }
    }

    /// A configuration for the behavior at `path` using `blackboard`, with no
    /// port values.
    pub fn new(blackboard: Blackboard, path: &str) -> (r: Self)
        ensures
            r@ == (ConfigView { path: path@, blackboard: blackboard@, remappings: Seq::empty(), manifest: None }),
    {
        let r = BehaviorConfig { path: String::from_str(path), blackboard, remappings: Vec::new(), manifest: None };
        assert(r@.remappings =~= Seq::<(PortDirection, Seq<char>, Seq<char>)>::empty());
        r
    }

    /// Give the configuration the manifest `manifest`.
    pub fn set_manifest(&mut self, manifest: BehaviorManifest)
        ensures
            final(self)@ == (ConfigView { manifest: Some(manifest@), ..old(self)@ }),
    {
        self.manifest = Some(manifest);
    }

    /// Give the port `name` of this direction the value `value`.
    pub fn add_port(&mut self, direction: PortDirection, name: String, value: String)
        ensures
            final(self)@ == (ConfigView {
                remappings: old(self)@.remappings.push((direction, name@, value@)),
                ..old(self)@
            }),
    {
        let ghost before = self@.remappings;
        self.remappings.push((direction, name, value));
        assert(self@.remappings =~= before.push((direction, name@, value@)));
    }

    /// Whether the port `name` of this direction has been given a value.
    pub fn has_port(&self, direction: PortDirection, name: &str) -> (r: bool)
        ensures
            r == has_remapping(self@.remappings, direction, name@),
    {
        let key = String::from_str(name);
        let mut i: usize = 0;
        while i < self.remappings.len()
            invariant
                i <= self.remappings@.len(),
                key@ == name@,
                forall|j: int| 0 <= j < i ==> !(#[trigger] self@.remappings[j].0 == direction && self@.remappings[j].1
                    == name@),
            decreases self.remappings@.len() - i,
        {
            if self.remappings[i].0 == direction && self.remappings[i].1 == key {
                assert(self@.remappings[i as int].0 == direction && self@.remappings[i as int].1 == name@);
                return true;
            }
            i = i + 1;
        }
        false
    }
}

/// The node-specific part of a behavior.
pub enum NodeContext {
    IfThenElse(IfThenElse),
    Fallback(Fallback),
    ReactiveFallback(ReactiveFallback),
    Parallel(Parallel),
    ParallelAll(ParallelAll),
    Sequence(Sequence),
    SequenceWithMemory(SequenceWithMemory),
    ReactiveSequence(ReactiveSequence),
    WhileDoElse(WhileDoElse),
    ForceFailure(ForceFailure),
    ForceSuccess(ForceSuccess),
    Inverter(Inverter),
    KeepRunningUntilFailure(KeepRunningUntilFailure),
    Repeat(Repeat),
    Retry(Retry),
    RetryUntilSuccessful(RetryUntilSuccessful),
    RunOnce(RunOnce),
    /// a behavior registered by the user, whose logic lives outside the library,
    /// with the number it was registered under
    Custom(u64),
}

/// The data every behavior carries.
pub struct BehaviorData {
    /// the name of this instance
    pub name: String,
    /// the name of the behavior type
    pub type_str: String,
    /// how the behavior runs
    pub bhvr_type: BehaviorType,
    /// what the behavior is
    pub bhvr_category: BehaviorCategory,
    /// its configuration
    pub config: BehaviorConfig,
    /// its current status
    pub status: BehaviorStatus,
    /// its children
    pub children: Vec<Behavior>,
}

/// A behavior: its data and its node-specific part.
pub struct Behavior {
    /// the data
    pub data: BehaviorData,
    /// the node-specific part
    pub context: NodeContext,
}

/// The category that goes with a behavior type.
pub open spec fn type_category(t: BehaviorType) -> BehaviorCategory {
    match t {
        BehaviorType::Action | BehaviorType::SyncAction => BehaviorCategory::Action,
        BehaviorType::Condition => BehaviorCategory::Condition,
        BehaviorType::Control | BehaviorType::SyncControl => BehaviorCategory::Control,
        BehaviorType::Decorator | BehaviorType::SyncDecorator => BehaviorCategory::Decorator,
    }
}

/// The category that goes with a behavior type.
pub fn category_of(t: BehaviorType) -> (r: BehaviorCategory)
    ensures
        r == type_category(t),
{
    match t {
        BehaviorType::Action | BehaviorType::SyncAction => BehaviorCategory::Action,
        BehaviorType::Condition => BehaviorCategory::Condition,
        BehaviorType::Control | BehaviorType::SyncControl => BehaviorCategory::Control,
        BehaviorType::Decorator | BehaviorType::SyncDecorator => BehaviorCategory::Decorator,
    }
}

/// The data of a behavior just created: idle, without children, of the
/// category that goes with its type.
pub open spec fn fresh_data(
    d: BehaviorData,
    name: Seq<char>,
    type_str: Seq<char>,
    bhvr_type: BehaviorType,
    config: BehaviorConfig,
) -> bool {
    &&& d.name@ == name
    &&& d.type_str@ == type_str
    &&& d.bhvr_type == bhvr_type
    &&& d.bhvr_category == type_category(bhvr_type)
    &&& d.config == config
    &&& d.status == BehaviorStatus::Idle
    &&& d.children@.len() == 0
}

/// The data of a behavior just created.
pub fn new_data(name: &str, type_str: &str, bhvr_type: BehaviorType, config: BehaviorConfig) -> (r:
    BehaviorData)
    ensures
        fresh_data(r, name@, type_str@, bhvr_type, config),
{
    BehaviorData {
        name: String::from_str(name),
        type_str: String::from_str(type_str),
        bhvr_type,
        bhvr_category: category_of(bhvr_type),
        config,
        status: BehaviorStatus::Idle,
        children: Vec::new(),
    }
}

} // verus!
