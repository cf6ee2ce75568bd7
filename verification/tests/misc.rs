use dimas::behavior::{BehaviorConfig, BehaviorType, PortDirection};
use dimas::blackboard::Blackboard;
use dimas::cross_door::CrossDoor;
use dimas::behavior::parse_i32;
use dimas::error::Error;
use dimas::xml_parser::variables_check;
use dimas::factory::{BTFactory, Creator};
use dimas::leaves::{
    agent_keeps_running, new_say_something_simple, AlwaysRunning, IntervalTimer, MoveBaseAction, NotInterrupted,
    SaySomething, Shutdown, ThinkWhatToSay, TimerAction,
};
use dimas::status::BehaviorStatus;
use dimas::utils::component_register::{
    Component, ComponentRegister, ComponentRegistry, ComponentRegistryType, OperationState,
};
use dimas::utils::lib_manager::{deregistration_result, registration_result};
use dimas::step::{BehaviorError, Fault, Reporter};

#[test]
fn crossing_a_locked_door() {
    let mut door = CrossDoor::default();
    assert_eq!(door.is_door_closed().unwrap(), BehaviorStatus::Failure);
    assert_eq!(door.open_door().unwrap(), BehaviorStatus::Failure);
    assert_eq!(door.pass_through_door().unwrap(), BehaviorStatus::Failure);
    assert_eq!(door.pick_lock().unwrap(), BehaviorStatus::Failure);
    assert_eq!(door.pick_lock().unwrap(), BehaviorStatus::Failure);
    assert_eq!(door.pick_lock().unwrap(), BehaviorStatus::Success);
    assert_eq!(door.is_door_closed().unwrap(), BehaviorStatus::Success);
    assert_eq!(door.pass_through_door().unwrap(), BehaviorStatus::Success);
}

#[test]
fn smashing_the_door() {
    let mut door = CrossDoor::default();
    assert_eq!(door.smash_door().unwrap(), BehaviorStatus::Success);
    assert_eq!(door.is_door_closed().unwrap(), BehaviorStatus::Success);
    assert_eq!(door.open_door().unwrap(), BehaviorStatus::Success);
    assert_eq!(door.pass_through_door().unwrap(), BehaviorStatus::Success);
}

#[test]
fn door_actions_in_a_factory() {
    let door = CrossDoor::default();
    let mut factory = BTFactory::extended();
    assert!(door.register_nodes(&mut factory).is_ok());
    let xml = r#"
<root BTCPP_format="4" main_tree_to_execute="CrossDoor">
    <BehaviorTree ID="CrossDoor">
        <Sequence>
            <Fallback>
                <Inverter>
                    <IsDoorClosed/>
                </Inverter>
                <SubTree ID="DoorClosed"/>
            </Fallback>
            <PassThroughDoor/>
        </Sequence>
    </BehaviorTree>
    <BehaviorTree ID="DoorClosed">
        <Fallback>
            <OpenDoor/>
            <Retry num_attempts="5">
                <PickLock/>
            </Retry>
            <SmashDoor/>
        </Fallback>
    </BehaviorTree>
</root>
"#;
    let tree = factory.create_tree_from_xml(xml).unwrap();
    let fallback = &tree.root.data.children[0];
    let closed = &fallback.data.children[0].data.children[0];
    assert_eq!(closed.data.name, "IsDoorClosed");
    assert!(matches!(closed.context, dimas::behavior::NodeContext::Custom(0)));
    let sub = &fallback.data.children[1];
    assert_eq!(sub.data.type_str, "Fallback");
    assert_eq!(sub.data.config.path, "CrossDoor->DoorClosed->Fallback");
    let retry = &sub.data.children[1];
    assert_eq!(retry.data.config.remappings, vec![(PortDirection::Input, "num_attempts".to_string(), "5".to_string())]);
    assert!(matches!(retry.data.children[0].context, dimas::behavior::NodeContext::Custom(3)));
    assert!(matches!(tree.root.data.children[1].context, dimas::behavior::NodeContext::Custom(2)));
}

#[test]
fn agent_behaviors() {
    assert_eq!(NotInterrupted {}.tick().unwrap(), BehaviorStatus::Success);
    assert_eq!(AlwaysRunning {}.tick().unwrap(), BehaviorStatus::Running);
    assert_eq!(Shutdown {}.tick().unwrap(), BehaviorStatus::Success);
    assert_eq!(NotInterrupted::kind(), BehaviorType::Condition);
    assert_eq!(AlwaysRunning::kind(), BehaviorType::Decorator);
    assert_eq!(Shutdown::kind(), BehaviorType::Action);
    assert!(agent_keeps_running(BehaviorStatus::Running));
    assert!(!agent_keeps_running(BehaviorStatus::Success));
}

#[test]
fn saying_things() {
    let (line, r) = SaySomething {}.tick("hi");
    assert_eq!(line, "Robot says: hi");
    assert_eq!(r.unwrap(), BehaviorStatus::Success);
    let (line, _) = new_say_something_simple("ho");
    assert_eq!(line, "Robot2 says: ho");
    let (text, _) = ThinkWhatToSay {}.tick();
    assert_eq!(text, "The answer is 42");
    let ports = SaySomething::provided_ports();
    assert_eq!(ports.ports[0].0, "message");
    assert_eq!(ports.ports[0].1.default_value.as_deref(), Some("hello"));
}

#[test]
fn timer_starts_once() {
    let mut timer = IntervalTimer::default();
    let (r, a) = timer.start();
    assert_eq!(r.unwrap(), BehaviorStatus::Running);
    assert!(matches!(a, TimerAction::Spawn));
    let (r, a) = timer.start();
    assert_eq!(r.unwrap(), BehaviorStatus::Failure);
    assert!(matches!(a, TimerAction::Nothing));
    assert!(matches!(timer.halt(), TimerAction::Abort));
    assert!(matches!(timer.halt(), TimerAction::Nothing));
    let ports = IntervalTimer::provided_ports();
    assert_eq!(ports.ports[0].0, "interval");
    assert_eq!(ports.ports[0].1.default_value.as_deref(), Some("1000"));
}

#[test]
fn moving_the_base() {
    let mut m = MoveBaseAction::default();
    assert_eq!(m.start().unwrap(), BehaviorStatus::Running);
    assert_eq!(m.tick(100).unwrap(), BehaviorStatus::Running);
    assert_eq!(m.tick(220).unwrap(), BehaviorStatus::Success);
}

#[test]
fn error_messages() {
    assert_eq!(Error::BtCppFormat.message(), "'BTCPP_format' must be '4'");
    assert_eq!(
        Error::ChildrenNotAllowed("Action".to_string()).message(),
        "children are not allowed for behavior category [Action]"
    );
    assert_eq!(Error::DecoratorChildren("Inverter".to_string()).message(), "decorator [Inverter] must have 1 child");
    assert_eq!(Error::LoopDetected("A->B".to_string(), "A".to_string()).message(), "loop in tree detected: [A->B] -> [A]");
    assert_eq!(Error::NoTreeToExecute.message(), "no 'main_tree_to_execute' provided");
    assert_eq!(Error::UnknownBehavior("X".to_string()).message(), "unkown behavior [X]");
    assert_eq!(
        Error::PortInvalid("p".to_string(), "B".to_string(), vec!["a".to_string(), "b".to_string()]).message(),
        "port name [p] does not match nodes [B] port list: [\"a\", \"b\"]"
    );
    assert_eq!(
        Error::Unexpected("x".to_string(), "f.rs".to_string(), 1203).message(),
        "unexpected [x] in file [f.rs] at line [1203]"
    );
    assert_eq!(Error::Unexpected("x".to_string(), "f".to_string(), 0).message(), "unexpected [x] in file [f] at line [0]");
    assert_eq!(
        Error::PortExpressionInvalid("bad".to_string()).message(),
        "Error parsing expression in port value: bad"
    );
    assert_eq!(
        Error::PortWithoutDefault("p".to_string(), "T->B".to_string()).message(),
        "port [p] in [T->B]has no default value"
    );
    let e = Error::DimasCoreBehavior(BehaviorError::NodeStructure("broken".to_string()));
    assert_eq!(e.message(), "broken");
    assert_eq!(dimas::utils::error::Error::NotFound.message(), "library not found");
    assert_eq!(dimas::builder::error::Error::NoZenohSession.message(), "no zenoh session available");
    let f = Fault::IdleChild(Reporter::Sequence).to_error();
    assert!(matches!(f, BehaviorError::Status(ref n, ref s) if n == "SequenceNode" && s == "Idle"));
}

#[test]
fn blackboard_levels() {
    let mut root = Blackboard::default();
    root.set("a".to_string(), "1".to_string());
    root.set("b".to_string(), "2".to_string());
    root.set("a".to_string(), "3".to_string());
    assert_eq!(root.own.values, vec![("a".to_string(), "3".to_string()), ("b".to_string(), "2".to_string())]);
    let mut sub = Blackboard::new(&root);
    assert_eq!(sub.parents.len(), 1);
    assert_eq!(sub.parents[0].values, root.own.values);
    assert!(sub.own.values.is_empty());
    sub.enable_auto_remapping(true);
    sub.add_subtree_remapping("x".to_string(), "a".to_string());
    assert!(sub.own.auto_remapping);
    assert_eq!(sub.own.remappings, vec![("x".to_string(), "a".to_string())]);
    let config = BehaviorConfig::new(sub, "T->N");
    assert_eq!(config.path, "T->N");
    assert!(!config.has_port(PortDirection::Input, "x"));
}

#[test]
fn registering_replaces() {
    let mut factory = BTFactory::default();
    factory.register_behavior("Sequence", Creator::Custom(9), dimas::behavior::PortList::new(), dimas::behavior::BehaviorCategory::Control);
    let xml = r#"<root main_tree_to_execute="T"><BehaviorTree ID="T"><Sequence/></BehaviorTree></root>"#;
    let tree = factory.create_tree_from_xml(xml).unwrap();
    assert!(matches!(tree.root.context, dimas::behavior::NodeContext::Custom(9)));
    assert_eq!(tree.root.data.bhvr_category, dimas::behavior::BehaviorCategory::Control);
}

struct Plugin {
    name: String,
    state: Option<OperationState>,
    fail: bool,
}

impl Component for Plugin {
    fn id(&self) -> String {
        self.name.clone()
    }

    fn manage_operation_state(&mut self, state: OperationState) -> Result<(), String> {
        if self.fail {
            return Err("refused".to_string());
        }
        self.state = Some(state);
        Ok(())
    }
}

fn plugin(name: &str, fail: bool) -> Plugin {
    Plugin { name: name.to_string(), state: None, fail }
}

#[test]
fn component_register() {
    let mut reg = ComponentRegister::new();
    reg.register(plugin("a", false));
    reg.register(plugin("b", true));
    reg.register(plugin("a", false));
    assert_eq!(reg.components.len(), 2);
    assert_eq!(reg.components[0].0, "a");
    assert_eq!(reg.components[1].0, "b");
    assert!(reg.deregister("x").unwrap().is_none());
    let a = reg.deregister("a").unwrap().unwrap();
    assert_eq!(a.name, "a");
    assert_eq!(a.state, Some(OperationState::Configured));
    assert_eq!(reg.components.len(), 1);
    assert_eq!(reg.deregister("b").err(), Some("refused".to_string()));
    assert!(reg.components.is_empty());
}

#[test]
fn component_registry() {
    let mut reg = ComponentRegistryType::new();
    reg.register(plugin("a", false));
    reg.register(plugin("a", false));
    assert!(reg.deregister("a").unwrap().is_some());
    assert!(reg.deregister("a").unwrap().is_none());
}

#[test]
fn library_codes() {
    assert_eq!(registration_result(0), Ok(()));
    assert_eq!(registration_result(3), Err(dimas::utils::error::Error::RegisterFailed));
    assert_eq!(deregistration_result(0), Ok(()));
    assert_eq!(deregistration_result(1), Err(dimas::utils::error::Error::DeregisterFailed));
}

#[test]
fn input_port_values() {
    let mut bb = Blackboard::default();
    bb.set("goal".to_string(), "7".to_string());
    let mut config = BehaviorConfig::new(bb, "T->N");
    config.add_port(PortDirection::Output, "n".to_string(), "out".to_string());
    config.add_port(PortDirection::Input, "n".to_string(), "3".to_string());
    config.add_port(PortDirection::Input, "m".to_string(), "{goal}".to_string());
    config.add_port(PortDirection::Input, "k".to_string(), "{missing}".to_string());
    assert!(config.has_port(PortDirection::Input, "n"));
    assert_eq!(config.input("n"), Some("3".to_string()));
    assert_eq!(config.input("m"), Some("7".to_string()));
    assert_eq!(config.input("k"), None);
    assert_eq!(config.input("x"), None);
}

#[test]
fn numeric_and_boolean_ports() {
    let mut bb = Blackboard::default();
    bb.set("goal".to_string(), "-12".to_string());
    let mut config = BehaviorConfig::new(bb, "T->N");
    config.add_port(PortDirection::Input, "a".to_string(), "42".to_string());
    config.add_port(PortDirection::Input, "b".to_string(), "{goal}".to_string());
    config.add_port(PortDirection::Input, "c".to_string(), "+3".to_string());
    config.add_port(PortDirection::Input, "d".to_string(), " 4".to_string());
    config.add_port(PortDirection::Input, "e".to_string(), "2147483648".to_string());
    config.add_port(PortDirection::Input, "f".to_string(), "true".to_string());
    config.add_port(PortDirection::Input, "g".to_string(), "yes".to_string());
    assert_eq!(config.input_i32("a").unwrap(), 42);
    assert_eq!(config.input_i32("b").unwrap(), -12);
    assert_eq!(config.input_i32("c").unwrap(), 3);
    assert!(config.input_i32("d").is_err());
    assert!(config.input_i32("e").is_err());
    assert!(config.input_i32("f").is_err());
    assert!(config.input_bool("f").unwrap());
    assert!(config.input_bool("g").is_err());
    match config.input_i32("x") {
        Err(dimas::step::BehaviorError::NodeStructure(m)) => assert_eq!(m, "missing or invalid port [x]"),
        _ => panic!("a port without a value is an error"),
    }
}

#[test]
fn created_nodes_have_the_category_of_their_kind() {
    let seq = dimas::control::sequence::Sequence::create_behavior("S", BehaviorConfig::new(Blackboard::default(), "T"));
    assert_eq!(seq.data.name, "S");
    assert_eq!(seq.data.type_str, "Sequence");
    assert_eq!(seq.data.bhvr_type, BehaviorType::SyncControl);
    assert_eq!(seq.data.bhvr_category, dimas::behavior::BehaviorCategory::Control);
    assert_eq!(seq.data.status, BehaviorStatus::Idle);
    assert!(seq.data.children.is_empty());
    let rep = dimas::decorator::repeat::Repeat::create_behavior("R", BehaviorConfig::new(Blackboard::default(), "T"));
    assert_eq!(rep.data.type_str, "Repeat");
    assert_eq!(rep.data.bhvr_type, BehaviorType::SyncDecorator);
    assert_eq!(rep.data.bhvr_category, dimas::behavior::BehaviorCategory::Decorator);
    assert_eq!(rep.data.status, BehaviorStatus::Idle);
}

#[test]
fn reading_i32_text() {
    assert_eq!(parse_i32("-2147483648"), Some(i32::MIN));
    assert_eq!(parse_i32("2147483647"), Some(i32::MAX));
    assert_eq!(parse_i32("2147483648"), None);
    assert_eq!(parse_i32("-2147483649"), None);
    assert_eq!(parse_i32("007"), Some(7));
    assert_eq!(parse_i32("+15"), Some(15));
    assert_eq!(parse_i32(""), None);
    assert_eq!(parse_i32("-"), None);
    assert_eq!(parse_i32("+"), None);
    assert_eq!(parse_i32("12a"), None);
    assert_eq!(parse_i32("99999999999999999999"), None);
    assert_eq!(parse_i32("-x"), None);
}

#[test]
fn expression_variables_need_a_known_type() {
    assert!(variables_check(&vec!["{a:int}".to_string(), "b".to_string()]).is_none());
    match variables_check(&vec!["{a:int}".to_string(), "{b:list}".to_string()]) {
        Some(Error::PortExpressionInvalidType(t, n)) => {
            assert_eq!(t, "list");
            assert_eq!(n, "b");
        }
        _ => panic!("a variable of an unknown type is refused"),
    }
    match variables_check(&vec!["{c}".to_string()]) {
        Some(Error::PortExpressionMissingType(v)) => assert_eq!(v, "c"),
        _ => panic!("a variable without a type is refused"),
    }
}
