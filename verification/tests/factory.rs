use dimas::behavior::{input_port, BehaviorCategory, NodeContext, Port, PortDirection, PortList};
use dimas::blackboard::Blackboard;
use dimas::error::Error;
use dimas::factory::{BTFactory, Creator};
use dimas::halting::halt_tree;
use dimas::status::BehaviorStatus;
use dimas::xml::XmlDocument;

fn names(v: &[(PortDirection, String, String)]) -> Vec<(PortDirection, &str, &str)> {
    v.iter().map(|(d, n, x)| (*d, n.as_str(), x.as_str())).collect()
}

#[test]
fn tree_of_builtin_behaviors() {
    let xml = r#"
<root BTCPP_format="4" main_tree_to_execute="MainTree">
    <BehaviorTree ID="MainTree">
        <Sequence>
            <Inverter>
                <Fallback/>
            </Inverter>
            <ForceSuccess>
                <Sequence/>
            </ForceSuccess>
        </Sequence>
    </BehaviorTree>
</root>
"#;
    let mut factory = BTFactory::extended();
    let tree = factory.create_tree_from_xml(xml).unwrap();
    let root = &tree.root;
    assert_eq!(root.data.type_str, "Sequence");
    assert_eq!(root.data.name, "Sequence");
    assert_eq!(root.data.config.path, "MainTree->Sequence");
    assert_eq!(root.data.children.len(), 2);
    let inv = &root.data.children[0];
    assert_eq!(inv.data.type_str, "Inverter");
    assert!(matches!(inv.context, NodeContext::Inverter(_)));
    assert_eq!(inv.data.config.path, "MainTree->Inverter");
    assert_eq!(inv.data.children.len(), 1);
    assert_eq!(inv.data.children[0].data.type_str, "Fallback");
    assert_eq!(inv.data.children[0].data.config.path, "MainTree->Fallback");
    let fs = &root.data.children[1];
    assert_eq!(fs.data.type_str, "ForceSuccess");
    assert_eq!(fs.data.children[0].data.type_str, "Sequence");
}

#[test]
fn fundamentals_only_without_extensions() {
    let xml = r#"<root main_tree_to_execute="T"><BehaviorTree ID="T"><Inverter><Sequence/></Inverter></BehaviorTree></root>"#;
    let mut factory = BTFactory::default();
    match factory.create_tree_from_xml(xml) {
        Err(Error::UnknownBehavior(n)) => assert_eq!(n, "Inverter"),
        _ => panic!("Inverter is not registered without extensions"),
    }
    factory.add_extensions();
    assert!(factory.create_tree_from_xml(xml).is_ok());
}

#[test]
fn subtree_with_its_own_blackboard() {
    let xml = r#"
<root BTCPP_format="4" main_tree_to_execute="Main">
    <BehaviorTree ID="Main">
        <Sequence>
            <SubTree ID="Sub" _autoremap="true" target="{goal}" speed="3" name="x"/>
        </Sequence>
    </BehaviorTree>
    <BehaviorTree ID="Sub">
        <Inverter>
            <Fallback/>
        </Inverter>
    </BehaviorTree>
</root>
"#;
    let mut factory = BTFactory::extended();
    let tree = factory.create_tree_from_xml(xml).unwrap();
    let sub = &tree.root.data.children[0];
    assert_eq!(sub.data.type_str, "Inverter");
    assert_eq!(sub.data.config.path, "Main->Sub->Inverter");
    let bb = &sub.data.config.blackboard;
    assert_eq!(bb.parents.len(), 1);
    assert!(bb.own.auto_remapping);
    assert_eq!(bb.own.remappings, vec![("target".to_string(), "goal".to_string())]);
    assert_eq!(bb.own.values, vec![("speed".to_string(), "3".to_string())]);
    assert_eq!(sub.data.children[0].data.config.path, "Main->Sub->Fallback");
    assert!(!tree.root.data.config.blackboard.own.auto_remapping);
    assert_eq!(tree.root.data.config.blackboard.parents.len(), 0);
}

#[test]
fn subtree_registered_before() {
    let sub = r#"<root BTCPP_format="4"><BehaviorTree ID="Sub"><Fallback/></BehaviorTree></root>"#;
    let main = r#"<root main_tree_to_execute="Main"><BehaviorTree ID="Main"><SubTree ID="Sub"/></BehaviorTree></root>"#;
    let mut factory = BTFactory::extended();
    assert!(factory.register_subtree(sub).is_ok());
    let tree = factory.create_tree_from_xml(main).unwrap();
    assert_eq!(tree.root.data.type_str, "Fallback");
    assert_eq!(tree.root.data.config.path, "Main->Sub->Fallback");
}

#[test]
fn port_defaults_and_values() {
    let xml = r#"<root main_tree_to_execute="T"><BehaviorTree ID="T"><Parallel success_count="2"><Sequence/></Parallel></BehaviorTree></root>"#;
    let mut factory = BTFactory::extended();
    let tree = factory.create_tree_from_xml(xml).unwrap();
    assert_eq!(
        names(&tree.root.data.config.remappings),
        vec![(PortDirection::Input, "success_count", "2"), (PortDirection::Input, "failure_count", "1")]
    );
    let xml = r#"<root main_tree_to_execute="T"><BehaviorTree ID="T"><Retry><Sequence/></Retry></BehaviorTree></root>"#;
    let tree = factory.create_tree_from_xml(xml).unwrap();
    assert!(tree.root.data.config.remappings.is_empty());
}

#[test]
fn custom_behaviors() {
    let mut factory = BTFactory::extended();
    let mut ports = PortList::new();
    ports.insert("message", input_port(Some("hello"), "what to say"));
    factory.register_behavior("Say", Creator::Custom(7), ports, BehaviorCategory::Action);
    let xml = r#"<root main_tree_to_execute="T"><BehaviorTree ID="T"><Sequence><Say/><Say message="hi"/><Action ID="Say"/></Sequence></BehaviorTree></root>"#;
    let tree = factory.create_tree_from_xml(xml);
    match tree {
        Err(Error::PortInvalid(p, b, list)) => {
            assert_eq!(p, "ID");
            assert_eq!(b, "Action");
            assert_eq!(list, vec!["message".to_string()]);
        }
        _ => panic!("the ID attribute is no port of Say"),
    }
    let xml = r#"<root main_tree_to_execute="T"><BehaviorTree ID="T"><Sequence><Say/><Say message="hi"/></Sequence></BehaviorTree></root>"#;
    let tree = factory.create_tree_from_xml(xml).unwrap();
    let say = &tree.root.data.children[0];
    assert!(matches!(say.context, NodeContext::Custom(7)));
    assert_eq!(say.data.name, "Say");
    assert_eq!(names(&say.data.config.remappings), vec![(PortDirection::Input, "message", "hello")]);
    let say = &tree.root.data.children[1];
    assert_eq!(names(&say.data.config.remappings), vec![(PortDirection::Input, "message", "hi")]);
}

#[test]
fn custom_control_behavior_gets_its_children() {
    let mut factory = BTFactory::extended();
    factory.register_behavior("Twice", Creator::Custom(8), PortList::new(), BehaviorCategory::Control);
    let xml = r#"<root main_tree_to_execute="T"><BehaviorTree ID="T"><Twice><Sequence/><Fallback/></Twice></BehaviorTree></root>"#;
    let tree = factory.create_tree_from_xml(xml).unwrap();
    assert!(matches!(tree.root.context, NodeContext::Custom(8)));
    assert_eq!(tree.root.data.bhvr_category, BehaviorCategory::Control);
    assert_eq!(tree.root.data.children.len(), 2);
    assert_eq!(tree.root.data.children[1].data.type_str, "Fallback");
}

#[test]
fn action_with_children_is_refused() {
    let mut factory = BTFactory::extended();
    factory.register_behavior("Say", Creator::Custom(1), PortList::new(), BehaviorCategory::Action);
    let xml = r#"<root main_tree_to_execute="T"><BehaviorTree ID="T"><Say><Sequence/></Say></BehaviorTree></root>"#;
    match factory.create_tree_from_xml(xml) {
        Err(Error::ChildrenNotAllowed(c)) => assert_eq!(c, "Action"),
        _ => panic!("an action may not have children"),
    }
}

#[test]
fn decorator_needs_one_child() {
    let mut factory = BTFactory::extended();
    let xml = r#"<root main_tree_to_execute="T"><BehaviorTree ID="T"><Inverter><Sequence/><Sequence/></Inverter></BehaviorTree></root>"#;
    match factory.create_tree_from_xml(xml) {
        Err(Error::DecoratorChildren(d)) => assert_eq!(d, "Inverter"),
        _ => panic!("a decorator needs exactly one child"),
    }
    let xml = r#"<root main_tree_to_execute="T"><BehaviorTree ID="T"><Inverter/></BehaviorTree></root>"#;
    assert!(matches!(factory.create_tree_from_xml(xml), Err(Error::DecoratorChildren(_))));
}

#[test]
fn subtree_loop_is_refused() {
    let mut factory = BTFactory::extended();
    let xml = r#"<root main_tree_to_execute="A"><BehaviorTree ID="A"><Sequence><SubTree ID="B"/></Sequence></BehaviorTree><BehaviorTree ID="B"><Sequence><SubTree ID="A"/></Sequence></BehaviorTree></root>"#;
    match factory.create_tree_from_xml(xml) {
        Err(Error::LoopDetected(path, id)) => {
            assert_eq!(path, "A->B");
            assert_eq!(id, "A");
        }
        _ => panic!("a subtree that includes itself is refused"),
    }
}

#[test]
fn namespaced_id_attribute_is_not_the_id() {
    let doc = XmlDocument::parse(r#"<a xmlns:p="urn:p" p:ID="x" ID="y"/>"#).unwrap();
    assert_eq!(doc.attribute(1, "ID"), Some("y".to_string()));
    let doc = XmlDocument::parse(r#"<a xmlns:p="urn:p" p:ID="x"/>"#).unwrap();
    assert_eq!(doc.attribute(1, "ID"), None);
    let mut factory = BTFactory::default();
    let xml = r#"<root main_tree_to_execute="Main"><BehaviorTree ID="Main"><SubTree xmlns:p="urn:p" p:ID="Ma" ID="Mb"/></BehaviorTree><BehaviorTree ID="Mb"><Fallback/></BehaviorTree></root>"#;
    let tree = factory.create_tree_from_xml(xml).unwrap();
    assert_eq!(tree.root.data.type_str, "Fallback");
}

#[test]
fn subtree_whose_id_is_a_prefix_is_no_loop() {
    let mut factory = BTFactory::default();
    let xml = r#"<root main_tree_to_execute="Main"><BehaviorTree ID="Main"><SubTree ID="Ma"/></BehaviorTree><BehaviorTree ID="Ma"><Sequence/></BehaviorTree></root>"#;
    let tree = factory.create_tree_from_xml(xml).unwrap();
    assert_eq!(tree.root.data.type_str, "Sequence");
}

#[test]
fn root_checks() {
    let mut factory = BTFactory::extended();
    let xml = r#"<tree main_tree_to_execute="T"><BehaviorTree ID="T"><Sequence/></BehaviorTree></tree>"#;
    assert!(matches!(factory.create_tree_from_xml(xml), Err(Error::RootName)));
    let xml = r#"<root BTCPP_format="3" main_tree_to_execute="T"><BehaviorTree ID="T"><Sequence/></BehaviorTree></root>"#;
    assert!(matches!(factory.create_tree_from_xml(xml), Err(Error::BtCppFormat)));
    let xml = r#"<root><BehaviorTree ID="T"><Sequence/></BehaviorTree></root>"#;
    assert!(matches!(factory.create_tree_from_xml(xml), Err(Error::NoTreeToExecute)));
    assert!(matches!(factory.create_tree_from_xml("no xml at all"), Err(Error::RoXmlTree(_))));
}

#[test]
fn document_errors() {
    let mut factory = BTFactory::extended();
    let xml = r#"<root main_tree_to_execute="T"><BehaviorTree><Sequence/></BehaviorTree></root>"#;
    match factory.create_tree_from_xml(xml) {
        Err(Error::MissingId(t)) => assert_eq!(t, "BehaviorTree"),
        _ => panic!("a tree needs an ID"),
    }
    let xml = r#"<root main_tree_to_execute="T"><Other/></root>"#;
    match factory.create_tree_from_xml(xml) {
        Err(Error::ElementNotSupported(t)) => assert_eq!(t, "Other"),
        _ => panic!("only trees and models stand under the root"),
    }
    let xml = r#"<root main_tree_to_execute="T"><?pi data?><BehaviorTree ID="T"><Sequence/></BehaviorTree></root>"#;
    assert!(matches!(factory.create_tree_from_xml(xml), Err(Error::UnkownProcessingInstruction)));
    let xml = r#"<root main_tree_to_execute="X"><TreeNodesModel/><BehaviorTree ID="T"><Sequence/></BehaviorTree></root>"#;
    match factory.create_tree_from_xml(xml) {
        Err(Error::UnknownBehavior(t)) => assert_eq!(t, "X"),
        _ => panic!("the main tree must be defined"),
    }
    let xml = r#"<root main_tree_to_execute="T"><BehaviorTree ID="T"><SubTree ID="S" _autoremap="maybe"/></BehaviorTree><BehaviorTree ID="S"><Sequence/></BehaviorTree></root>"#;
    assert!(matches!(factory.create_tree_from_xml(xml), Err(Error::ParseBool(_))));
    let xml = r#"<root main_tree_to_execute="T"><BehaviorTree ID="T"><Sequence foo="1"/></BehaviorTree></root>"#;
    match factory.create_tree_from_xml(xml) {
        Err(Error::PortInvalid(p, b, list)) => {
            assert_eq!(p, "foo");
            assert_eq!(b, "Sequence");
            assert!(list.is_empty());
        }
        _ => panic!("foo is no port of Sequence"),
    }
}

#[test]
fn register_subtree_refuses_main_tree() {
    let mut factory = BTFactory::extended();
    let xml = r#"<root main_tree_to_execute="T"><BehaviorTree ID="T"><Sequence/></BehaviorTree></root>"#;
    assert!(matches!(factory.register_subtree(xml), Err(Error::MainTreeNotAllowed)));
    let xml = r#"<root BTCPP_format="5"><BehaviorTree ID="T"><Sequence/></BehaviorTree></root>"#;
    assert!(matches!(factory.register_subtree(xml), Err(Error::BtCppFormat)));
}

#[test]
fn expression_ports_are_checked() {
    let mut factory = BTFactory::extended();
    let mut ports = PortList::new();
    ports.insert(
        "expr",
        Port { direction: PortDirection::Input, default_value: None, description: String::new(), parse_expr: true },
    );
    factory.register_behavior("Calc", Creator::Custom(3), ports, BehaviorCategory::Action);
    let xml = r#"<root main_tree_to_execute="T"><BehaviorTree ID="T"><Calc expr="(1"/></BehaviorTree></root>"#;
    assert!(matches!(factory.create_tree_from_xml(xml), Err(Error::PortExpressionInvalid(_))));
    let xml = r#"<root main_tree_to_execute="T"><BehaviorTree ID="T"><Calc expr="a + 1"/></BehaviorTree></root>"#;
    let tree = factory.create_tree_from_xml(xml).unwrap();
    assert_eq!(names(&tree.root.data.config.remappings), vec![(PortDirection::Input, "expr", "a + 1")]);
}

#[test]
fn factory_with_blackboard() {
    let mut bb = Blackboard::default();
    bb.set("key".to_string(), "value".to_string());
    let mut factory = BTFactory::with_blackboard(bb);
    assert_eq!(factory.blackboard().own.values, vec![("key".to_string(), "value".to_string())]);
    let xml = r#"<root main_tree_to_execute="T"><BehaviorTree ID="T"><Sequence/></BehaviorTree></root>"#;
    let tree = factory.create_tree_from_xml(xml).unwrap();
    assert_eq!(tree.root.data.config.blackboard.own.values, vec![("key".to_string(), "value".to_string())]);
}

#[test]
fn shrinking_xml() {
    let input = "<root  a = \"x  y\" >\n   <B   c=\"1\"/>\n</root>";
    assert_eq!(BTFactory::shrink_xml(input), "<root a=\"x  y\" ><B c=\"1\"/></root>");
    assert_eq!(BTFactory::shrink_xml("text  between\ttags"), "textbetweentags");
}

#[test]
fn shrinking_twice_changes_nothing_more() {
    let inputs = [
        "<root  a = \"x  y\" >\n   <B   c=\"1\"/>\n</root>",
        "<a b \n= c  d\t=\"e = f\"  >  t  </a >",
        "x\"y<a  b>\" <c d =  e>",
    ];
    for input in inputs {
        let once = BTFactory::shrink_xml(input);
        assert_eq!(BTFactory::shrink_xml(&once), once);
        // only characters of the input are kept, in their order
        let mut rest = input.chars();
        for c in once.chars() {
            assert!(rest.any(|d| d == c));
        }
    }
}

#[test]
fn agent_tree() {
    let xml = r#"<?xml version="1.0" encoding="UTF-8"?>
<root BTCPP_format="4"
        main_tree_to_execute="CoreTree">

    <BehaviorTree ID="AgentControl">
        <AlwaysRunning/>
    </BehaviorTree>

    <BehaviorTree ID="CoreTree">
        <WhileDoElse>
            <NotInterrupted/>
            <ParallelAll max_failures="-1">
                <SubTree ID="AgentControl"
                    _autoremap="true"/>
                <SubTree ID="AgentBehavior"
                    _autoremap="true"/>
            </ParallelAll>
            <Shutdown/>
        </WhileDoElse>
    </BehaviorTree>

    <!-- Description of Node Models (used by Groot) -->
    <TreeNodesModel>
        <Action ID="AlwaysRunning"
                editable="true"/>
        <Action ID="Shutdown"
                editable="true"/>
        <Condition ID="NotInterrupted"
                editable="true"/>
    </TreeNodesModel>
</root>
"#;
    let mut factory = BTFactory::extended();
    factory.register_behavior("NotInterrupted", Creator::Custom(1), PortList::new(), BehaviorCategory::Condition);
    factory.register_behavior("AlwaysRunning", Creator::Custom(2), PortList::new(), BehaviorCategory::Action);
    factory.register_behavior("Shutdown", Creator::Custom(3), PortList::new(), BehaviorCategory::Action);
    match factory.create_tree_from_xml(xml) {
        Err(Error::UnknownBehavior(id)) => assert_eq!(id, "AgentBehavior"),
        _ => panic!("the agent's behavior is not defined yet"),
    }
    let behavior = r#"<root BTCPP_format="4"><BehaviorTree ID="AgentBehavior"><Sequence/></BehaviorTree></root>"#;
    assert!(factory.register_subtree(behavior).is_ok());
    let tree = factory.create_tree_from_xml(xml).unwrap();
    assert_eq!(tree.root.data.type_str, "WhileDoElse");
    assert_eq!(tree.root.data.children.len(), 3);
    let parallel = &tree.root.data.children[1];
    assert_eq!(parallel.data.type_str, "ParallelAll");
    assert_eq!(
        names(&parallel.data.config.remappings),
        vec![(PortDirection::Input, "max_failures", "-1")]
    );
    let control = &parallel.data.children[0];
    assert!(matches!(control.context, NodeContext::Custom(2)));
    assert_eq!(control.data.config.path, "CoreTree->AgentControl->AlwaysRunning");
    assert!(control.data.config.blackboard.own.auto_remapping);
    let agent_behavior = &parallel.data.children[1];
    assert_eq!(agent_behavior.data.type_str, "Sequence");
    assert_eq!(agent_behavior.data.config.path, "CoreTree->AgentBehavior->Sequence");
}

#[test]
fn created_behaviors_carry_the_manifest_of_their_registration() {
    let mut factory = BTFactory::extended();
    let xml = r#"<root main_tree_to_execute="T"><BehaviorTree ID="T"><Sequence><Repeat num_cycles="2"><Fallback/></Repeat></Sequence></BehaviorTree></root>"#;
    let tree = factory.create_tree_from_xml(xml).unwrap();
    let m = tree.root.data.config.manifest.as_ref().unwrap();
    assert_eq!(m.registration_id, "Sequence");
    assert_eq!(m.bhvr_category, BehaviorCategory::Control);
    assert!(m.ports.ports.is_empty());
    assert_eq!(m.description, "");
    let rep = &tree.root.data.children[0];
    let m = rep.data.config.manifest.as_ref().unwrap();
    assert_eq!(m.registration_id, "Repeat");
    assert_eq!(m.bhvr_category, BehaviorCategory::Decorator);
    assert_eq!(m.ports.ports.len(), 1);
    assert_eq!(m.ports.ports[0].0, "num_cycles");
    assert!(dimas::behavior::BehaviorConfig::new(Blackboard::default(), "x").manifest.is_none());
}

#[test]
fn attributes_of_the_same_local_name_keep_the_last_value() {
    let mut factory = BTFactory::extended();
    let xml = r#"<root main_tree_to_execute="T"><BehaviorTree ID="T"><Repeat xmlns:p="urn:p" num_cycles="1" p:num_cycles="2"><Fallback/></Repeat></BehaviorTree></root>"#;
    let tree = factory.create_tree_from_xml(xml).unwrap();
    assert_eq!(names(&tree.root.data.config.remappings), vec![(PortDirection::Input, "num_cycles", "2")]);
    assert_eq!(tree.root.data.config.input("num_cycles"), Some("2".to_string()));
}

#[test]
fn halting_a_tree_makes_it_idle() {
    let mut factory = BTFactory::extended();
    factory.register_behavior("Mine", Creator::Custom(3), PortList::new(), BehaviorCategory::Control);
    let xml = r#"<root main_tree_to_execute="T"><BehaviorTree ID="T"><Sequence><Fallback><Inverter><Sequence/></Inverter></Fallback><Mine><Sequence/></Mine></Sequence></BehaviorTree></root>"#;
    let mut tree = factory.create_tree_from_xml(xml).unwrap();
    tree.root.data.status = BehaviorStatus::Running;
    tree.root.data.children[0].data.status = BehaviorStatus::Running;
    tree.root.data.children[0].data.children[0].data.children[0].data.status = BehaviorStatus::Failure;
    tree.root.data.children[1].data.status = BehaviorStatus::Running;
    tree.root.data.children[1].data.children[0].data.status = BehaviorStatus::Running;
    halt_tree(&mut tree.root);
    assert_eq!(tree.root.data.status, BehaviorStatus::Idle);
    assert_eq!(tree.root.data.children[0].data.status, BehaviorStatus::Idle);
    assert_eq!(tree.root.data.children[0].data.children[0].data.children[0].data.status, BehaviorStatus::Idle);
    assert_eq!(tree.root.data.children[1].data.status, BehaviorStatus::Idle);
    // a behavior of the user halts no children of its own
    assert_eq!(tree.root.data.children[1].data.children[0].data.status, BehaviorStatus::Running);
    assert_eq!(tree.root.data.children.len(), 2);
}
