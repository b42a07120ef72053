use shared_menu::node::{push_decimal, Node, RegisterType};
use shared_menu::states::States;

fn test_node(port: u16) -> Node {
    Node {
        username: "test".to_string(),
        ip: "127.0.0.2".to_string(),
        port,
        of_type: RegisterType::Cutlery,
        state: States::Initializing,
    }
}

#[test]
fn node_test_address() {
    let node: Node = test_node(6666);
    let address = node.get_address();
    assert_eq!(address, "127.0.0.2:6666");
}

#[test]
fn node_test_test_address() {
    let node: Node = test_node(6666);
    let address = node.get_address();
    assert_eq!(address, "127.0.0.2:6666");
}

#[test]
fn address_of_small_and_large_ports() {
    assert_eq!(test_node(0).get_address(), "127.0.0.2:0");
    assert_eq!(test_node(7).get_address(), "127.0.0.2:7");
    assert_eq!(test_node(10).get_address(), "127.0.0.2:10");
    assert_eq!(test_node(65535).get_address(), "127.0.0.2:65535");
}

#[test]
fn decimal_appends_digits() {
    let mut text = String::from("n=");
    push_decimal(&mut text, 1_000_000_007);
    assert_eq!(text, "n=1000000007");
    let mut text = String::new();
    push_decimal(&mut text, u64::MAX);
    assert_eq!(text, u64::MAX.to_string());
}

#[test]
fn node_clone_keeps_fields() {
    let node = test_node(5444);
    let copy = node.clone();
    assert_eq!(copy.username, node.username);
    assert_eq!(copy.ip, node.ip);
    assert_eq!(copy.port, node.port);
    assert_eq!(copy.of_type, node.of_type);
    assert_eq!(copy.state, node.state);
}
