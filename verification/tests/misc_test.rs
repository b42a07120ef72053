use shared_menu::node::{Node, RegisterType};
use shared_menu::puppet::Puppet;
use shared_menu::random_names::{cutlery_name, philosopher_name, random_cutlery_name, random_philosopher_name, random_port};
use shared_menu::seat::Seat;
use shared_menu::states::States;
use shared_menu::status::{CutleryStatus, PhilosopherStates};
use shared_menu::table::StateTable;

fn node(name: &str) -> Node {
    Node { username: name.to_string(), ip: "1.2.3.4".to_string(), port: 1, of_type: RegisterType::Cutlery, state: States::Dead }
}

#[test]
fn random_ports_are_in_range() {
    for _ in 0..200 {
        let p = random_port();
        assert!((3000..9000).contains(&p));
    }
}

#[test]
fn random_ports_vary() {
    let first = random_port();
    assert!((0..500).any(|_| random_port() != first));
}

#[test]
fn names_are_built_from_parts() {
    assert_eq!(philosopher_name(0, 19, 42), "Aristotle Zizek 42");
    assert_eq!(philosopher_name(8, 8, 0), "Wittgenstein Wittgenstein 0");
    assert_eq!(cutlery_name(0, 999), "Fork 999");
    assert_eq!(cutlery_name(8, 7), "Knork 7");
}

#[test]
fn random_names_have_the_right_shape() {
    for _ in 0..50 {
        let name = random_philosopher_name();
        let parts: Vec<&str> = name.split(' ').collect();
        assert_eq!(parts.len(), 3);
        assert!(parts[2].parse::<u32>().unwrap() < 1000);
        let name = random_cutlery_name();
        let parts: Vec<&str> = name.split(' ').collect();
        assert_eq!(parts.len(), 2);
        assert!(["Fork", "Spoon", "Knife", "Chopsticks", "Spork", "Splayd", "Trongs", "Chork", "Knork"].contains(&parts[0]));
        assert!(parts[1].parse::<u32>().unwrap() < 1000);
    }
}

#[test]
fn cutlery_status() {
    let clean = CutleryStatus::Clean(Some(node("me")));
    assert!(clean.is_clean() && !clean.is_dirty());
    assert_eq!(clean.is_used().unwrap().username, "me");
    let dirty = CutleryStatus::Dirty(None);
    assert!(dirty.is_dirty() && !dirty.is_clean());
    assert!(dirty.is_used().is_none());
    assert_eq!(PhilosopherStates::Hungry, PhilosopherStates::Hungry.clone());
}

#[test]
fn seat_getters() {
    let seat = Seat::new(4, node("a"), node("b"), node("c"), node("d"), 5, 6);
    assert_eq!(seat.get_own_id(), 4);
    assert_eq!(seat.get_philosopher_before().username, "a");
    assert_eq!(seat.get_philosopher_after().username, "b");
    assert_eq!(seat.get_cutlery_before().username, "c");
    assert_eq!(seat.get_cutlery_after().username, "d");
    assert_eq!(seat.get_total_philosophers(), 5);
    assert_eq!(seat.get_total_cutlery(), 6);
}

#[test]
fn puppet_keeps_its_address() {
    let puppet = Puppet::new("127.0.0.1:8000".to_string());
    assert_eq!(puppet.address(), "127.0.0.1:8000");
}

#[test]
fn state_table_replaces_values() {
    let mut table: StateTable<u64> = StateTable::new();
    assert_eq!(table.len(), 0);
    table.insert(States::Dead, 1);
    table.insert(States::WaiterActive, 2);
    table.insert(States::Dead, 3);
    assert_eq!(table.len(), 2);
    assert_eq!(table.get(&States::Dead), Some(&3));
    assert_eq!(table.get(&States::WaiterActive), Some(&2));
    assert_eq!(table.get(&States::Initializing), None);
    let copy = table.clone();
    assert_eq!(copy.entries().len(), 2);
}
