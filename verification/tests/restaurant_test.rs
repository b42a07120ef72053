use shared_menu::node::{Node, RegisterType};
use shared_menu::restaurant::{stats_state, Restaurant};
use shared_menu::states::States;

fn named(name: &str, of_type: RegisterType, state: States) -> Node {
    Node {
        username: name.to_string(),
        ip: "127.0.0.1".to_string(),
        port: 4000,
        of_type,
        state,
    }
}

#[test]
fn restaurant_test_add_state_time() {
    let mut restaurant = Restaurant::default();
    restaurant.add_state_time(States::PhilosopherEating, 10);
    assert_eq!(*restaurant.state_times.get(&States::PhilosopherEating).unwrap(), 10);
    assert_eq!(*restaurant.max_state_time.get(&States::PhilosopherEating).unwrap(), 10);
    assert_eq!(*restaurant.min_state_time.get(&States::PhilosopherEating).unwrap(), 10);

    restaurant.add_state_time(States::PhilosopherEating, 5);
    assert_eq!(*restaurant.state_times.get(&States::PhilosopherEating).unwrap(), 15);
    assert_eq!(*restaurant.max_state_time.get(&States::PhilosopherEating).unwrap(), 10);
    assert_eq!(*restaurant.min_state_time.get(&States::PhilosopherEating).unwrap(), 5);
}

#[test]
fn restaurant_test_test_add_state_time() {
    let mut restaurant = Restaurant::default();
    restaurant.add_state_time(States::PhilosopherEating, 10);
    assert_eq!(*restaurant.state_times.get(&States::PhilosopherEating).unwrap(), 10);
    assert_eq!(*restaurant.max_state_time.get(&States::PhilosopherEating).unwrap(), 10);
    assert_eq!(*restaurant.min_state_time.get(&States::PhilosopherEating).unwrap(), 10);

    restaurant.add_state_time(States::PhilosopherEating, 5);
    assert_eq!(*restaurant.state_times.get(&States::PhilosopherEating).unwrap(), 15);
    assert_eq!(*restaurant.max_state_time.get(&States::PhilosopherEating).unwrap(), 10);
    assert_eq!(*restaurant.min_state_time.get(&States::PhilosopherEating).unwrap(), 5);
}

#[test]
fn restaurant_test_add_state() {
    let mut restaurant = Restaurant::default();
    restaurant.add_state(States::CutleryClean(true));
    assert_eq!(*restaurant.state_stats.get(&States::CutleryStatsClean).unwrap(), 1);

    restaurant.add_state(States::CutleryDirty(true));
    assert_eq!(*restaurant.state_stats.get(&States::CutleryStatsDirty).unwrap(), 1);

    restaurant.add_state(States::PhilosopherEating);
    assert_eq!(*restaurant.state_stats.get(&States::PhilosopherEating).unwrap(), 1);
}

#[test]
fn restaurant_test_test_add_state() {
    let mut restaurant = Restaurant::default();
    restaurant.add_state(States::CutleryClean(true));
    assert_eq!(*restaurant.state_stats.get(&States::CutleryStatsClean).unwrap(), 1);

    restaurant.add_state(States::CutleryDirty(true));
    assert_eq!(*restaurant.state_stats.get(&States::CutleryStatsDirty).unwrap(), 1);

    restaurant.add_state(States::PhilosopherEating);
    assert_eq!(*restaurant.state_stats.get(&States::PhilosopherEating).unwrap(), 1);
}

#[test]
fn state_times_keep_states_apart() {
    let mut restaurant = Restaurant::default();
    restaurant.add_state_time(States::CutleryClean(true), 3);
    restaurant.add_state_time(States::CutleryClean(false), 8);
    restaurant.add_state_time(States::CutleryClean(true), 20);
    assert_eq!(*restaurant.state_times.get(&States::CutleryClean(true)).unwrap(), 23);
    assert_eq!(*restaurant.state_times.get(&States::CutleryClean(false)).unwrap(), 8);
    assert_eq!(*restaurant.max_state_time.get(&States::CutleryClean(true)).unwrap(), 20);
    assert_eq!(*restaurant.min_state_time.get(&States::CutleryClean(true)).unwrap(), 3);
    assert!(restaurant.state_times.get(&States::PhilosopherHungry).is_none());
    assert_eq!(restaurant.state_times.len(), 2);
}

#[test]
fn counts_add_up_per_stats_state() {
    let mut restaurant = Restaurant::default();
    restaurant.add_state(States::CutleryClean(true));
    restaurant.add_state(States::CutleryClean(false));
    restaurant.add_state(States::CutleryStatsClean);
    assert_eq!(*restaurant.state_stats.get(&States::CutleryStatsClean).unwrap(), 3);
    assert!(restaurant.state_stats.get(&States::CutleryClean(true)).is_none());
    assert_eq!(stats_state(States::CutleryDirty(false)), States::CutleryStatsDirty);
    assert_eq!(stats_state(States::Dead), States::Dead);
}

#[test]
fn report_state_time_only_adds_to_total() {
    let mut restaurant = Restaurant::default();
    restaurant.report_state_time(States::PhilosopherThinking, 7);
    restaurant.report_state_time(States::PhilosopherThinking, 4);
    assert_eq!(*restaurant.state_times.get(&States::PhilosopherThinking).unwrap(), 11);
    assert!(restaurant.max_state_time.get(&States::PhilosopherThinking).is_none());
    assert!(restaurant.min_state_time.get(&States::PhilosopherThinking).is_none());
}

#[test]
fn registration_sorts_nodes_by_kind() {
    let mut restaurant = Restaurant::default();
    restaurant.register_node(named("Plato 1", RegisterType::Philosopher, States::Initializing));
    restaurant.register_node(named("Fork 1", RegisterType::Cutlery, States::CutleryClean(false)));
    restaurant.register_node(named("waiter", RegisterType::Waiter, States::WaiterActive));
    restaurant.register_node(named("Kant 2", RegisterType::Philosopher, States::Initializing));
    assert_eq!(restaurant.phillosophers.len(), 2);
    assert_eq!(restaurant.cutlery.len(), 1);
    assert_eq!(restaurant.phillosophers[1].username, "Kant 2");
    assert!(!restaurant.is_complete(2));
    restaurant.register_node(named("Spoon 2", RegisterType::Cutlery, States::CutleryClean(false)));
    assert!(restaurant.is_complete(2));
    assert!(!restaurant.is_complete(3));
}

#[test]
fn state_update_replaces_node_of_same_name() {
    let mut restaurant = Restaurant::default();
    restaurant.register_node(named("Plato 1", RegisterType::Philosopher, States::Initializing));
    restaurant.register_node(named("Kant 2", RegisterType::Philosopher, States::Initializing));
    restaurant.register_node(named("Fork 1", RegisterType::Cutlery, States::CutleryClean(false)));
    restaurant.record_state_update(named("Kant 2", RegisterType::Philosopher, States::PhilosopherEating));
    assert_eq!(restaurant.phillosophers[0].state, States::Initializing);
    assert_eq!(restaurant.phillosophers[1].state, States::PhilosopherEating);
    assert_eq!(*restaurant.state_stats.get(&States::PhilosopherEating).unwrap(), 1);
    restaurant.record_state_update(named("Fork 1", RegisterType::Cutlery, States::CutleryDirty(true)));
    assert_eq!(restaurant.cutlery[0].state, States::CutleryDirty(true));
    assert_eq!(*restaurant.state_stats.get(&States::CutleryStatsDirty).unwrap(), 1);
    restaurant.record_state_update(named("Nobody", RegisterType::Philosopher, States::Dead));
    assert_eq!(restaurant.phillosophers.len(), 2);
    assert_eq!(*restaurant.state_stats.get(&States::Dead).unwrap(), 1);
}
