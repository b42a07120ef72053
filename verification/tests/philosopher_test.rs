use shared_menu::calls::Response;
use shared_menu::node::{Node, RegisterType};
use shared_menu::philosopher::{
    eating_plan, invalid_dirty_reply, parse_side, pass_failure, request_action, side_name,
    state_after_seating, state_after_step, table_action, EatingAction, Philosopher, RequestAction,
    RequestAnswer, Side, TableAction,
};
use shared_menu::states::States;

fn node(name: &str, of_type: RegisterType) -> Node {
    Node { username: name.to_string(), ip: "10.0.0.2".to_string(), port: 3001, of_type, state: States::Initializing }
}

fn seated() -> Philosopher {
    let mut p = Philosopher::new(node("me", RegisterType::Philosopher), node("waiter", RegisterType::Waiter));
    p.seat(node("right", RegisterType::Philosopher), node("left", RegisterType::Philosopher), 3);
    p
}

#[test]
fn new_philosopher_sits_alone() {
    let p = Philosopher::new(node("me", RegisterType::Philosopher), node("waiter", RegisterType::Waiter));
    assert_eq!(p.right_neighbor.neighbor.username, "me");
    assert_eq!(p.left_neighbor.neighbor.username, "me");
    assert!(p.right_hand.is_none() && p.left_hand.is_none());
    assert_eq!(p.id, 0);
    assert_eq!(p.restaurant.state_stats.len(), 0);
    assert_eq!(p.restaurant.state_times.len(), 0);
    assert_eq!(p.restaurant.max_state_time.len(), 0);
    assert_eq!(p.restaurant.min_state_time.len(), 0);
}

#[test]
fn states_after_each_step() {
    assert_eq!(state_after_step(States::PhilosopherThinking, false), Some(States::PhilosopherHungry));
    assert_eq!(state_after_step(States::PhilosopherHungry, false), None);
    assert_eq!(state_after_step(States::PhilosopherHungry, true), Some(States::PhilosopherEating));
    assert_eq!(state_after_step(States::PhilosopherEating, true), Some(States::PhilosopherThinking));
    assert_eq!(state_after_step(States::Initializing, true), None);
    assert_eq!(state_after_seating(), States::PhilosopherThinking);
}

#[test]
fn end_of_a_meal() {
    assert_eq!(
        eating_plan(),
        vec![
            EatingAction::Use(Side::Right),
            EatingAction::HandOver(Side::Right),
            EatingAction::Use(Side::Left),
            EatingAction::HandOver(Side::Left),
        ]
    );
    let mut p = seated();
    p.take_initial_cutlery(Side::Left, node("fork", RegisterType::Cutlery), &Response::Success);
    p.take_initial_cutlery(Side::Right, node("knife", RegisterType::Cutlery), &Response::Success);
    assert!(p.hand_over(Side::Right).is_none());
    assert!(p.right_hand.is_some());
    p.answer_request(Side::Right, node("right", RegisterType::Philosopher), false, States::PhilosopherEating);
    assert_eq!(p.hand_over(Side::Right).unwrap().username, "knife");
    assert!(p.right_hand.is_none());
    assert!(p.has_request(Side::Right));
    assert_eq!(p.left_hand.as_ref().unwrap().username, "fork");
}

#[test]
fn sides_are_named() {
    assert_eq!(parse_side(&"left".to_string()), Some(Side::Left));
    assert_eq!(parse_side(&"right".to_string()), Some(Side::Right));
    assert_eq!(parse_side(&"up".to_string()), None);
    assert_eq!(side_name(Side::Left), "left");
    assert_eq!(side_name(Side::Right), "right");
}

#[test]
fn requests_follow_hygiene() {
    assert_eq!(request_action(true, States::PhilosopherEating), RequestAction::Remember);
    assert_eq!(request_action(true, States::PhilosopherHungry), RequestAction::CleanAndPass);
    assert_eq!(request_action(true, States::PhilosopherThinking), RequestAction::CleanAndPass);
    assert_eq!(request_action(false, States::PhilosopherThinking), RequestAction::Pass);
    assert_eq!(request_action(false, States::PhilosopherHungry), RequestAction::Remember);
    assert_eq!(request_action(false, States::PhilosopherEating), RequestAction::Remember);
}

#[test]
fn table_actions() {
    assert_eq!(table_action(States::PhilosopherThinking), TableAction::GetHungry);
    assert_eq!(table_action(States::PhilosopherHungry), TableAction::RequestCutlery);
    assert_eq!(table_action(States::PhilosopherEating), TableAction::FinishEating);
    assert_eq!(table_action(States::Initializing), TableAction::Wait);
}

#[test]
fn initial_cutlery_needs_a_successful_pick_up() {
    let mut p = seated();
    assert!(p.take_initial_cutlery(Side::Right, node("fork", RegisterType::Cutlery), &Response::Success).is_none());
    assert_eq!(p.right_hand.as_ref().unwrap().username, "fork");
    let failed = p.take_initial_cutlery(Side::Left, node("spoon", RegisterType::Cutlery), &Response::NotFound);
    assert_eq!(failed, Some(Response::Failure("Couldn't pick up cutlery during initializing!".to_string())));
    assert!(p.left_hand.is_none());
    assert!(!p.holds_both());
}

#[test]
fn receiving_cutlery() {
    let mut p = seated();
    let left = "left".to_string();
    let r = p.receive_cutlery(&Response::Failure("no".to_string()), node("fork", RegisterType::Cutlery), &left);
    assert_eq!(r, Response::Failure("Couldn't receive cutlery!".to_string()));
    assert!(p.left_hand.is_none());
    let r = p.receive_cutlery(&Response::Success, node("fork", RegisterType::Cutlery), &"middle".to_string());
    assert_eq!(r, Response::NotFound);
    let r = p.receive_cutlery(&Response::Success, node("fork", RegisterType::Cutlery), &left);
    assert_eq!(r, Response::Success);
    assert_eq!(p.left_hand.as_ref().unwrap().username, "fork");
    let r = p.receive_cutlery(&Response::Success, node("knife", RegisterType::Cutlery), &"right".to_string());
    assert_eq!(r, Response::Success);
    assert!(p.holds_both());
}

#[test]
fn answering_requests() {
    let mut p = seated();
    assert_eq!(p.requested_cutlery(&"down".to_string()).unwrap_err(), Response::NotFound);
    assert_eq!(p.requested_cutlery(&"left".to_string()).unwrap_err(), Response::Failure("verloren!".to_string()));
    p.take_initial_cutlery(Side::Left, node("fork", RegisterType::Cutlery), &Response::Success);
    p.take_initial_cutlery(Side::Right, node("knife", RegisterType::Cutlery), &Response::Success);
    let (side, cutlery) = p.requested_cutlery(&"left".to_string()).unwrap();
    assert_eq!(side, Side::Left);
    assert_eq!(cutlery.username, "fork");

    let asker = node("left", RegisterType::Philosopher);
    assert_eq!(
        p.answer_request(Side::Left, asker.clone(), true, States::PhilosopherEating),
        RequestAnswer::Reply(Response::Success)
    );
    assert!(p.has_request(Side::Left));
    assert!(!p.has_request(Side::Right));
    assert!(p.left_hand.is_some());
    assert_eq!(p.answer_request(Side::Right, asker, true, States::PhilosopherHungry), RequestAnswer::CleanAndPass);
    assert!(p.right_hand.is_none());
    assert!(p.left_hand.is_some());
}

#[test]
fn passing_cutlery() {
    let mut p = seated();
    let (to, their_side) = p.pass_target(&"left".to_string());
    assert_eq!(to.username, "left");
    assert_eq!(their_side, "right");
    let (to, their_side) = p.pass_target(&"right".to_string());
    assert_eq!(to.username, "right");
    assert_eq!(their_side, "left");
    assert_eq!(p.finish_pass(&"left".to_string(), node("fork", RegisterType::Cutlery), true), Response::Success);
    assert!(p.left_hand.is_none());
    assert_eq!(p.finish_pass(&"left".to_string(), node("fork", RegisterType::Cutlery), false), pass_failure());
    assert_eq!(p.left_hand.as_ref().unwrap().username, "fork");
    assert_eq!(pass_failure(), Response::Failure("Couldn't pass the cutlery to the neighbor!".to_string()));
    assert_eq!(invalid_dirty_reply(), Response::Failure("Didn't receive valid resonse from is_dirty!".to_string()));
}

#[test]
fn asking_for_missing_cutlery() {
    let mut p = seated();
    let (to, side) = p.cutlery_request(Side::Right).unwrap();
    assert_eq!(to.username, "right");
    assert_eq!(side, "left");
    let (to, side) = p.cutlery_request(Side::Left).unwrap();
    assert_eq!(to.username, "left");
    assert_eq!(side, "right");
    p.take_initial_cutlery(Side::Left, node("fork", RegisterType::Cutlery), &Response::Success);
    assert!(p.cutlery_request(Side::Left).is_none());
    p.release(Side::Left);
    assert!(p.cutlery_request(Side::Left).is_some());
}
