use walk_the_dog::engine::GameLoop;
use walk_the_dog::engine::KeyState;
use walk_the_dog::engine::KeyboardState;
use walk_the_dog::engine::Point;
use walk_the_dog::game::RedHatBoy;
use walk_the_dog::game::RedHatBoyStateMachine;
use walk_the_dog::game::WalkTheDog;

#[test]
fn down_down_up_in_one_drain_leaves_the_key_released() {
    let mut kb = KeyboardState::new();
    let events = vec![
        KeyState::Down(String::from("KeyA")),
        KeyState::Down(String::from("KeyA")),
        KeyState::Up(String::from("KeyA")),
    ];
    kb.process_input(&events);
    assert!(!kb.is_pressed("KeyA"));
}

#[test]
fn spurious_key_up_is_a_no_op() {
    let mut kb = KeyboardState::new();
    let events = vec![
        KeyState::Down(String::from("KeyA")),
        KeyState::Up(String::from("KeyB")),
    ];
    kb.process_input(&events);
    assert!(kb.is_pressed("KeyA"));
    assert!(!kb.is_pressed("KeyB"));
}

#[test]
fn occurrences_are_applied_in_arrival_order() {
    let mut kb = KeyboardState::new();
    let events = vec![
        KeyState::Up(String::from("KeyA")),
        KeyState::Down(String::from("KeyA")),
    ];
    kb.process_input(&events);
    assert!(kb.is_pressed("KeyA"));

    let events = vec![
        KeyState::Down(String::from("KeyA")),
        KeyState::Up(String::from("KeyA")),
        KeyState::Down(String::from("KeyA")),
    ];
    kb.process_input(&events);
    assert!(kb.is_pressed("KeyA"));
}

#[test]
fn a_long_pause_is_caught_up_with_a_burst_of_ticks() {
    let mut game_loop = GameLoop::new(0);
    let ticks = game_loop.advance(1000000);
    assert_eq!(ticks, 60);
    assert_eq!(game_loop.accumulated_delta, 1000000 - 60 * 16666);
}

#[test]
fn a_second_key_down_keeps_the_key_held() {
    let mut kb = KeyboardState::new();
    kb.set_pressed("KeyF");
    kb.set_pressed("KeyF");
    assert!(kb.is_pressed("KeyF"));
    kb.set_released("KeyF");
    assert!(!kb.is_pressed("KeyF"));
}

#[test]
fn keyboard_velocity_sums_per_key_deltas() {
    let mut kb = KeyboardState::new();
    assert_eq!(RedHatBoy::keyboard_velocity(&kb), Point { x: 0, y: 0 });
    kb.set_pressed("KeyF");
    assert_eq!(RedHatBoy::keyboard_velocity(&kb), Point { x: 3, y: 0 });
    kb.set_pressed("KeyA");
    assert_eq!(RedHatBoy::keyboard_velocity(&kb), Point { x: 0, y: 0 });
    kb.set_released("KeyF");
    kb.set_pressed("KeyS");
    assert_eq!(RedHatBoy::keyboard_velocity(&kb), Point { x: -3, y: 3 });
    kb.set_released("KeyS");
    kb.set_pressed("KeyD");
    assert_eq!(RedHatBoy::keyboard_velocity(&kb), Point { x: -3, y: -3 });
}

#[test]
fn fifty_millisecond_deltas_give_three_ticks_each() {
    let mut game_loop = GameLoop::new(0);
    let mut game = WalkTheDog::new();
    let mut kb = KeyboardState::new();
    let no_events: Vec<KeyState> = Vec::new();

    let ticks = game.run_frame(&mut game_loop, &mut kb, &no_events, 50000);
    assert_eq!(ticks, 3);
    assert_eq!(game_loop.last_frame, 50000);
    assert_eq!(game_loop.accumulated_delta, 2);

    let ticks = game.run_frame(&mut game_loop, &mut kb, &no_events, 100000);
    assert_eq!(ticks, 3);
    assert_eq!(game_loop.last_frame, 100000);
    assert_eq!(game_loop.accumulated_delta, 4);
}

#[test]
fn a_short_delta_runs_no_tick_and_carries_the_debt() {
    let mut game_loop = GameLoop::new(1000);
    let ticks = game_loop.advance(11000);
    assert_eq!(ticks, 0);
    assert_eq!(game_loop.accumulated_delta, 10000);
    let ticks = game_loop.advance(18000);
    assert_eq!(ticks, 1);
    assert_eq!(game_loop.accumulated_delta, 17000 - 16666);
}

#[test]
fn a_debt_of_exactly_one_frame_waits_for_the_next_callback() {
    let mut game_loop = GameLoop::new(0);
    let ticks = game_loop.advance(16666);
    assert_eq!(ticks, 0);
    assert_eq!(game_loop.accumulated_delta, 16666);
    let ticks = game_loop.advance(16667);
    assert_eq!(ticks, 1);
    assert_eq!(game_loop.accumulated_delta, 1);
}

#[test]
fn a_game_without_a_character_ignores_updates() {
    let mut game = WalkTheDog::new();
    let mut game_loop = GameLoop::new(0);
    let mut kb = KeyboardState::new();
    let events = vec![KeyState::Down(String::from("KeyF"))];
    let ticks = game.run_frame(&mut game_loop, &mut kb, &events, 50000);
    assert_eq!(ticks, 3);
    assert!(game.rhb.is_none());
    assert!(kb.is_pressed("KeyF"));
}

#[test]
fn holding_the_right_key_for_a_hundred_milliseconds_runs_six_ticks() {
    let mut game = WalkTheDog::new();
    game.rhb = Some(RedHatBoy::new());
    let mut game_loop = GameLoop::new(0);
    let mut kb = KeyboardState::new();

    let events = vec![KeyState::Down(String::from("KeyF"))];
    let ticks = game.run_frame(&mut game_loop, &mut kb, &events, 100000);
    assert_eq!(ticks, 6);

    let boy = game.rhb.as_ref().unwrap();
    assert!(matches!(boy.state_machine, RedHatBoyStateMachine::Running(_)));
    let context = *boy.state_machine.context();
    assert_eq!(context.pos, Point { x: 18, y: 475 });
    assert_eq!(context.frame, 6);
    assert_eq!(context.vel, Point { x: 3, y: 0 });

    let events = vec![KeyState::Up(String::from("KeyF"))];
    let ticks = game.run_frame(&mut game_loop, &mut kb, &events, 116670);
    assert_eq!(ticks, 1);

    let boy = game.rhb.as_ref().unwrap();
    assert!(matches!(boy.state_machine, RedHatBoyStateMachine::Idle(_)));
    let context = *boy.state_machine.context();
    assert_eq!(context.vel, Point { x: 0, y: 0 });
    assert_eq!(context.pos, Point { x: 18, y: 475 });
    assert_eq!(context.frame, 1);
}

#[test]
fn the_idle_transition_itself_resets_the_frame_counter() {
    let mut game = WalkTheDog::new();
    game.rhb = Some(RedHatBoy::new());
    let mut game_loop = GameLoop::new(0);
    let mut kb = KeyboardState::new();
    let events = vec![KeyState::Down(String::from("KeyF"))];
    game.run_frame(&mut game_loop, &mut kb, &events, 100000);

    let running = game.rhb.as_ref().unwrap().state_machine;
    let stopped = running.transition(walk_the_dog::game::GameEvent::Idle);
    assert!(matches!(stopped, RedHatBoyStateMachine::Idle(_)));
    assert_eq!(stopped.context().frame, 0);
    assert_eq!(stopped.context().vel, Point { x: 0, y: 0 });
}
