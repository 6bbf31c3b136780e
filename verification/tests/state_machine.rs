use walk_the_dog::engine::Point;
use walk_the_dog::game::GameEvent;
use walk_the_dog::game::RedHatBoy;
use walk_the_dog::game::RedHatBoyStateMachine;
use walk_the_dog::game::red_hat_boy_states::Idle;
use walk_the_dog::game::red_hat_boy_states::RedHatBoyContext;
use walk_the_dog::game::red_hat_boy_states::RedHatBoyState;
use walk_the_dog::game::red_hat_boy_states::Running;

fn idle_machine(frame: u8, pos: Point, vel: Point) -> RedHatBoyStateMachine {
    RedHatBoyStateMachine::Idle(RedHatBoyState {
        context: RedHatBoyContext { frame, pos, vel },
        clip: Idle,
    })
}

fn running_machine(frame: u8, pos: Point, vel: Point) -> RedHatBoyStateMachine {
    RedHatBoyStateMachine::Running(RedHatBoyState {
        context: RedHatBoyContext { frame, pos, vel },
        clip: Running,
    })
}

#[test]
fn initial_state_is_idle_at_ground_offset() {
    let boy = RedHatBoy::new();
    assert!(matches!(boy.state_machine, RedHatBoyStateMachine::Idle(_)));
    let context = *boy.state_machine.context();
    assert_eq!(context.frame, 0);
    assert_eq!(context.pos, Point { x: 0, y: 475 });
    assert_eq!(context.vel, Point { x: 0, y: 0 });
}

#[test]
fn transition_covers_all_four_state_event_pairs() {
    let pos = Point { x: 7, y: 475 };
    let vel = Point { x: 3, y: 0 };

    let next = idle_machine(5, pos, vel).transition(GameEvent::Idle);
    assert!(matches!(next, RedHatBoyStateMachine::Idle(_)));
    assert_eq!(
        *next.context(),
        RedHatBoyContext { frame: 5, pos, vel: Point { x: 0, y: 0 } },
    );

    let next = idle_machine(5, pos, Point { x: 0, y: 0 }).transition(GameEvent::Run { vel });
    assert!(matches!(next, RedHatBoyStateMachine::Running(_)));
    assert_eq!(*next.context(), RedHatBoyContext { frame: 0, pos, vel });

    let next = running_machine(5, pos, vel).transition(GameEvent::Idle);
    assert!(matches!(next, RedHatBoyStateMachine::Idle(_)));
    assert_eq!(
        *next.context(),
        RedHatBoyContext { frame: 0, pos, vel: Point { x: 0, y: 0 } },
    );

    let new_vel = Point { x: -3, y: 3 };
    let next = running_machine(5, pos, vel).transition(GameEvent::Run { vel: new_vel });
    assert!(matches!(next, RedHatBoyStateMachine::Running(_)));
    assert_eq!(*next.context(), RedHatBoyContext { frame: 5, pos, vel: new_vel });
}

#[test]
fn repeated_idle_events_only_zero_the_velocity() {
    let pos = Point { x: 2, y: 475 };
    let mut machine = idle_machine(9, pos, Point { x: 3, y: 0 });
    for _ in 0..4 {
        machine = machine.transition(GameEvent::Idle);
        assert!(matches!(machine, RedHatBoyStateMachine::Idle(_)));
        assert_eq!(machine.context().frame, 9);
        assert_eq!(machine.context().pos, pos);
        assert_eq!(machine.context().vel, Point { x: 0, y: 0 });
    }
}

#[test]
fn running_run_event_keeps_the_frame_counter() {
    let pos = Point { x: 10, y: 475 };
    let vel = Point { x: 3, y: 0 };
    let machine = running_machine(5, pos, vel).transition(GameEvent::Run { vel });
    assert_eq!(machine.context().frame, 5);
    let machine = machine.update();
    assert_eq!(machine.context().frame, 6);
}

#[test]
fn update_wraps_the_frame_counter() {
    let machine = idle_machine(255, Point { x: 0, y: 475 }, Point { x: 0, y: 0 }).update();
    assert_eq!(machine.context().frame, 0);
}

#[test]
fn update_accumulates_velocity_into_position() {
    let machine = running_machine(0, Point { x: 5, y: 470 }, Point { x: 3, y: -3 }).update();
    assert_eq!(machine.context().pos, Point { x: 8, y: 467 });
}

#[test]
fn frame_name_for_idle_frame_29_is_card_10() {
    let machine = idle_machine(29, Point { x: 0, y: 475 }, Point { x: 0, y: 0 });
    assert_eq!(machine.card_count(), 10);
    assert_eq!(machine.frame_name(), "Idle (10).png");
}

#[test]
fn frame_name_for_running_frame_25_is_card_1() {
    let machine = running_machine(25, Point { x: 0, y: 475 }, Point { x: 3, y: 0 });
    assert_eq!(machine.card_count(), 8);
    assert_eq!(machine.frame_name(), "Run (1).png");
}

#[test]
fn frame_name_advances_every_third_frame_and_wraps_after_the_last_card() {
    let pos = Point { x: 0, y: 475 };
    let vel = Point { x: 0, y: 0 };
    assert_eq!(idle_machine(0, pos, vel).frame_name(), "Idle (1).png");
    assert_eq!(idle_machine(2, pos, vel).frame_name(), "Idle (1).png");
    assert_eq!(idle_machine(3, pos, vel).frame_name(), "Idle (2).png");
    assert_eq!(idle_machine(30, pos, vel).frame_name(), "Idle (1).png");
    assert_eq!(running_machine(21, pos, vel).frame_name(), "Run (8).png");
    assert_eq!(running_machine(24, pos, vel).frame_name(), "Run (1).png");
}

#[test]
fn frame_name_at_start_is_first_idle_card() {
    let boy = RedHatBoy::new();
    assert_eq!(boy.state_machine.frame_name(), "Idle (1).png");
}
