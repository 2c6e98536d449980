use road_race::collision::{process_collisions, health_text, CollisionEvent, Command, Phase};
use road_race::entity::{Entity, Role};
use road_race::frame::{evaluate_loss, game_logic, game_over_text};
use road_race::motion::{get_obstacles_speed, update_entities, update_obstacle, update_road_segment};
use road_race::player::{enforce_boundary, update_player, InputState, TILT_FACTOR};
use road_race::state::GameState;
use road_race::{OBSTACLES_SPEED, PLAYER_SPEED, START_HEALTH};

fn entity(role: Role, x: i64, y: i64) -> Entity {
    Entity { role, x, y, rotation: 0, layer: 1, collision: true }
}

fn begin_hit() -> CollisionEvent {
    CollisionEvent { first: Role::Player, second: Role::Obstacle, phase: Phase::Begin }
}

fn no_input() -> InputState {
    InputState { up: false, down: false, left: false, right: false }
}

#[test]
fn fresh_session_state() {
    let s = GameState::default();
    assert_eq!(s.health, START_HEALTH);
    assert_eq!(s.health, 5);
    assert!(!s.lost);
}

#[test]
fn difficulty_speed_values() {
    // 0.4 s, 1.2 s and 5.9 s of session time.
    assert_eq!(get_obstacles_speed(400), OBSTACLES_SPEED);
    assert_eq!(get_obstacles_speed(1200), OBSTACLES_SPEED + 10);
    assert_eq!(get_obstacles_speed(5900), OBSTACLES_SPEED + 50);
}

#[test]
fn difficulty_speed_steps_once_per_second() {
    assert_eq!(get_obstacles_speed(0), 500);
    assert_eq!(get_obstacles_speed(999), 500);
    assert_eq!(get_obstacles_speed(1000), 510);
    assert_eq!(get_obstacles_speed(1999), 510);
    assert_eq!(get_obstacles_speed(2000), 520);
}

#[test]
fn difficulty_speed_never_decreases() {
    let mut last = 0;
    for elapsed in [0u64, 1, 400, 999, 1000, 1200, 5900, 60_000, 3_600_000] {
        let speed = get_obstacles_speed(elapsed);
        assert!(speed >= last);
        last = speed;
    }
}

#[test]
fn road_segment_wraps_to_right_edge() {
    // A segment at -700 units with a zero delta sits past the -675 unit
    // threshold and reappears 1500 units to the right, at 800 units.
    let mut seg = entity(Role::RoadSegment, -700_000, 0);
    update_road_segment(&mut seg, 0);
    assert_eq!(seg.x, 800_000);
}

#[test]
fn road_segment_wrap_keeps_residual_motion() {
    let mut seg = entity(Role::RoadSegment, -700_000, -25_000);
    update_road_segment(&mut seg, 10);
    // 10 ms at 400 units/s scrolls 4 more units left before the wrap.
    assert_eq!(seg.x, 796_000);
    assert_eq!(seg.y, -25_000);
}

#[test]
fn road_segment_scrolls_without_wrap() {
    let mut seg = entity(Role::RoadSegment, -600_000, 0);
    update_road_segment(&mut seg, 10);
    assert_eq!(seg.x, -604_000);
}

#[test]
fn obstacle_scrolls_at_given_speed() {
    let mut ob = entity(Role::Obstacle, 0, 120_000);
    update_obstacle(&mut ob, 500, 100);
    assert_eq!(ob.x, -50_000);
    assert_eq!(ob.y, 120_000);
}

#[test]
fn obstacle_recycles_into_entry_bands() {
    // Exercised repeatedly: every recycled position must fall in
    // x ∈ [800, 1600) and y ∈ [−300, 300) units, whatever the draw.
    for _ in 0..200 {
        let mut ob = entity(Role::Obstacle, -900_000, 0);
        update_obstacle(&mut ob, 500, 0);
        assert!((800_000..1_600_000).contains(&ob.x));
        assert!((-300_000..300_000).contains(&ob.y));
        assert_eq!(ob.role, Role::Obstacle);
        assert!(ob.collision);
        assert_eq!(ob.layer, 1);
    }
}

#[test]
fn motion_visits_every_entity_and_spares_player() {
    let mut entities = vec![
        entity(Role::Player, -500_000, 10_000),
        entity(Role::RoadSegment, -700_000, 0),
        entity(Role::Obstacle, 0, 0),
    ];
    update_entities(&mut entities, 0, 10);
    assert_eq!(entities[0].x, -500_000);
    assert_eq!(entities[0].y, 10_000);
    assert_eq!(entities[1].x, 796_000);
    assert_eq!(entities[2].x, -5_000);
}

#[test]
fn one_hit_decrements_and_refreshes_label() {
    let mut state = GameState { health: 3, lost: false };
    let events = vec![begin_hit()];
    let cmds = process_collisions(&mut state, events);
    assert_eq!(state.health, 2);
    assert!(!state.lost);
    assert_eq!(cmds.len(), 2);
    assert_eq!(cmds[0], Command::SetHealthText(String::from("Health: 2")));
    assert_eq!(cmds[1], Command::PlayImpactCue);
}

#[test]
fn simultaneous_hits_stop_at_zero() {
    // Two hits in one frame against one health point: health reaches 0,
    // never below, and only the hit that found health > 0 plays a cue.
    let mut state = GameState { health: 1, lost: false };
    let events = vec![begin_hit(), begin_hit()];
    let cmds = process_collisions(&mut state, events);
    assert_eq!(state.health, 0);
    let cues = cmds.iter().filter(|c| **c == Command::PlayImpactCue).count();
    assert_eq!(cues, 1);
    assert_eq!(cmds.len(), 2);
    assert_eq!(cmds[0], Command::SetHealthText(String::from("Health: 0")));
}

#[test]
fn five_hits_drain_full_health_with_one_cue_each() {
    let mut state = GameState::default();
    let events = vec![begin_hit(); 7];
    let cmds = process_collisions(&mut state, events);
    assert_eq!(state.health, 0);
    let cues = cmds.iter().filter(|c| **c == Command::PlayImpactCue).count();
    assert_eq!(cues, 5);
    // The label ends on the final health value.
    assert_eq!(cmds[8], Command::SetHealthText(String::from("Health: 0")));
}

#[test]
fn end_phase_and_bystander_contacts_cost_nothing() {
    let mut state = GameState { health: 4, lost: false };
    let events = vec![
        CollisionEvent { first: Role::Player, second: Role::Obstacle, phase: Phase::End },
        CollisionEvent { first: Role::Obstacle, second: Role::RoadSegment, phase: Phase::Begin },
    ];
    let cmds = process_collisions(&mut state, events);
    assert_eq!(state.health, 4);
    assert!(cmds.is_empty());
}

#[test]
fn empty_queue_changes_nothing() {
    let mut state = GameState { health: 2, lost: false };
    let cmds = process_collisions(&mut state, Vec::new());
    assert_eq!(state.health, 2);
    assert!(cmds.is_empty());
}

#[test]
fn health_label_texts() {
    assert_eq!(health_text(0), "Health: 0");
    assert_eq!(health_text(1), "Health: 1");
    assert_eq!(health_text(2), "Health: 2");
    assert_eq!(health_text(3), "Health: 3");
    assert_eq!(health_text(4), "Health: 4");
    assert_eq!(health_text(5), "Health: 5");
}

#[test]
fn game_over_label_text() {
    assert_eq!(game_over_text(), "Game Over!");
}

#[test]
fn diagonal_input_moves_both_axes_and_tilts() {
    // Up+Right for 1 s: +250 units on each axis — the diagonal is √2
    // faster than an axis-aligned move, by design — and a +0.15 rad tilt.
    let mut player = entity(Role::Player, 0, 0);
    let input = InputState { up: true, down: false, left: false, right: true };
    update_player(&mut player, &input, 1000);
    assert_eq!(player.x, PLAYER_SPEED * 1000);
    assert_eq!(player.y, PLAYER_SPEED * 1000);
    assert_eq!(player.x, 250_000);
    assert_eq!(player.rotation, TILT_FACTOR);
}

#[test]
fn opposed_inputs_cancel() {
    let mut player = entity(Role::Player, 1000, 2000);
    let input = InputState { up: true, down: true, left: true, right: true };
    update_player(&mut player, &input, 500);
    assert_eq!(player.x, 1000);
    assert_eq!(player.y, 2000);
    assert_eq!(player.rotation, 0);
}

#[test]
fn down_input_tilts_negative() {
    let mut player = entity(Role::Player, 0, 0);
    let input = InputState { up: false, down: true, left: true, right: false };
    update_player(&mut player, &input, 100);
    assert_eq!(player.x, -25_000);
    assert_eq!(player.y, -25_000);
    assert_eq!(player.rotation, -TILT_FACTOR);
}

#[test]
fn leaving_playfield_is_instant_full_loss() {
    // x = 1600 units lies beyond the 1500 unit bound: health drops from 5
    // to 0 at once, regardless of its prior value.
    let mut state = GameState::default();
    let player = entity(Role::Player, 1_600_000, 0);
    enforce_boundary(&mut state, &player);
    assert_eq!(state.health, 0);
}

#[test]
fn boundary_edges_are_exact() {
    // x bounds are inclusive; the lower y edge is already out, the upper
    // y edge is still in.
    for (x, y, out) in [
        (-600_000, 0, false),
        (-600_001, 0, true),
        (1_500_000, 0, false),
        (1_500_001, 0, true),
        (0, -360_000, true),
        (0, -359_999, false),
        (0, 360_000, false),
        (0, 360_001, true),
    ] {
        let mut state = GameState { health: 3, lost: false };
        let player = entity(Role::Player, x, y);
        enforce_boundary(&mut state, &player);
        assert_eq!(state.health == 0, out, "x={x} y={y}");
        if !out {
            assert_eq!(state.health, 3);
        }
    }
}

#[test]
fn loss_transition_posts_game_over_each_frame() {
    let mut state = GameState { health: 0, lost: false };
    let mut cmds = Vec::new();
    evaluate_loss(&mut state, &mut cmds);
    assert!(state.lost);
    assert_eq!(
        cmds,
        vec![
            Command::PostGameOver(String::from("Game Over!")),
            Command::StopMusic,
            Command::PlayGameOverCue,
        ]
    );
    // The condition is re-evaluated every frame, not edge-detected: while
    // health stays at zero the presentation fires again.
    let mut again = Vec::new();
    evaluate_loss(&mut state, &mut again);
    assert!(state.lost);
    assert_eq!(again.len(), 3);
}

#[test]
fn loss_transition_idle_while_healthy() {
    let mut state = GameState { health: 2, lost: false };
    let mut cmds = Vec::new();
    evaluate_loss(&mut state, &mut cmds);
    assert!(!state.lost);
    assert!(cmds.is_empty());
}

fn scene() -> Vec<Entity> {
    let mut entities = vec![entity(Role::Player, -500_000, 0)];
    for i in 0..20 {
        entities.push(entity(Role::RoadSegment, -600_000 + 150_000 * i, -200_000));
    }
    for _ in 0..3 {
        entities.push(entity(Role::Obstacle, 900_000, 0));
    }
    entities
}

#[test]
fn full_frame_with_one_hit() {
    let mut state = GameState::default();
    let mut entities = scene();
    let input = InputState { up: false, down: false, left: false, right: true };
    let cmds = game_logic(&mut state, &mut entities, vec![begin_hit()], &input, 16, 2500);
    assert_eq!(state.health, 4);
    assert!(!state.lost);
    assert_eq!(cmds.len(), 2);
    assert_eq!(cmds[0], Command::SetHealthText(String::from("Health: 4")));
    assert_eq!(cmds[1], Command::PlayImpactCue);
    // The player advanced 16 ms at 250 units/s to the right.
    assert_eq!(entities[0].x, -496_000);
    assert_eq!(entities[0].y, 0);
    // Obstacles scrolled at the scaled speed: 500 + 10·2 units/s for 16 ms.
    assert_eq!(entities[21].x, 900_000 - 520 * 16);
}

#[test]
fn full_frame_losing_the_last_point() {
    let mut state = GameState { health: 1, lost: false };
    let mut entities = scene();
    let events = vec![begin_hit(), begin_hit()];
    let cmds = game_logic(&mut state, &mut entities, events, &no_input(), 16, 0);
    assert_eq!(state.health, 0);
    assert!(state.lost);
    assert_eq!(cmds.len(), 5);
    assert_eq!(cmds[0], Command::SetHealthText(String::from("Health: 0")));
    assert_eq!(cmds[1], Command::PlayImpactCue);
    assert_eq!(cmds[2], Command::PostGameOver(String::from("Game Over!")));
    assert_eq!(cmds[3], Command::StopMusic);
    assert_eq!(cmds[4], Command::PlayGameOverCue);
}

#[test]
fn session_health_monotone_and_lost_iff_exhausted() {
    // A short session: health never increases across frames, stays in
    // 0..=5, and the lost flag is set exactly once health has hit zero.
    let mut state = GameState::default();
    let mut entities = scene();
    let mut seen_zero = false;
    let mut last_health = state.health;
    for frame in 0u64..12 {
        let events = if frame % 2 == 1 { vec![begin_hit()] } else { Vec::new() };
        game_logic(&mut state, &mut entities, events, &no_input(), 16, frame * 16);
        assert!(state.health <= last_health);
        assert!(state.health <= 5);
        last_health = state.health;
        seen_zero = seen_zero || state.health == 0;
        assert_eq!(state.lost, seen_zero);
    }
    assert!(state.lost);
}
