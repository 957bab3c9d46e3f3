//! The player state machine, direction resolution, the interaction
//! gate, and character walking with live pathfinding.

use winternight::anim::AnimationsGroup;
use winternight::characters::{any_interacting, Action, ActionCondition, Character};
use winternight::game::{FrameInput, Game};
use winternight::player::{Direction, Player, PlayerState, Tag, MOVE_TIME_MS};
use winternight::tilemap::TileMap;

fn idle_character(script: Vec<(ActionCondition, Action)>) -> Character {
    Character {
        draw_x: 0,
        draw_y: 0,
        actions: script,
        animation: None,
        x: 0,
        y: 0,
        action_index: 0,
        animation_playing: false,
        animation_index: 0,
        anim_time: 0,
        timer: 0,
        draw_over: false,
        interact_message: None,
        interacting: false,
        name: "",
        moving_to: None,
        direction: Direction::Left,
        has_collision: true,
        draw_offset_x: 0,
        draw_offset_y: 0,
    }
}

fn open_game(player_cell: (usize, usize), characters: Vec<Character>) -> Game {
    let map = TileMap::new(vec![0u8; 25], 5).unwrap();
    let player = Player::new(player_cell);
    Game::new(map, Vec::<AnimationsGroup>::new(), player, characters).unwrap()
}

fn frame(delta_ms: u32, axis: (i64, i64)) -> FrameInput {
    FrameInput { delta_ms, axis, confirm: false, fast_move: false }
}

#[test]
fn direction_resolution_follows_the_tie_break() {
    assert_eq!(Direction::from_vec2((1, 0), (0, 0)), Direction::Right);
    assert_eq!(Direction::from_vec2((0, -1), (0, 0)), Direction::Up);
    assert_eq!(Direction::from_vec2((-1, 0), (0, 0)), Direction::Left);
    assert_eq!(Direction::from_vec2((0, 1), (0, 0)), Direction::Down);
    // Diagonal input with a previously horizontal direction: the
    // vertical part wins.
    assert_eq!(
        Direction::from_vec2((1, -1), Direction::Right.to_vec2()),
        Direction::Up
    );
    // Diagonal input with a previously vertical direction: the
    // horizontal part wins.
    assert_eq!(
        Direction::from_vec2((1, -1), Direction::Down.to_vec2()),
        Direction::Right
    );
    // Zero input falls back to Left.
    assert_eq!(Direction::from_vec2((0, 0), (0, 0)), Direction::Left);
}

#[test]
fn player_crosses_one_cell_in_move_time() {
    let mut game = open_game((0, 0), Vec::new());
    // One frame of rightward input claims the next cell.
    game.update(frame(0, (1, 0)));
    assert_eq!(game.player.direction, Direction::Right);
    assert_eq!((game.player.x, game.player.y), (1, 0));
    assert!(matches!(game.player.state, PlayerState::Moving));
    assert_eq!(game.player.draw_x, 0);
    // Five 50 ms frames add up to MOVE_TIME_MS; the walk covers
    // exactly one 16-pixel cell at constant speed.
    let dt = (MOVE_TIME_MS / 5) as u32;
    for i in 1..=4u64 {
        game.update(frame(dt, (0, 0)));
        assert_eq!(game.player.draw_x, i * 3200);
        assert!(matches!(game.player.state, PlayerState::Moving));
    }
    game.update(frame(dt, (0, 0)));
    assert_eq!(game.player.draw_x, 16000);
    assert!(matches!(game.player.state, PlayerState::Idle));
}

#[test]
fn walls_block_the_player() {
    let mut tiles = vec![0u8; 25];
    tiles[1 + 0 * 5] = 1;
    let map = TileMap::new(tiles, 5).unwrap();
    let mut game =
        Game::new(map, Vec::<AnimationsGroup>::new(), Player::new((0, 0)), Vec::new()).unwrap();
    game.update(frame(16, (1, 0)));
    assert_eq!((game.player.x, game.player.y), (0, 0));
    assert!(matches!(game.player.state, PlayerState::Idle));
    // At the grid's edge the coordinate saturates: the "step" goes
    // to the player's own cell, so the next frame snaps straight back
    // to idle with no displacement.
    game.update(frame(16, (0, -1)));
    assert_eq!((game.player.x, game.player.y), (0, 0));
    game.update(frame(16, (0, 0)));
    assert_eq!((game.player.draw_x, game.player.draw_y), (0, 0));
    assert!(matches!(game.player.state, PlayerState::Idle));
}

#[test]
fn walking_into_a_prompting_character_starts_its_interaction() {
    let mut npc = idle_character(vec![(ActionCondition::NeverChange, Action::Noop)]);
    npc.x = 1;
    npc.y = 0;
    npc.interact_message = Some("E: talk");
    let mut game = open_game((0, 0), vec![npc]);
    let out = game.update(frame(16, (1, 0)));
    // The player stays put; the character starts interacting and
    // shows its message as a dialogue box the same frame.
    assert_eq!((game.player.x, game.player.y), (0, 0));
    assert!(matches!(game.player.state, PlayerState::Idle));
    assert!(game.characters[0].interacting);
    assert_eq!(out.dialogue, Some(("E: talk", "")));
    // Confirming dismisses it.
    let out = game.update(FrameInput { delta_ms: 16, axis: (0, 0), confirm: true, fast_move: false });
    assert_eq!(out.dialogue, Some(("E: talk", "")));
    assert!(!game.characters[0].interacting);
}

#[test]
fn collidable_character_without_prompt_just_blocks() {
    let mut npc = idle_character(vec![(ActionCondition::NeverChange, Action::Noop)]);
    npc.x = 1;
    npc.y = 0;
    let mut game = open_game((0, 0), vec![npc]);
    game.update(frame(16, (1, 0)));
    assert_eq!((game.player.x, game.player.y), (0, 0));
    assert!(!game.characters[0].interacting);
}

#[test]
fn passable_character_does_not_block() {
    let mut npc = idle_character(vec![(ActionCondition::NeverChange, Action::Noop)]);
    npc.x = 1;
    npc.y = 0;
    npc.has_collision = false;
    let mut game = open_game((0, 0), vec![npc]);
    game.update(frame(16, (1, 0)));
    assert_eq!((game.player.x, game.player.y), (1, 0));
}

#[test]
fn interaction_gate_reports_first_active_and_freezes_player() {
    let calm = idle_character(vec![(ActionCondition::NeverChange, Action::Noop)]);
    let mut busy = idle_character(vec![(ActionCondition::NeverChange, Action::Noop)]);
    busy.x = 3;
    busy.interacting = true;
    busy.interact_message = Some("E: talk");
    let mut game = open_game((0, 0), vec![calm, busy]);
    assert_eq!(any_interacting(&game.characters), Some(1));
    // Movement input is a no-op while the interaction is active.
    for _ in 0..3 {
        game.update(frame(16, (1, 0)));
        assert_eq!((game.player.x, game.player.y), (0, 0));
        assert!(matches!(game.player.state, PlayerState::Idle));
    }
}

#[test]
fn a_character_mid_dialogue_also_freezes_player() {
    let talker = idle_character(vec![(ActionCondition::Dialogue("..."), Action::Noop)]);
    let mut game = open_game((0, 0), vec![talker]);
    assert_eq!(any_interacting(&game.characters), Some(0));
    game.update(frame(16, (1, 0)));
    assert_eq!((game.player.x, game.player.y), (0, 0));
}

#[test]
fn fast_move_crosses_a_cell_sooner() {
    let mut game = open_game((0, 0), Vec::new());
    game.update(FrameInput { delta_ms: 0, axis: (1, 0), confirm: false, fast_move: true });
    assert!(matches!(game.player.state, PlayerState::Moving));
    // At the fast 100 ms-per-cell speed, one 100 ms frame arrives.
    game.update(FrameInput { delta_ms: 100, axis: (0, 0), confirm: false, fast_move: true });
    assert_eq!(game.player.draw_x, 16000);
    assert!(matches!(game.player.state, PlayerState::Idle));
}

#[test]
fn walking_character_takes_hops_toward_its_destination() {
    let script = vec![
        (ActionCondition::AlwaysChange, Action::MoveTo((2, 0))),
        (ActionCondition::ReachedDestination, Action::GiveTag(Tag::OpenedDoor)),
    ];
    let mut game = open_game((4, 4), vec![idle_character(script)]);
    // Frame 1: the step fires and sets the destination.
    game.update(frame(0, (0, 0)));
    assert_eq!(game.characters[0].moving_to, Some((2, 0)));
    // Frame 2: standing on its own cell, it claims the first hop.
    game.update(frame(0, (0, 0)));
    assert_eq!((game.characters[0].x, game.characters[0].y), (1, 0));
    // One full cell-crossing later it snaps and claims the next hop.
    game.update(frame(MOVE_TIME_MS as u32, (0, 0)));
    assert_eq!(game.characters[0].draw_x, 16000);
    assert_eq!((game.characters[0].x, game.characters[0].y), (2, 0));
    game.update(frame(MOVE_TIME_MS as u32, (0, 0)));
    assert_eq!(game.characters[0].draw_x, 32000);
    // Arrival raises ReachedDestination, which fires the next step.
    game.update(frame(0, (0, 0)));
    assert!(game.player.tags.contains(&Tag::OpenedDoor));
}

#[test]
fn walking_character_waits_when_no_path_exists() {
    // The player's cell plugs the only corridor.
    let mut tiles = vec![0u8; 9];
    tiles[1 + 0 * 3] = 1;
    tiles[1 + 2 * 3] = 1;
    let map = TileMap::new(tiles, 3).unwrap();
    let script = vec![(ActionCondition::AlwaysChange, Action::MoveTo((2, 0)))];
    let mut game = Game::new(
        map,
        Vec::<AnimationsGroup>::new(),
        Player::new((1, 1)),
        vec![idle_character(script)],
    )
    .unwrap();
    for _ in 0..5 {
        game.update(frame(250, (0, 0)));
        assert_eq!((game.characters[0].x, game.characters[0].y), (0, 0));
    }
}
