//! The script interpreter: pacing, timers, tags, dialogue and the
//! animation-finish clamp, one frame at a time.

use winternight::anim::{Animation, AnimationsGroup};
use winternight::characters::{Action, ActionCondition, Character};
use winternight::game::{FrameInput, Game};
use winternight::player::{Direction, Player, Tag};
use winternight::tilemap::TileMap;

fn idle_character(script: Vec<(ActionCondition, Action)>) -> Character {
    Character {
        draw_x: 0,
        draw_y: 0,
        actions: script,
        animation: None,
        x: 0,
        y: 0,
        action_index: 0,
        animation_playing: false,
        animation_index: 0,
        anim_time: 0,
        timer: 0,
        draw_over: false,
        interact_message: None,
        interacting: false,
        name: "",
        moving_to: None,
        direction: Direction::Left,
        has_collision: true,
        draw_offset_x: 0,
        draw_offset_y: 0,
    }
}

fn game_with(characters: Vec<Character>, groups: Vec<AnimationsGroup>) -> Game {
    let map = TileMap::new(vec![0u8; 25], 5).unwrap();
    // Spawn the player away from the characters under test.
    let player = Player::new((4, 4));
    Game::new(map, groups, player, characters).unwrap()
}

fn idle_frame(delta_ms: u32) -> FrameInput {
    FrameInput { delta_ms, axis: (0, 0), confirm: false, fast_move: false }
}

#[test]
fn always_change_scripts_advance_one_step_per_frame() {
    let script = vec![
        (ActionCondition::AlwaysChange, Action::Noop),
        (ActionCondition::AlwaysChange, Action::Noop),
        (ActionCondition::AlwaysChange, Action::Noop),
    ];
    let mut game = game_with(vec![idle_character(script)], Vec::new());
    for expected in 1..=3usize {
        game.update(idle_frame(16));
        assert_eq!(game.characters[0].action_index, expected);
    }
    // Past the end the cursor stays put forever.
    game.update(idle_frame(16));
    assert_eq!(game.characters[0].action_index, 3);
}

#[test]
fn never_change_holds_a_character_idle() {
    let script = vec![(ActionCondition::NeverChange, Action::Noop)];
    let mut game = game_with(vec![idle_character(script)], Vec::new());
    for _ in 0..10 {
        game.update(idle_frame(100));
    }
    assert_eq!(game.characters[0].action_index, 0);
}

#[test]
fn time_step_fires_on_first_frame_at_threshold_and_resets_timer() {
    let script = vec![
        (ActionCondition::Time(800), Action::Noop),
        (ActionCondition::NeverChange, Action::Noop),
    ];
    let mut game = game_with(vec![idle_character(script)], Vec::new());
    game.update(idle_frame(300));
    assert_eq!(game.characters[0].action_index, 0);
    assert_eq!(game.characters[0].timer, 300);
    game.update(idle_frame(300));
    assert_eq!(game.characters[0].action_index, 0);
    assert_eq!(game.characters[0].timer, 600);
    game.update(idle_frame(300));
    assert_eq!(game.characters[0].action_index, 1);
    assert_eq!(game.characters[0].timer, 0);
}

#[test]
fn player_has_tag_gates_until_the_tag_arrives() {
    // An NPC waiting on one tag, then granting another.
    let script = vec![
        (ActionCondition::PlayerHasTag(Tag::OpenedDoor), Action::Noop),
        (ActionCondition::AlwaysChange, Action::GiveTag(Tag::LightFire)),
    ];
    let mut game = game_with(vec![idle_character(script)], Vec::new());
    for _ in 0..5 {
        game.update(idle_frame(16));
        assert_eq!(game.characters[0].action_index, 0);
    }
    game.player.tags.push(Tag::OpenedDoor);
    game.update(idle_frame(16));
    assert_eq!(game.characters[0].action_index, 1);
    assert!(!game.player.tags.contains(&Tag::LightFire));
    game.update(idle_frame(16));
    assert_eq!(game.characters[0].action_index, 2);
    assert!(game.player.tags.contains(&Tag::LightFire));
}

#[test]
fn dialogue_shows_its_box_and_waits_for_confirm() {
    let script = vec![
        (ActionCondition::Dialogue("A cold night."), Action::Noop),
        (ActionCondition::NeverChange, Action::Noop),
    ];
    let mut c = idle_character(script);
    c.name = "Stranger";
    let mut game = game_with(vec![c], Vec::new());
    let out = game.update(idle_frame(16));
    assert_eq!(out.dialogue, Some(("A cold night.", "Stranger")));
    assert_eq!(game.characters[0].action_index, 0);
    let out = game.update(FrameInput { delta_ms: 16, axis: (0, 0), confirm: true, fast_move: false });
    assert_eq!(out.dialogue, Some(("A cold night.", "Stranger")));
    assert_eq!(game.characters[0].action_index, 1);
}

#[test]
fn animation_finish_waits_for_playing_clip_to_run_out_and_clamps() {
    // One clip of two frames, 100 ms each.
    let clip = Animation::new(vec![100, 100]).unwrap();
    let group = AnimationsGroup::new(vec![clip], None, None, None, None).unwrap();
    let script = vec![
        (ActionCondition::AnimationFinish, Action::Noop),
        (ActionCondition::NeverChange, Action::Noop),
    ];
    let mut c = idle_character(script);
    c.animation = Some(0);
    c.animation_playing = true;
    let mut game = game_with(vec![c], vec![group]);
    game.update(idle_frame(150));
    assert_eq!(game.characters[0].action_index, 0);
    assert_eq!(game.characters[0].anim_time, 150);
    game.update(idle_frame(150));
    assert_eq!(game.characters[0].action_index, 1);
    // Clamped to one millisecond short of the 200 ms total, which
    // still renders the final frame.
    assert_eq!(game.characters[0].anim_time, 199);
    assert_eq!(game.groups[0].animations[0].get_at_time(199), 1);
    // The unclamped total would have wrapped to the first frame.
    assert_eq!(game.groups[0].animations[0].get_at_time(200), 0);
}

#[test]
fn animation_finish_never_fires_while_not_playing() {
    let clip = Animation::new(vec![100, 100]).unwrap();
    let group = AnimationsGroup::new(vec![clip], None, None, None, None).unwrap();
    let script = vec![(ActionCondition::AnimationFinish, Action::Noop)];
    let mut c = idle_character(script);
    c.animation = Some(0);
    c.animation_playing = false;
    c.anim_time = 10_000;
    let mut game = game_with(vec![c], vec![group]);
    for _ in 0..5 {
        game.update(idle_frame(500));
        assert_eq!(game.characters[0].action_index, 0);
    }
}

#[test]
fn set_animation_time_overrides_the_clamp() {
    let clip = Animation::new(vec![100, 100]).unwrap();
    let group = AnimationsGroup::new(vec![clip], None, None, None, None).unwrap();
    let script = vec![(ActionCondition::AnimationFinish, Action::SetAnimationTime(5))];
    let mut c = idle_character(script);
    c.animation = Some(0);
    c.animation_playing = true;
    let mut game = game_with(vec![c], vec![group]);
    game.update(idle_frame(250));
    assert_eq!(game.characters[0].action_index, 1);
    assert_eq!(game.characters[0].anim_time, 5);
}

#[test]
fn show_and_hide_screen_drive_the_overlay() {
    let script = vec![
        (ActionCondition::AlwaysChange, Action::ShowScreen(2)),
        (ActionCondition::Time(100), Action::HideScreen),
    ];
    let mut game = game_with(vec![idle_character(script)], Vec::new());
    game.update(idle_frame(16));
    assert_eq!(game.screen, Some(2));
    // Scripts keep running while the overlay is up, so it can hide
    // itself again.
    game.update(idle_frame(100));
    assert_eq!(game.screen, None);
}

#[test]
fn teleport_snaps_cell_and_draw_position() {
    let script = vec![(ActionCondition::AlwaysChange, Action::Teleport(3, 2))];
    let mut game = game_with(vec![idle_character(script)], Vec::new());
    game.update(idle_frame(16));
    assert_eq!((game.characters[0].x, game.characters[0].y), (3, 2));
    assert_eq!((game.characters[0].draw_x, game.characters[0].draw_y), (48000, 32000));
}

#[test]
fn teleport_player_snaps_player() {
    let script = vec![(ActionCondition::AlwaysChange, Action::TeleportPlayer(1, 2))];
    let mut game = game_with(vec![idle_character(script)], Vec::new());
    game.update(idle_frame(16));
    assert_eq!((game.player.x, game.player.y), (1, 2));
    assert_eq!((game.player.draw_x, game.player.draw_y), (16000, 32000));
}

#[test]
fn later_characters_see_earlier_tag_changes_same_frame() {
    let giver = vec![(ActionCondition::AlwaysChange, Action::GiveTag(Tag::OpenedDoor))];
    let watcher = vec![(ActionCondition::PlayerHasTag(Tag::OpenedDoor), Action::Noop)];
    let mut game = game_with(
        vec![idle_character(giver), idle_character(watcher)],
        Vec::new(),
    );
    game.update(idle_frame(16));
    // The watcher, later in the list, saw the tag granted this frame.
    assert_eq!(game.characters[1].action_index, 1);
}

#[test]
fn earlier_characters_see_tag_changes_next_frame() {
    let watcher = vec![(ActionCondition::PlayerHasTag(Tag::OpenedDoor), Action::Noop)];
    let giver = vec![(ActionCondition::AlwaysChange, Action::GiveTag(Tag::OpenedDoor))];
    let mut game = game_with(
        vec![idle_character(watcher), idle_character(giver)],
        Vec::new(),
    );
    game.update(idle_frame(16));
    assert_eq!(game.characters[0].action_index, 0);
    game.update(idle_frame(16));
    assert_eq!(game.characters[0].action_index, 1);
}

#[test]
fn player_interact_offers_tooltip_in_range_and_fires_on_confirm() {
    // The anchor sits on the player's own cell, well within range.
    let script = vec![
        (ActionCondition::PlayerInteract("E: look", (64000, 64000)), Action::Noop),
        (ActionCondition::NeverChange, Action::Noop),
    ];
    let mut game = game_with(vec![idle_character(script)], Vec::new());
    let out = game.update(idle_frame(16));
    assert_eq!(out.tooltip, Some("E: look"));
    assert_eq!(game.characters[0].action_index, 0);
    let out = game.update(FrameInput { delta_ms: 16, axis: (0, 0), confirm: true, fast_move: false });
    assert_eq!(out.tooltip, Some("E: look"));
    assert_eq!(game.characters[0].action_index, 1);
}

#[test]
fn player_interact_out_of_range_neither_prompts_nor_fires() {
    // The player spawns at cell (4,4); this anchor is cells away.
    let script = vec![(ActionCondition::PlayerInteract("E: look", (0, 0)), Action::Noop)];
    let mut game = game_with(vec![idle_character(script)], Vec::new());
    let out = game.update(FrameInput { delta_ms: 16, axis: (0, 0), confirm: true, fast_move: false });
    assert_eq!(out.tooltip, None);
    assert_eq!(game.characters[0].action_index, 0);
}

#[test]
fn move_to_replaces_any_earlier_destination() {
    let script = vec![
        (ActionCondition::AlwaysChange, Action::MoveTo((2, 0))),
        (ActionCondition::AlwaysChange, Action::MoveTo((0, 2))),
    ];
    let mut game = game_with(vec![idle_character(script)], Vec::new());
    game.update(idle_frame(0));
    assert_eq!(game.characters[0].moving_to, Some((2, 0)));
    game.update(idle_frame(0));
    assert_eq!(game.characters[0].moving_to, Some((0, 2)));
}
