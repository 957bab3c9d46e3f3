//! Load-time validation: animation timing, grids, archetypes and the
//! world constructor's configuration errors.

use winternight::anim::{AnimError, Animation, AnimationsGroup};
use winternight::characters::{child_ferret, door, fireplace, mother_ferret, raincoat_ferret,
    Action, ActionCondition, Character};
use winternight::game::{ConfigError, Game};
use winternight::player::{Direction, Player, Tag};
use winternight::tilemap::{TileMap, TileMapError};

fn idle_character(script: Vec<(ActionCondition, Action)>) -> Character {
    Character {
        draw_x: 0,
        draw_y: 0,
        actions: script,
        animation: None,
        x: 0,
        y: 0,
        action_index: 0,
        animation_playing: false,
        animation_index: 0,
        anim_time: 0,
        timer: 0,
        draw_over: false,
        interact_message: None,
        interacting: false,
        name: "",
        moving_to: None,
        direction: Direction::Left,
        has_collision: true,
        draw_offset_x: 0,
        draw_offset_y: 0,
    }
}

#[test]
fn frame_lookup_walks_the_durations() {
    let clip = Animation::new(vec![100, 50, 25]).unwrap();
    assert_eq!(clip.total_length, 175);
    assert_eq!(clip.get_at_time(0), 0);
    assert_eq!(clip.get_at_time(99), 0);
    assert_eq!(clip.get_at_time(100), 1);
    assert_eq!(clip.get_at_time(149), 1);
    assert_eq!(clip.get_at_time(150), 2);
    assert_eq!(clip.get_at_time(174), 2);
    // Time wraps at the total.
    assert_eq!(clip.get_at_time(175), 0);
    assert_eq!(clip.get_at_time(240), 0);
}

#[test]
fn zero_total_clip_is_rejected() {
    assert_eq!(Animation::new(Vec::new()).err().unwrap(), AnimError::ZeroTotal);
    assert_eq!(Animation::new(vec![0, 0, 0]).err().unwrap(), AnimError::ZeroTotal);
}

#[test]
fn overlong_clip_is_rejected() {
    assert_eq!(
        Animation::new(vec![u32::MAX, 1]).err().unwrap(),
        AnimError::TooLong
    );
}

#[test]
fn group_rejects_directional_index_out_of_range() {
    let clip = Animation::new(vec![100]).unwrap();
    assert_eq!(
        AnimationsGroup::new(vec![clip], Some(1), None, None, None).err().unwrap(),
        AnimError::BadDirectionIndex
    );
    let clip = Animation::new(vec![100]).unwrap();
    let g = AnimationsGroup::new(vec![clip], Some(0), None, None, None).unwrap();
    assert_eq!(g.index_for_direction(Direction::Left), Some(0));
    assert_eq!(g.index_for_direction(Direction::Up), None);
}

#[test]
fn tile_layer_dimension_errors() {
    assert_eq!(TileMap::new(vec![0; 4], 0).err().unwrap(), TileMapError::ZeroWidth);
    assert_eq!(TileMap::new(vec![0; 5], 3).err().unwrap(), TileMapError::RaggedRows);
    assert_eq!(
        TileMap::new(Vec::new(), 2_000_000_000).err().unwrap(),
        TileMapError::TooLarge
    );
}

#[test]
fn wall_lookup_treats_outside_as_wall() {
    let mut tiles = vec![0u8; 6];
    tiles[2 + 1 * 3] = 7;
    let map = TileMap::new(tiles, 3).unwrap();
    assert!(!map.is_wall((0, 0)));
    assert!(map.is_wall((2, 1)));
    assert!(map.is_wall((3, 0)));
    assert!(map.is_wall((0, 2)));
}

#[test]
fn world_rejects_malformed_map() {
    let map = TileMap { tiles: vec![0; 5], width: 3 };
    let err = Game::new(map, Vec::new(), Player::new((0, 0)), Vec::new()).err().unwrap();
    assert_eq!(err, ConfigError::InvalidMap);
}

#[test]
fn world_rejects_malformed_group() {
    let map = TileMap::new(vec![0u8; 9], 3).unwrap();
    // A clip whose recorded total does not match its durations.
    let bad = AnimationsGroup {
        animations: vec![Animation { frame_durations: vec![100], total_length: 7 }],
        dir_left: None,
        dir_right: None,
        dir_up: None,
        dir_down: None,
    };
    let err = Game::new(map, vec![bad], Player::new((0, 0)), Vec::new()).err().unwrap();
    assert_eq!(err, ConfigError::InvalidGroup(0));
}

#[test]
fn world_rejects_player_out_of_range() {
    let map = TileMap::new(vec![0u8; 9], 3).unwrap();
    let player = Player {
        tags: Vec::new(),
        draw_x: 0,
        draw_y: 0,
        x: 2_000_000_000,
        y: 0,
        direction: Direction::Left,
        time: 0,
        state: winternight::player::PlayerState::Idle,
    };
    let err = Game::new(map, Vec::new(), player, Vec::new()).err().unwrap();
    assert_eq!(err, ConfigError::InvalidPlayer);
}

#[test]
fn world_rejects_character_with_bad_script_action() {
    let map = TileMap::new(vec![0u8; 9], 3).unwrap();
    let ok = idle_character(vec![(ActionCondition::NeverChange, Action::Noop)]);
    let bad = idle_character(vec![
        (ActionCondition::AlwaysChange, Action::Teleport(2_000_000_000, 0)),
    ]);
    let err = Game::new(map, Vec::new(), Player::new((0, 0)), vec![ok, bad]).err().unwrap();
    assert_eq!(err, ConfigError::InvalidCharacter(1));
}

#[test]
fn world_rejects_clip_switch_outside_group() {
    let map = TileMap::new(vec![0u8; 9], 3).unwrap();
    let clip = Animation::new(vec![100]).unwrap();
    let group = AnimationsGroup::new(vec![clip], None, None, None, None).unwrap();
    let mut bad = idle_character(vec![(ActionCondition::AlwaysChange, Action::ChangeAnimation(4))]);
    bad.animation = Some(0);
    let err = Game::new(map, vec![group], Player::new((0, 0)), vec![bad]).err().unwrap();
    assert_eq!(err, ConfigError::InvalidCharacter(0));
}

#[test]
fn door_archetype_carries_its_script() {
    let d = door((3, 2), Some(1));
    assert_eq!(d.name, "Door");
    assert_eq!((d.x, d.y), (3, 2));
    assert_eq!(d.animation, Some(1));
    assert_eq!(d.actions.len(), 13);
    assert!(matches!(d.actions[0].0, ActionCondition::Dialogue("*knock* *knock* *knock*")));
    // The interact anchor sits one cell below the door, in
    // millipixels.
    match d.actions[1].0 {
        ActionCondition::PlayerInteract(text, anchor) => {
            assert_eq!(text, "E: open door");
            assert_eq!(anchor, (48000, 48000));
        }
        _ => panic!("unexpected second step"),
    }
    assert!(matches!(d.actions[3].1, Action::GiveTag(Tag::OpenedDoor)));
}

#[test]
fn raincoat_archetype_carries_its_script() {
    let c = raincoat_ferret((5, 6), (8, 9), (2, 3), Some(0));
    assert_eq!(c.name, "Ferret in a raincoat");
    assert_eq!(c.actions.len(), 27);
    assert_eq!((c.draw_offset_x, c.draw_offset_y), (-16000, -16000));
    assert!(matches!(c.actions[0].0, ActionCondition::PlayerHasTag(Tag::OpenedDoor)));
    assert!(matches!(c.actions[12].1, Action::MoveTo((8, 9))));
    assert!(matches!(c.actions[21].1, Action::MoveTo((2, 3))));
    assert!(matches!(c.actions[6].1, Action::TeleportPlayer(6, 7)));
}

#[test]
fn fireplace_archetype_draws_over_the_world() {
    let f = fireplace((2, 2), None);
    assert!(f.draw_over);
    assert_eq!(f.actions.len(), 4);
    match f.actions[1].0 {
        ActionCondition::PlayerInteract(text, anchor) => {
            assert_eq!(text, "E: light fireplace");
            // Half a cell to the right, two cells down.
            assert_eq!(anchor, (40000, 64000));
        }
        _ => panic!("unexpected second step"),
    }
}

#[test]
fn mother_archetype_stages_offscreen() {
    let m = mother_ferret((4, 5), None);
    assert_eq!(m.name, "Ferret Mother");
    // She waits offscreen at the origin until her cue teleports her in.
    assert_eq!((m.draw_x, m.draw_y), (0, 0));
    assert_eq!((m.x, m.y), (4, 5));
    assert_eq!(m.actions.len(), 10);
    assert!(matches!(m.actions[0].1, Action::Teleport(4, 5)));
    assert!(matches!(m.actions[9].1, Action::GiveTag(Tag::ClosedDoor2)));
}

#[test]
fn child_archetype_fans_out_by_id() {
    let first = child_ferret((4, 5), 0, None);
    let second = child_ferret((4, 5), 1, None);
    assert!(!first.has_collision);
    assert_eq!(first.draw_offset_x, -2000);
    assert_eq!(second.draw_offset_x, 8000);
    assert_eq!(first.actions.len(), 2);
    assert!(matches!(first.actions[1].1, Action::Teleport(3, 6)));
}
