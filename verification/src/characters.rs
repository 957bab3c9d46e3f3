//! Characters and their scripts. A script is an ordered, fixed list of
//! (condition, action) steps; each frame the interpreter evaluates the
//! step under the cursor and, when the condition holds, applies the
//! action and advances the cursor by one. A cursor at or past the end
//! of the list behaves as a permanent no-op step.

use vstd::prelude::*;
use crate::MAX_COORD;
use crate::anim::AnimationsGroupView;
use crate::player::{Direction, Tag};

verus! {

/// A script step's condition, evaluated against world state and the
/// character's own timers once per frame.
#[derive(PartialEq, Eq, Clone, Copy, Debug)]
pub enum ActionCondition {
    /// Holds unconditionally: the step fires on the next frame.
    AlwaysChange,
    /// Never holds: the terminal sentinel, and steps awaiting signals
    /// that scripts cannot produce.
    NeverChange,
    /// Holds when the player stands within the interact radius of the
    /// anchor (in millipixels) and confirms; shows the prompt text
    /// whenever the player is in range.
    PlayerInteract(&'static str, (u64, u64)),
    /// Holds on a frame where the character's walk snapped onto its
    /// pending destination cell.
    ReachedDestination,
    /// Holds when the player's tag collection contains the tag.
    PlayerHasTag(Tag),
    /// Holds when the animation is playing and its elapsed time has
    /// reached the clip's total length; as a side effect the elapsed
    /// time is clamped to one millisecond short of the total, so the
    /// clip holds its final frame.
    AnimationFinish,
    /// Shows a dialogue box with the text every frame the step is
    /// current; holds when the player confirms.
    Dialogue(&'static str),
    /// Holds once the per-step timer has accumulated this many
    /// milliseconds.
    Time(u64),
}

/// A script step's action: the only places persistent state changes.
#[derive(PartialEq, Eq, Clone, Copy, Debug)]
pub enum Action {
    /// Appends a tag to the player's collection.
    GiveTag(Tag),
    /// Switches to another clip of the character's animation group and
    /// restarts its elapsed time.
    ChangeAnimation(usize),
    /// Snaps the character's cell and draw position at once.
    Teleport(usize, usize),
    /// Snaps the player's cell and draw position at once.
    TeleportPlayer(usize, usize),
    /// Starts or stops the character's animation clock.
    SetPlayingAnimation(bool),
    /// Sets the animation's elapsed time, in milliseconds; applied
    /// after the step resolves, so it overrides the `AnimationFinish`
    /// clamp of the same frame.
    SetAnimationTime(u64),
    /// Shows a full-screen overlay by index.
    ShowScreen(usize),
    /// Sets or clears the prompt offered when the player walks into
    /// the character.
    SetInteractMessage(Option<&'static str>),
    /// Sets the pending walk destination, replacing any earlier one.
    MoveTo((usize, usize)),
    /// Hides the full-screen overlay.
    HideScreen,
    /// Makes the character solid or passable for the player.
    SetCollision(bool),
    /// Renames the character (the dialogue box speaker name).
    SetName(&'static str),
    /// Does nothing.
    Noop,
}

/// One scripted entity: its grid cell, its continuous draw position in
/// millipixels, its script and cursor, its timers in milliseconds, and
/// its presentation state.
pub struct Character {
    pub draw_x: u64,
    pub draw_y: u64,
    pub actions: Vec<(ActionCondition, Action)>,
    /// Index of the character's clip group in the caller-owned group
    /// table, where the character is animated at all.
    pub animation: Option<usize>,
    pub x: usize,
    pub y: usize,
    pub action_index: usize,
    pub animation_playing: bool,
    pub animation_index: usize,
    pub anim_time: u64,
    pub timer: u64,
    pub draw_over: bool,
    pub interact_message: Option<&'static str>,
    pub interacting: bool,
    pub name: &'static str,
    pub moving_to: Option<(usize, usize)>,
    pub direction: Direction,
    pub has_collision: bool,
    pub draw_offset_x: i64,
    pub draw_offset_y: i64,
}

#[verifier::ext_equal]
pub ghost struct CharacterView {
    pub draw_x: u64,
    pub draw_y: u64,
    pub actions: Seq<(ActionCondition, Action)>,
    pub animation: Option<usize>,
    pub x: usize,
    pub y: usize,
    pub action_index: usize,
    pub animation_playing: bool,
    pub animation_index: usize,
    pub anim_time: u64,
    pub timer: u64,
    pub draw_over: bool,
    pub interact_message: Option<&'static str>,
    pub interacting: bool,
    pub name: &'static str,
    pub moving_to: Option<(usize, usize)>,
    pub direction: Direction,
    pub has_collision: bool,
    pub draw_offset_x: i64,
    pub draw_offset_y: i64,
}

impl View for Character {
    type V = CharacterView;

    open spec fn view(&self) -> CharacterView {
        CharacterView {
            draw_x: self.draw_x,
            draw_y: self.draw_y,
            actions: self.actions@,
            animation: self.animation,
            x: self.x,
            y: self.y,
            action_index: self.action_index,
            animation_playing: self.animation_playing,
            animation_index: self.animation_index,
            anim_time: self.anim_time,
            timer: self.timer,
            draw_over: self.draw_over,
            interact_message: self.interact_message,
            interacting: self.interacting,
            name: self.name,
            moving_to: self.moving_to,
            direction: self.direction,
            has_collision: self.has_collision,
            draw_offset_x: self.draw_offset_x,
            draw_offset_y: self.draw_offset_y,
        }
    }
}

/// The implicit terminal step a cursor at or past the end yields.
pub open spec fn noop_step() -> (ActionCondition, Action) {
    (ActionCondition::NeverChange, Action::Noop)
}

impl CharacterView {
    /// The step the cursor points at, or the terminal no-op step once
    /// the cursor has run off the end.
    pub open spec fn cur_step(self) -> (ActionCondition, Action) {
        if self.action_index < self.actions.len() {
            self.actions[self.action_index as int]
        } else {
            noop_step()
        }
    }

    /// Whether this character pauses the world: it is mid-interaction,
    /// or its current step is a dialogue line.
    pub open spec fn interacting_active(self) -> bool {
        self.interacting || self.cur_step().0 is Dialogue
    }
}

impl Character {
    /// The step the cursor points at, or the terminal no-op step once
    /// the cursor has run off the end.
    pub fn get_action(&self) -> (r: (ActionCondition, Action))
        ensures
            r == self@.cur_step(),
    {
        if self.action_index >= self.actions.len() {
            return (ActionCondition::NeverChange, Action::Noop);
        }
        self.actions[self.action_index]
    }
}

/// Whether some character is pausing the world.
pub open spec fn exists_interacting(chars: Seq<CharacterView>) -> bool {
    exists|i: int| 0 <= i < chars.len() && (#[trigger] chars[i]).interacting_active()
}

/// The index of the first character that is mid-interaction or mid-
/// dialogue, if any. While this returns an index, the player's
/// movement input is not sampled.
pub fn any_interacting(characters: &Vec<Character>) -> (r: Option<usize>)
    ensures
        match r {
            Some(i) => {
                &&& i < characters@.len()
                &&& characters@[i as int]@.interacting_active()
                &&& forall|j: int|
                    0 <= j < i ==> !(#[trigger] characters@[j]@).interacting_active()
            },
            None => !exists_interacting(characters@.map_values(|c: Character| c@)),
        },
        r is Some <==> exists_interacting(characters@.map_values(|c: Character| c@)),
{
    let ghost views = characters@.map_values(|c: Character| c@);
    let mut i: usize = 0;
    while i < characters.len()
        invariant
            i <= characters@.len(),
            views == characters@.map_values(|c: Character| c@),
            forall|j: int| 0 <= j < i ==> !(#[trigger] characters@[j]@).interacting_active(),
            forall|j: int| 0 <= j < i ==> !(#[trigger] views[j]).interacting_active(),
        decreases characters@.len() - i,
    {
        let c = &characters[i];
        let active = c.interacting || match c.get_action().0 {
            ActionCondition::Dialogue(_) => true,
            _ => false,
        };
        proof {
            assert(views[i as int] == characters@[i as int]@);
        }
        if active {
            return Some(i);
        }
        i = i + 1;
    }
    proof {
        assert(!exists_interacting(views)) by {
            if exists_interacting(views) {
                let j = choose|j: int|
                    0 <= j < views.len() && (#[trigger] views[j]).interacting_active();
                assert(!views[j].interacting_active());
            }
        }
    }
    None
}

/// The defaults every archetype starts from: an idle, solid, unnamed
/// character standing on its cell with an empty script.
pub open spec fn base_view(x: usize, y: usize) -> CharacterView {
    CharacterView {
        draw_x: crate::cell_px_spec(x),
        draw_y: crate::cell_px_spec(y),
        actions: seq![],
        animation: None,
        x,
        y,
        action_index: 0,
        animation_playing: false,
        animation_index: 0,
        anim_time: 0,
        timer: 0,
        draw_over: false,
        interact_message: None,
        interacting: false,
        name: "",
        moving_to: None,
        direction: Direction::Left,
        has_collision: true,
        draw_offset_x: 0,
        draw_offset_y: 0,
    }
}

/// The door's script: two knock-and-open rounds, each opening for one
/// arriving party and closing behind it.
pub open spec fn door_script(x: usize, y: usize) -> Seq<(ActionCondition, Action)> {
    let anchor = (crate::cell_px_spec(x), crate::cell_px_spec((y + 1) as usize));
    seq![
        (ActionCondition::Dialogue("*knock* *knock* *knock*"), Action::Noop),
        (ActionCondition::PlayerInteract("E: open door", anchor), Action::SetPlayingAnimation(true)),
        (ActionCondition::AnimationFinish, Action::SetPlayingAnimation(false)),
        (ActionCondition::AlwaysChange, Action::GiveTag(Tag::OpenedDoor)),
        (ActionCondition::AlwaysChange, Action::ShowScreen(0)),
        (ActionCondition::PlayerHasTag(Tag::ClosedDoor), Action::SetAnimationTime(0)),
        (ActionCondition::PlayerHasTag(Tag::FamilyShouldArrive), Action::Noop),
        (ActionCondition::Dialogue("*knock* *knock* *knock*"), Action::Noop),
        (ActionCondition::PlayerInteract("E: open door", anchor), Action::SetPlayingAnimation(true)),
        (ActionCondition::AnimationFinish, Action::SetPlayingAnimation(false)),
        (ActionCondition::AlwaysChange, Action::GiveTag(Tag::OpenedDoor2)),
        (ActionCondition::AlwaysChange, Action::ShowScreen(2)),
        (ActionCondition::PlayerHasTag(Tag::ClosedDoor2), Action::SetAnimationTime(0)),
    ]
}

/// The front door, scripted to open for each knocking party.
/// `animation` is the index of its clip group in the caller-owned
/// group table.
pub fn door(cell: (usize, usize), animation: Option<usize>) -> (r: Character)
    requires
        cell.0 < MAX_COORD,
        cell.1 + 1 < MAX_COORD,
    ensures
        r@ == (CharacterView {
            actions: door_script(cell.0, cell.1),
            animation,
            name: "Door",
            ..base_view(cell.0, cell.1)
        }),
{
    let (x, y) = cell;
    let anchor = (crate::cell_px(x), crate::cell_px(y + 1));
    let actions: Vec<(ActionCondition, Action)> = vec![
        (ActionCondition::Dialogue("*knock* *knock* *knock*"), Action::Noop),
        (ActionCondition::PlayerInteract("E: open door", anchor), Action::SetPlayingAnimation(true)),
        (ActionCondition::AnimationFinish, Action::SetPlayingAnimation(false)),
        (ActionCondition::AlwaysChange, Action::GiveTag(Tag::OpenedDoor)),
        (ActionCondition::AlwaysChange, Action::ShowScreen(0)),
        (ActionCondition::PlayerHasTag(Tag::ClosedDoor), Action::SetAnimationTime(0)),
        (ActionCondition::PlayerHasTag(Tag::FamilyShouldArrive), Action::Noop),
        (ActionCondition::Dialogue("*knock* *knock* *knock*"), Action::Noop),
        (ActionCondition::PlayerInteract("E: open door", anchor), Action::SetPlayingAnimation(true)),
        (ActionCondition::AnimationFinish, Action::SetPlayingAnimation(false)),
        (ActionCondition::AlwaysChange, Action::GiveTag(Tag::OpenedDoor2)),
        (ActionCondition::AlwaysChange, Action::ShowScreen(2)),
        (ActionCondition::PlayerHasTag(Tag::ClosedDoor2), Action::SetAnimationTime(0)),
    ];
    proof {
        assert(actions@ =~= door_script(x, y));
    }
    let r = Character {
        draw_x: crate::cell_px(x),
        draw_y: crate::cell_px(y),
        actions,
        animation,
        x,
        y,
        action_index: 0,
        animation_playing: false,
        animation_index: 0,
        anim_time: 0,
        timer: 0,
        draw_over: false,
        interact_message: None,
        interacting: false,
        name: "Door",
        moving_to: None,
        direction: Direction::Left,
        has_collision: true,
        draw_offset_x: 0,
        draw_offset_y: 0,
    };
    proof {
        assert(r@ =~= (CharacterView {
            actions: door_script(x, y),
            animation,
            name: "Door",
            ..base_view(x, y)
        }));
    }
    r
}

/// The raincoat ferret's script: it waits outside until the door has
/// opened, asks to come in, steps inside while the door closes, walks
/// to its resting spot, asks for the fireplace to be lit, and finally
/// settles down by the fire.
pub open spec fn raincoat_script(
    x: usize,
    y: usize,
    rest_cell: (usize, usize),
    fireside_cell: (usize, usize),
) -> Seq<(ActionCondition, Action)> {
    seq![
        (ActionCondition::PlayerHasTag(Tag::OpenedDoor), Action::Noop),
        (ActionCondition::Time(800), Action::Noop),
        (
            ActionCondition::Dialogue(
                "Hello kind stranger! I have lost my way\nin the snowstorm. It is cold and dark.",
            ),
            Action::Noop,
        ),
        (ActionCondition::Dialogue("Can I please come inside?"), Action::Noop),
        (ActionCondition::Time(500), Action::ShowScreen(1)),
        (ActionCondition::Time(1000), Action::HideScreen),
        (ActionCondition::AlwaysChange, Action::TeleportPlayer((x + 1) as usize, (y + 1) as usize)),
        (ActionCondition::AlwaysChange, Action::Teleport(x, (y + 1) as usize)),
        (ActionCondition::AlwaysChange, Action::SetName("Ferret")),
        (ActionCondition::AlwaysChange, Action::GiveTag(Tag::ClosedDoor)),
        (ActionCondition::AlwaysChange, Action::SetPlayingAnimation(true)),
        (ActionCondition::AnimationFinish, Action::ChangeAnimation(3)),
        (ActionCondition::AlwaysChange, Action::MoveTo(rest_cell)),
        (
            ActionCondition::ReachedDestination,
            Action::SetInteractMessage(Some(
                "If its not too much to ask, I would be\nFOREVER thankful if you'd light the fireplace.",
            )),
        ),
        (ActionCondition::AlwaysChange, Action::SetPlayingAnimation(false)),
        (ActionCondition::AlwaysChange, Action::SetAnimationTime(0)),
        (ActionCondition::PlayerHasTag(Tag::LightFire), Action::SetInteractMessage(None)),
        (ActionCondition::AlwaysChange, Action::SetAnimationTime(0)),
        (ActionCondition::AlwaysChange, Action::ChangeAnimation(6)),
        (ActionCondition::AlwaysChange, Action::SetPlayingAnimation(true)),
        (ActionCondition::AnimationFinish, Action::Noop),
        (ActionCondition::AlwaysChange, Action::MoveTo(fireside_cell)),
        (ActionCondition::ReachedDestination, Action::ChangeAnimation(5)),
        (ActionCondition::AlwaysChange, Action::SetCollision(false)),
        (ActionCondition::AlwaysChange, Action::SetPlayingAnimation(true)),
        (ActionCondition::AnimationFinish, Action::SetPlayingAnimation(false)),
        (ActionCondition::Time(2000), Action::GiveTag(Tag::FamilyShouldArrive)),
    ]
}

/// The ferret in a raincoat, spawned at `cell`. `rest_cell` is where
/// it waits indoors and `fireside_cell` where it settles once the fire
/// burns; `animation` is the index of its clip group.
pub fn raincoat_ferret(
    cell: (usize, usize),
    rest_cell: (usize, usize),
    fireside_cell: (usize, usize),
    animation: Option<usize>,
) -> (r: Character)
    requires
        cell.0 + 1 < MAX_COORD,
        cell.1 + 1 < MAX_COORD,
    ensures
        r@ == (CharacterView {
            actions: raincoat_script(cell.0, cell.1, rest_cell, fireside_cell),
            animation,
            name: "Ferret in a raincoat",
            draw_offset_x: -16000i64,
            draw_offset_y: -16000i64,
            ..base_view(cell.0, cell.1)
        }),
{
    let (x, y) = cell;
    let actions: Vec<(ActionCondition, Action)> = vec![
        (ActionCondition::PlayerHasTag(Tag::OpenedDoor), Action::Noop),
        (ActionCondition::Time(800), Action::Noop),
        (
            ActionCondition::Dialogue(
                "Hello kind stranger! I have lost my way\nin the snowstorm. It is cold and dark.",
            ),
            Action::Noop,
        ),
        (ActionCondition::Dialogue("Can I please come inside?"), Action::Noop),
        (ActionCondition::Time(500), Action::ShowScreen(1)),
        (ActionCondition::Time(1000), Action::HideScreen),
        (ActionCondition::AlwaysChange, Action::TeleportPlayer(x + 1, y + 1)),
        (ActionCondition::AlwaysChange, Action::Teleport(x, y + 1)),
        (ActionCondition::AlwaysChange, Action::SetName("Ferret")),
        (ActionCondition::AlwaysChange, Action::GiveTag(Tag::ClosedDoor)),
        (ActionCondition::AlwaysChange, Action::SetPlayingAnimation(true)),
        (ActionCondition::AnimationFinish, Action::ChangeAnimation(3)),
        (ActionCondition::AlwaysChange, Action::MoveTo(rest_cell)),
        (
            ActionCondition::ReachedDestination,
            Action::SetInteractMessage(Some(
                "If its not too much to ask, I would be\nFOREVER thankful if you'd light the fireplace.",
            )),
        ),
        (ActionCondition::AlwaysChange, Action::SetPlayingAnimation(false)),
        (ActionCondition::AlwaysChange, Action::SetAnimationTime(0)),
        (ActionCondition::PlayerHasTag(Tag::LightFire), Action::SetInteractMessage(None)),
        (ActionCondition::AlwaysChange, Action::SetAnimationTime(0)),
        (ActionCondition::AlwaysChange, Action::ChangeAnimation(6)),
        (ActionCondition::AlwaysChange, Action::SetPlayingAnimation(true)),
        (ActionCondition::AnimationFinish, Action::Noop),
        (ActionCondition::AlwaysChange, Action::MoveTo(fireside_cell)),
        (ActionCondition::ReachedDestination, Action::ChangeAnimation(5)),
        (ActionCondition::AlwaysChange, Action::SetCollision(false)),
        (ActionCondition::AlwaysChange, Action::SetPlayingAnimation(true)),
        (ActionCondition::AnimationFinish, Action::SetPlayingAnimation(false)),
        (ActionCondition::Time(2000), Action::GiveTag(Tag::FamilyShouldArrive)),
    ];
    proof {
        assert(actions@ =~= raincoat_script(x, y, rest_cell, fireside_cell));
    }
    let r = Character {
        draw_x: crate::cell_px(x),
        draw_y: crate::cell_px(y),
        actions,
        animation,
        x,
        y,
        action_index: 0,
        animation_playing: false,
        animation_index: 0,
        anim_time: 0,
        timer: 0,
        draw_over: false,
        interact_message: None,
        interacting: false,
        name: "Ferret in a raincoat",
        moving_to: None,
        direction: Direction::Left,
        has_collision: true,
        draw_offset_x: -16000i64,
        draw_offset_y: -16000i64,
    };
    proof {
        assert(r@ =~= (CharacterView {
            actions: raincoat_script(x, y, rest_cell, fireside_cell),
            animation,
            name: "Ferret in a raincoat",
            draw_offset_x: -16000i64,
            draw_offset_y: -16000i64,
            ..base_view(x, y)
        }));
    }
    r
}

/// The ferret mother's script: she appears at the door once the first
/// guest expects her family, knocks, asks to come in, and steps inside
/// while the door closes again.
pub open spec fn mother_script(x: usize, y: usize) -> Seq<(ActionCondition, Action)> {
    seq![
        (ActionCondition::PlayerHasTag(Tag::FamilyShouldArrive), Action::Teleport(x, y)),
        (ActionCondition::PlayerHasTag(Tag::OpenedDoor2), Action::Noop),
        (ActionCondition::Time(800), Action::Noop),
        (
            ActionCondition::Dialogue("Hi! My boys and I were out playing when this\nstorm struck!"),
            Action::Noop,
        ),
        (
            ActionCondition::Dialogue(
                "They are cold and tired. May we please\ncome inside and ride out the storm?",
            ),
            Action::Noop,
        ),
        (ActionCondition::Time(500), Action::ShowScreen(3)),
        (ActionCondition::Time(1000), Action::HideScreen),
        (ActionCondition::AlwaysChange, Action::TeleportPlayer((x + 1) as usize, (y + 1) as usize)),
        (ActionCondition::AlwaysChange, Action::Teleport(x, (y + 1) as usize)),
        (ActionCondition::AlwaysChange, Action::GiveTag(Tag::ClosedDoor2)),
    ]
}

/// The ferret mother, staged offscreen until her family is expected at
/// `cell` (the door-side marker she teleports to).
pub fn mother_ferret(cell: (usize, usize), animation: Option<usize>) -> (r: Character)
    requires
        cell.0 + 1 < MAX_COORD,
        cell.1 + 1 < MAX_COORD,
    ensures
        r@ == (CharacterView {
            draw_x: 0,
            draw_y: 0,
            actions: mother_script(cell.0, cell.1),
            animation,
            name: "Ferret Mother",
            ..base_view(cell.0, cell.1)
        }),
{
    let (x, y) = cell;
    let actions: Vec<(ActionCondition, Action)> = vec![
        (ActionCondition::PlayerHasTag(Tag::FamilyShouldArrive), Action::Teleport(x, y)),
        (ActionCondition::PlayerHasTag(Tag::OpenedDoor2), Action::Noop),
        (ActionCondition::Time(800), Action::Noop),
        (
            ActionCondition::Dialogue("Hi! My boys and I were out playing when this\nstorm struck!"),
            Action::Noop,
        ),
        (
            ActionCondition::Dialogue(
                "They are cold and tired. May we please\ncome inside and ride out the storm?",
            ),
            Action::Noop,
        ),
        (ActionCondition::Time(500), Action::ShowScreen(3)),
        (ActionCondition::Time(1000), Action::HideScreen),
        (ActionCondition::AlwaysChange, Action::TeleportPlayer(x + 1, y + 1)),
        (ActionCondition::AlwaysChange, Action::Teleport(x, y + 1)),
        (ActionCondition::AlwaysChange, Action::GiveTag(Tag::ClosedDoor2)),
    ];
    proof {
        assert(actions@ =~= mother_script(x, y));
    }
    let r = Character {
        draw_x: 0,
        draw_y: 0,
        actions,
        animation,
        x,
        y,
        action_index: 0,
        animation_playing: false,
        animation_index: 0,
        anim_time: 0,
        timer: 0,
        draw_over: false,
        interact_message: None,
        interacting: false,
        name: "Ferret Mother",
        moving_to: None,
        direction: Direction::Left,
        has_collision: true,
        draw_offset_x: 0,
        draw_offset_y: 0,
    };
    proof {
        assert(r@ =~= (CharacterView {
            draw_x: 0,
            draw_y: 0,
            actions: mother_script(x, y),
            animation,
            name: "Ferret Mother",
            ..base_view(x, y)
        }));
    }
    r
}

/// A ferret child's script: it appears with its mother and slips
/// inside beside her once the door has closed behind the family.
pub open spec fn child_script(x: usize, y: usize) -> Seq<(ActionCondition, Action)> {
    seq![
        (ActionCondition::PlayerHasTag(Tag::FamilyShouldArrive), Action::Teleport(x, y)),
        (ActionCondition::PlayerHasTag(Tag::ClosedDoor2), Action::Teleport((x - 1) as usize, (y + 1) as usize)),
    ]
}

/// One ferret child, staged offscreen with its mother; `id` fans the
/// children out by a small horizontal draw offset.
pub fn child_ferret(cell: (usize, usize), id: usize, animation: Option<usize>) -> (r: Character)
    requires
        1 <= cell.0 < MAX_COORD,
        cell.1 + 1 < MAX_COORD,
        id <= 1_000_000,
    ensures
        r@ == (CharacterView {
            draw_x: 0,
            draw_y: 0,
            actions: child_script(cell.0, cell.1),
            animation,
            name: "Child Ferret",
            has_collision: false,
            draw_offset_x: (-2000 + 10000 * id as i64) as i64,
            ..base_view(cell.0, cell.1)
        }),
{
    let (x, y) = cell;
    let actions: Vec<(ActionCondition, Action)> = vec![
        (ActionCondition::PlayerHasTag(Tag::FamilyShouldArrive), Action::Teleport(x, y)),
        (ActionCondition::PlayerHasTag(Tag::ClosedDoor2), Action::Teleport(x - 1, y + 1)),
    ];
    proof {
        assert(actions@ =~= child_script(x, y));
    }
    let r = Character {
        draw_x: 0,
        draw_y: 0,
        actions,
        animation,
        x,
        y,
        action_index: 0,
        animation_playing: false,
        animation_index: 0,
        anim_time: 0,
        timer: 0,
        draw_over: false,
        interact_message: None,
        interacting: false,
        name: "Child Ferret",
        moving_to: None,
        direction: Direction::Left,
        has_collision: false,
        draw_offset_x: -2000 + 10000 * (id as i64),
        draw_offset_y: 0,
    };
    proof {
        assert(r@ =~= (CharacterView {
            draw_x: 0,
            draw_y: 0,
            actions: child_script(x, y),
            animation,
            name: "Child Ferret",
            has_collision: false,
            draw_offset_x: (-2000 + 10000 * id as i64) as i64,
            ..base_view(x, y)
        }));
    }
    r
}

/// The fireplace's script: once the first guest is inside it offers to
/// be lit, then burns.
pub open spec fn fireplace_script(x: usize, y: usize) -> Seq<(ActionCondition, Action)> {
    let anchor = ((crate::cell_px_spec(x) + 8000) as u64, crate::cell_px_spec((y + 2) as usize));
    seq![
        (ActionCondition::PlayerHasTag(Tag::ClosedDoor), Action::Noop),
        (ActionCondition::PlayerInteract("E: light fireplace", anchor), Action::SetPlayingAnimation(true)),
        (ActionCondition::AlwaysChange, Action::ChangeAnimation(1)),
        (ActionCondition::AlwaysChange, Action::GiveTag(Tag::LightFire)),
    ]
}

/// The fireplace, drawn over the world foreground.
pub fn fireplace(cell: (usize, usize), animation: Option<usize>) -> (r: Character)
    requires
        cell.0 < MAX_COORD,
        cell.1 + 2 < MAX_COORD,
    ensures
        r@ == (CharacterView {
            actions: fireplace_script(cell.0, cell.1),
            animation,
            draw_over: true,
            ..base_view(cell.0, cell.1)
        }),
{
    let (x, y) = cell;
    let anchor = (crate::cell_px(x) + 8000, crate::cell_px(y + 2));
    let actions: Vec<(ActionCondition, Action)> = vec![
        (ActionCondition::PlayerHasTag(Tag::ClosedDoor), Action::Noop),
        (ActionCondition::PlayerInteract("E: light fireplace", anchor), Action::SetPlayingAnimation(true)),
        (ActionCondition::AlwaysChange, Action::ChangeAnimation(1)),
        (ActionCondition::AlwaysChange, Action::GiveTag(Tag::LightFire)),
    ];
    proof {
        assert(actions@ =~= fireplace_script(x, y));
    }
    let r = Character {
        draw_x: crate::cell_px(x),
        draw_y: crate::cell_px(y),
        actions,
        animation,
        x,
        y,
        action_index: 0,
        animation_playing: false,
        animation_index: 0,
        anim_time: 0,
        timer: 0,
        draw_over: true,
        interact_message: None,
        interacting: false,
        name: "",
        moving_to: None,
        direction: Direction::Left,
        has_collision: true,
        draw_offset_x: 0,
        draw_offset_y: 0,
    };
    proof {
        assert(r@ =~= (CharacterView {
            actions: fireplace_script(x, y),
            animation,
            draw_over: true,
            ..base_view(x, y)
        }));
    }
    r
}

/// A walking dummy: it immediately sets off toward `dest`.
pub fn test_character(cell: (usize, usize), dest: (usize, usize), animation: Option<usize>) -> (r:
    Character)
    requires
        cell.0 < MAX_COORD,
        cell.1 < MAX_COORD,
    ensures
        r@ == (CharacterView {
            actions: seq![(ActionCondition::AlwaysChange, Action::MoveTo(dest))],
            animation,
            ..base_view(cell.0, cell.1)
        }),
{
    let (x, y) = cell;
    let actions: Vec<(ActionCondition, Action)> = vec![
        (ActionCondition::AlwaysChange, Action::MoveTo(dest)),
    ];
    proof {
        assert(actions@ =~= seq![(ActionCondition::AlwaysChange, Action::MoveTo(dest))]);
    }
    let r = Character {
        draw_x: crate::cell_px(x),
        draw_y: crate::cell_px(y),
        actions,
        animation,
        x,
        y,
        action_index: 0,
        animation_playing: false,
        animation_index: 0,
        anim_time: 0,
        timer: 0,
        draw_over: false,
        interact_message: None,
        interacting: false,
        name: "",
        moving_to: None,
        direction: Direction::Left,
        has_collision: true,
        draw_offset_x: 0,
        draw_offset_y: 0,
    };
    proof {
        assert(r@ =~= (CharacterView {
            actions: seq![(ActionCondition::AlwaysChange, Action::MoveTo(dest))],
            animation,
            ..base_view(x, y)
        }));
    }
    r
}

/// The views of a sequence of characters.
pub open spec fn char_views(s: Seq<Character>) -> Seq<CharacterView> {
    s.map_values(|c: Character| c@)
}

/// Constraints on one action so that applying it can neither overflow
/// the millipixel arithmetic nor index outside the character's clip
/// group: teleport and walk targets stay under `MAX_COORD`, and a clip
/// switch stays inside the group.
pub open spec fn action_wf(
    a: Action,
    animation: Option<usize>,
    groups: Seq<crate::anim::AnimationsGroupView>,
) -> bool {
    match a {
        Action::Teleport(x, y) => x < MAX_COORD && y < MAX_COORD,
        Action::TeleportPlayer(x, y) => x < MAX_COORD && y < MAX_COORD,
        Action::MoveTo(d) => d.0 < MAX_COORD && d.1 < MAX_COORD,
        Action::ChangeAnimation(k) => animation matches Some(g)
            ==> g < groups.len() && k < groups[g as int].animations.len(),
        _ => true,
    }
}

/// A well-formed character: its cell and any pending destination fit
/// the millipixel arithmetic, its cursor has not run past the end of
/// its script, its clip reference is in bounds, and every action of
/// its script is well formed. The world constructor checks all of
/// this once; every frame preserves it.
pub open spec fn char_wf(c: CharacterView, groups: Seq<crate::anim::AnimationsGroupView>) -> bool {
    &&& c.x < MAX_COORD
    &&& c.y < MAX_COORD
    &&& c.actions.len() <= usize::MAX
    &&& (c.moving_to matches Some(d) ==> d.0 < MAX_COORD && d.1 < MAX_COORD)
    &&& c.action_index <= c.actions.len()
    &&& (c.animation matches Some(g) ==> g < groups.len() && c.animation_index < groups[g as int].animations.len())
    &&& forall|i: int| 0 <= i < c.actions.len() ==> action_wf(c.actions[i].1, c.animation, groups)
}

/// All characters of a list well formed.
pub open spec fn chars_wf(chars: Seq<CharacterView>, groups: Seq<crate::anim::AnimationsGroupView>) -> bool {
    forall|i: int| 0 <= i < chars.len() ==> char_wf(#[trigger] chars[i], groups)
}

/// The first collidable character standing on the cell, scanning from
/// index `i`.
pub open spec fn find_collider_from(
    chars: Seq<CharacterView>,
    nx: usize,
    ny: usize,
    i: int,
) -> Option<int>
    decreases chars.len() - i,
{
    if i < 0 || i >= chars.len() {
        None
    } else if chars[i].has_collision && chars[i].x == nx && chars[i].y == ny {
        Some(i)
    } else {
        find_collider_from(chars, nx, ny, i + 1)
    }
}

/// The first collidable character standing on the cell, if any.
pub open spec fn find_collider(chars: Seq<CharacterView>, nx: usize, ny: usize) -> Option<int> {
    find_collider_from(chars, nx, ny, 0)
}

/// The index of the first collidable character standing on the cell,
/// if any.
pub fn find_collider_at(characters: &Vec<Character>, nx: usize, ny: usize) -> (r: Option<usize>)
    ensures
        match r {
            Some(j) => j < characters@.len() && find_collider(char_views(characters@), nx, ny)
                == Some(j as int),
            None => find_collider(char_views(characters@), nx, ny) is None,
        },
{
    let ghost chars0 = char_views(characters@);
    let mut j: usize = 0;
    while j < characters.len()
        invariant
            j <= chars0.len(),
            chars0 == char_views(characters@),
            find_collider_from(chars0, nx, ny, 0) == find_collider_from(chars0, nx, ny, j as int),
        decreases chars0.len() - j,
    {
        let cj = &characters[j];
        proof {
            assert(chars0[j as int] == characters@[j as int]@);
        }
        if cj.has_collision && cj.x == nx && cj.y == ny {
            return Some(j);
        }
        j = j + 1;
    }
    None
}

} // verus!
