//! Animation timing: per-frame durations in milliseconds and the
//! lookup from an elapsed time to the frame to render. The pixel data
//! itself lives with the presentation layer; the core only ever needs
//! the durations, and hands back frame indices.

use vstd::prelude::*;
use crate::player::Direction;

verus! {

/// Why an animation clip or group was rejected at load time.
#[derive(PartialEq, Eq, Structural, Clone, Copy, Debug)]
pub enum AnimError {
    /// The frame durations sum to zero, which would leave no frame to
    /// render.
    ZeroTotal,
    /// The frame durations sum to more than `u32::MAX` milliseconds.
    TooLong,
    /// A directional clip index points past the end of the clip list.
    BadDirectionIndex,
}

/// The sum of a sequence of frame durations, in milliseconds.
pub open spec fn total_of(durs: Seq<u32>) -> int
    decreases durs.len(),
{
    if durs.len() == 0 {
        0
    } else {
        durs[0] + total_of(durs.drop_first())
    }
}

/// The frame that an elapsed time `t` falls into: the first frame whose
/// duration window contains `t`. Zero-duration frames are skipped.
pub open spec fn frame_index(durs: Seq<u32>, t: int) -> int
    decreases durs.len(),
{
    if durs.len() == 0 {
        0
    } else if t < durs[0] {
        0
    } else {
        1 + frame_index(durs.drop_first(), t - durs[0])
    }
}

/// One animation clip: its per-frame durations and their sum.
pub struct Animation {
    pub frame_durations: Vec<u32>,
    pub total_length: u32,
}

#[verifier::ext_equal]
pub ghost struct AnimationView {
    pub frame_durations: Seq<u32>,
    pub total_length: u32,
}

impl View for Animation {
    type V = AnimationView;

    open spec fn view(&self) -> AnimationView {
        AnimationView { frame_durations: self.frame_durations@, total_length: self.total_length }
    }
}

impl AnimationView {
    pub open spec fn wf(self) -> bool {
        &&& self.total_length == total_of(self.frame_durations)
        &&& self.total_length >= 1
    }
}

impl Animation {
    /// Builds a clip from its frame durations, rejecting a clip whose
    /// durations sum to zero or overflow at load time.
    pub fn new(frame_durations: Vec<u32>) -> (r: Result<Animation, AnimError>)
        ensures
            match r {
                Ok(a) => {
                    &&& a@.frame_durations == frame_durations@
                    &&& a@.wf()
                },
                Err(AnimError::ZeroTotal) => total_of(frame_durations@) == 0,
                Err(AnimError::TooLong) => total_of(frame_durations@) > u32::MAX,
                Err(AnimError::BadDirectionIndex) => false,
            },
            r is Ok <==> 1 <= total_of(frame_durations@) <= u32::MAX,
    {
        let mut total: u32 = 0;
        let mut i: usize = 0;
        while i < frame_durations.len()
            invariant
                i <= frame_durations@.len(),
                total == total_of(frame_durations@.take(i as int)),
                total_of(frame_durations@.take(i as int)) <= u32::MAX,
            decreases frame_durations@.len() - i,
        {
            proof {
                lemma_total_take_step(frame_durations@, i as int);
            }
            let Some(t) = total.checked_add(frame_durations[i]) else {
                proof {
                    lemma_total_take_monotonic(frame_durations@, i + 1);
                }
                return Err(AnimError::TooLong);
            };
            total = t;
            i = i + 1;
        }
        proof {
            assert(frame_durations@.take(frame_durations@.len() as int) =~= frame_durations@);
        }
        if total == 0 {
            Err(AnimError::ZeroTotal)
        } else {
            Ok(Animation { frame_durations, total_length: total })
        }
    }

    /// Whether this clip satisfies its invariant; the world
    /// constructor uses it to validate a clip built directly from
    /// fields.
    pub fn wf_check(&self) -> (r: bool)
        ensures
            r == self@.wf(),
    {
        let mut total: u32 = 0;
        let mut i: usize = 0;
        while i < self.frame_durations.len()
            invariant
                i <= self.frame_durations@.len(),
                total == total_of(self.frame_durations@.take(i as int)),
                total_of(self.frame_durations@.take(i as int)) <= u32::MAX,
            decreases self.frame_durations@.len() - i,
        {
            proof {
                lemma_total_take_step(self.frame_durations@, i as int);
            }
            let Some(t) = total.checked_add(self.frame_durations[i]) else {
                proof {
                    lemma_total_take_monotonic(self.frame_durations@, i + 1);
                }
                return false;
            };
            total = t;
            i = i + 1;
        }
        proof {
            assert(self.frame_durations@.take(self.frame_durations@.len() as int)
                =~= self.frame_durations@);
        }
        self.total_length == total && total >= 1
    }

    /// The index of the frame to render after `time` milliseconds.
    /// Time wraps around the clip's total length, so a playing clip
    /// loops.
    pub fn get_at_time(&self, time: u32) -> (r: usize)
        requires
            self@.wf(),
        ensures
            r == frame_index(self@.frame_durations, (time as int) % (self@.total_length as int)),
            r < self@.frame_durations.len(),
    {
        let mut t: u32 = time % self.total_length;
        let mut i: usize = 0;
        let n = self.frame_durations.len();
        proof {
            lemma_frame_index_in_range(self@.frame_durations, t as int);
            assert(self@.frame_durations.skip(0) =~= self@.frame_durations);
        }
        loop
            invariant
                self@.wf(),
                n == self@.frame_durations.len(),
                i <= n,
                t < total_of(self@.frame_durations.skip(i as int)),
                frame_index(self@.frame_durations, (time as int) % (self@.total_length as int))
                    == i + frame_index(self@.frame_durations.skip(i as int), t as int),
            decreases self@.frame_durations.len() - i,
        {
            proof {
                if self@.frame_durations.len() == i {
                    assert(self@.frame_durations.skip(i as int).len() == 0);
                    assert(total_of(self@.frame_durations.skip(i as int)) == 0);
                    assert(false);
                }
                assert(i < self@.frame_durations.len());
                assert(self@.frame_durations.skip(i as int).drop_first()
                    =~= self@.frame_durations.skip(i + 1));
            }
            let d = self.frame_durations[i];
            if t >= d {
                t = t - d;
                i = i + 1;
            } else {
                return i;
            }
        }
    }
}

proof fn lemma_total_take_step(durs: Seq<u32>, i: int)
    requires
        0 <= i < durs.len(),
    ensures
        total_of(durs.take(i + 1)) == total_of(durs.take(i)) + durs[i],
    decreases i,
{
    if i == 0 {
        assert(durs.take(1).drop_first() =~= durs.take(0));
    } else {
        assert(durs.take(i + 1).drop_first() =~= durs.drop_first().take(i));
        assert(durs.take(i).drop_first() =~= durs.drop_first().take(i - 1));
        lemma_total_take_step(durs.drop_first(), i - 1);
    }
}

/// Every prefix sum of durations is bounded by the total.
proof fn lemma_total_take_monotonic(durs: Seq<u32>, i: int)
    requires
        0 <= i <= durs.len(),
    ensures
        total_of(durs.take(i)) <= total_of(durs),
    decreases durs.len() - i,
{
    if i == durs.len() {
        assert(durs.take(i) =~= durs);
    } else {
        lemma_total_take_step(durs, i);
        lemma_total_take_monotonic(durs, i + 1);
    }
}

/// A time within the clip's total length falls into some frame.
proof fn lemma_frame_index_in_range(durs: Seq<u32>, t: int)
    requires
        0 <= t < total_of(durs),
    ensures
        0 <= frame_index(durs, t) < durs.len(),
    decreases durs.len(),
{
    if durs.len() > 0 && t >= durs[0] {
        lemma_frame_index_in_range(durs.drop_first(), t - durs[0]);
    }
}

/// The last millisecond of a clip whose final frame has a nonzero
/// duration renders the final frame. This is what the interpreter's
/// clamp of the elapsed time to one millisecond short of the total
/// relies on: the clip then holds its terminal frame instead of
/// wrapping back to the first one.
pub proof fn lemma_terminal_frame(durs: Seq<u32>)
    requires
        durs.len() > 0,
        durs.last() >= 1,
        total_of(durs) >= 1,
    ensures
        frame_index(durs, total_of(durs) - 1) == durs.len() - 1,
    decreases durs.len(),
{
    if durs.len() == 1 {
        assert(total_of(durs.drop_first()) == 0);
        assert(total_of(durs) == durs[0]);
    } else {
        assert(total_of(durs) == durs[0] + total_of(durs.drop_first()));
        assert(durs.drop_first().last() == durs.last());
        lemma_total_ge_last(durs.drop_first());
        lemma_terminal_frame(durs.drop_first());
        assert(frame_index(durs, total_of(durs) - 1) == 1 + frame_index(
            durs.drop_first(),
            total_of(durs.drop_first()) - 1,
        ));
    }
}

/// The total of a clip is at least its final frame's duration.
proof fn lemma_total_ge_last(durs: Seq<u32>)
    requires
        durs.len() > 0,
    ensures
        total_of(durs) >= durs.last(),
    decreases durs.len(),
{
    if durs.len() > 1 {
        assert(durs.drop_first().last() == durs.last());
        lemma_total_ge_last(durs.drop_first());
    } else {
        assert(durs.drop_first().len() == 0);
        assert(total_of(durs.drop_first()) == 0);
    }
}

/// A named set of clips for one entity, with the indices of the four
/// directional walking clips where the entity has them.
pub struct AnimationsGroup {
    pub animations: Vec<Animation>,
    pub dir_left: Option<usize>,
    pub dir_right: Option<usize>,
    pub dir_up: Option<usize>,
    pub dir_down: Option<usize>,
}

#[verifier::ext_equal]
pub ghost struct AnimationsGroupView {
    pub animations: Seq<AnimationView>,
    pub dir_left: Option<usize>,
    pub dir_right: Option<usize>,
    pub dir_up: Option<usize>,
    pub dir_down: Option<usize>,
}

impl View for AnimationsGroup {
    type V = AnimationsGroupView;

    open spec fn view(&self) -> AnimationsGroupView {
        AnimationsGroupView {
            animations: self.animations@.map_values(|a: Animation| a@),
            dir_left: self.dir_left,
            dir_right: self.dir_right,
            dir_up: self.dir_up,
            dir_down: self.dir_down,
        }
    }
}

impl AnimationsGroupView {
    pub open spec fn dir_index(self, d: Direction) -> Option<usize> {
        match d {
            Direction::Left => self.dir_left,
            Direction::Right => self.dir_right,
            Direction::Up => self.dir_up,
            Direction::Down => self.dir_down,
        }
    }

    /// Each directional clip index, where present, stays inside the
    /// clip list.
    pub open spec fn dirs_ok(self) -> bool {
        &&& (self.dir_left matches Some(k) ==> k < self.animations.len())
        &&& (self.dir_right matches Some(k) ==> k < self.animations.len())
        &&& (self.dir_up matches Some(k) ==> k < self.animations.len())
        &&& (self.dir_down matches Some(k) ==> k < self.animations.len())
    }

    pub open spec fn wf(self) -> bool {
        &&& forall|i: int| 0 <= i < self.animations.len() ==> (#[trigger] self.animations[i]).wf()
        &&& self.dirs_ok()
    }
}

impl AnimationsGroup {
    /// Builds a group from its clips and the indices of its directional
    /// clips, rejecting an index past the end of the clip list.
    pub fn new(
        animations: Vec<Animation>,
        dir_left: Option<usize>,
        dir_right: Option<usize>,
        dir_up: Option<usize>,
        dir_down: Option<usize>,
    ) -> (r: Result<AnimationsGroup, AnimError>)
        requires
            forall|i: int| 0 <= i < animations@.len() ==> (#[trigger] animations@[i]@).wf(),
        ensures
            match r {
                Ok(g) => {
                    &&& g@.wf()
                    &&& g@.animations == animations@.map_values(|a: Animation| a@)
                    &&& g@.dir_left == dir_left
                    &&& g@.dir_right == dir_right
                    &&& g@.dir_up == dir_up
                    &&& g@.dir_down == dir_down
                },
                Err(e) => e == AnimError::BadDirectionIndex,
            },
            r is Ok <==> (AnimationsGroupView {
                animations: animations@.map_values(|a: Animation| a@),
                dir_left,
                dir_right,
                dir_up,
                dir_down,
            }).dirs_ok(),
    {
        let n = animations.len();
        let ok = (match dir_left { Some(k) => k < n, None => true })
            && (match dir_right { Some(k) => k < n, None => true })
            && (match dir_up { Some(k) => k < n, None => true })
            && (match dir_down { Some(k) => k < n, None => true });
        if !ok {
            return Err(AnimError::BadDirectionIndex);
        }
        Ok(AnimationsGroup { animations, dir_left, dir_right, dir_up, dir_down })
    }

    /// Whether this group satisfies its invariant; the world
    /// constructor uses it to validate a group built directly from
    /// fields.
    pub fn wf_check(&self) -> (r: bool)
        ensures
            r == self@.wf(),
    {
        let n = self.animations.len();
        let dirs_ok = (match self.dir_left { Some(k) => k < n, None => true })
            && (match self.dir_right { Some(k) => k < n, None => true })
            && (match self.dir_up { Some(k) => k < n, None => true })
            && (match self.dir_down { Some(k) => k < n, None => true });
        if !dirs_ok {
            return false;
        }
        let mut i: usize = 0;
        while i < self.animations.len()
            invariant
                i <= self.animations@.len(),
                forall|j: int| 0 <= j < i ==> (#[trigger] self.animations@[j]@).wf(),
            decreases self.animations@.len() - i,
        {
            proof {
                assert(self@.animations[i as int] == self.animations@[i as int]@);
            }
            if !self.animations[i].wf_check() {
                return false;
            }
            i = i + 1;
        }
        proof {
            assert(forall|j: int| 0 <= j < self@.animations.len()
                ==> (#[trigger] self@.animations[j]) == self.animations@[j]@);
        }
        true
    }

    /// The clip index of the walking clip for a direction, where the
    /// entity has one.
    pub fn index_for_direction(&self, d: Direction) -> (r: Option<usize>)
        ensures
            r == self@.dir_index(d),
    {
        match d {
            Direction::Left => self.dir_left,
            Direction::Right => self.dir_right,
            Direction::Up => self.dir_up,
            Direction::Down => self.dir_down,
        }
    }
}

/// The views of a sequence of clip groups.
pub open spec fn group_views(s: Seq<AnimationsGroup>) -> Seq<AnimationsGroupView> {
    s.map_values(|g: AnimationsGroup| g@)
}

/// All clip groups of a table well formed.
pub open spec fn groups_wf(groups: Seq<AnimationsGroupView>) -> bool {
    forall|i: int| 0 <= i < groups.len() ==> (#[trigger] groups[i]).wf()
}

} // verus!
