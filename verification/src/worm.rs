//! One worm: a wandering head and the trail of where it has been.

use vstd::prelude::*;
use crate::config::{
    FULL_TURN, MARGIN, MAX_ANGLE, MAX_COORDINATE, MAX_TIME, QUARTER_TURN, SEGMENT_RADIUS,
    SEGMENT_SPACING, WORM_SEGMENTS,
};
use crate::fixed::{lemma_scaled_within, scale, scaled, UNIT};
use crate::paint::{disc, frame_view, opaque, Color, ColorView, CommandView, DrawCommand};
use crate::trig::Trig;

verus! {

/// A worm as numbers: what [`Worm`] holds, without machine limits.
pub struct WormState {
    /// Head position, in fixed-point pixels.
    pub x: int,
    pub y: int,
    /// Direction of travel, in fixed-point radians.
    pub angle: int,
    /// The most that the heading changes in one tick.
    pub turn_speed: int,
    /// Distance covered in one tick.
    pub speed: int,
    /// Past head positions, the newest first.
    pub trail: Seq<(int, int)>,
    /// Colour hue, in fixed-point degrees.
    pub hue: int,
    /// Phase and rate of the oscillation that bends the heading.
    pub wobble_phase: int,
    pub wobble_rate: int,
}

/// A coordinate after the wrap-around on a surface `dimension` pixels long: one that has
/// left the surface by more than the margin re-enters at the margin on the other side.
pub open spec fn wrapped(coordinate: int, dimension: int) -> int {
    let far = dimension * UNIT + MARGIN;
    if coordinate < -MARGIN {
        far
    } else if coordinate > far {
        -MARGIN as int
    } else {
        coordinate
    }
}

/// A trail after `point` has been put at its front: no longer than [`WORM_SEGMENTS`],
/// the oldest points dropped.
pub open spec fn remembered(trail: Seq<(int, int)>, point: (int, int)) -> Seq<(int, int)> {
    let grown = seq![point] + trail;
    if grown.len() > WORM_SEGMENTS {
        grown.subrange(0, WORM_SEGMENTS as int)
    } else {
        grown
    }
}

/// The points of a trail as pairs of numbers.
pub open spec fn trail_view(points: Seq<(i64, i64)>) -> Seq<(int, int)> {
    Seq::new(points.len(), |i: int| (points[i].0 as int, points[i].1 as int))
}

impl WormState {
    /// What holds of every worm: a full trail that starts at the head, a head and a
    /// heading within the limits of the arithmetic, and per-worm constants in the
    /// ranges that a seed in `[0, 1)` gives.
    pub open spec fn wf(self) -> bool {
        &&& self.trail.len() == WORM_SEGMENTS
        &&& self.trail[0] == (self.x, self.y)
        &&& -MAX_COORDINATE <= self.x <= MAX_COORDINATE
        &&& -MAX_COORDINATE <= self.y <= MAX_COORDINATE
        &&& -MAX_ANGLE <= self.angle <= MAX_ANGLE
        &&& 30_000 <= self.turn_speed < 70_000
        &&& 1_200_000 <= self.speed < 2_200_000
        &&& 0 <= self.wobble_phase < FULL_TURN
        &&& 2_000_000 <= self.wobble_rate < 5_000_000
        &&& i64::MIN <= self.hue <= i64::MAX
    }

    /// The heading can change by a full `turn_speed` either way and stay within
    /// [`MAX_ANGLE`].
    pub open spec fn can_turn(self) -> bool {
        -MAX_ANGLE + self.turn_speed <= self.angle <= MAX_ANGLE - self.turn_speed
    }

    /// The worm made at `(x, y)` from `seed`, given the sine and cosine of its first
    /// heading: the trail runs backward from the head along that heading.
    pub open spec fn born(x: int, y: int, hue: int, seed: int, heading: Trig) -> WormState {
        WormState {
            x,
            y,
            angle: scaled(seed, FULL_TURN as int),
            turn_speed: 30_000 + scaled(seed, 40_000),
            speed: 1_200_000 + scaled(seed, UNIT as int),
            trail: Seq::new(
                WORM_SEGMENTS as nat,
                |i: int|
                    (
                        x - scaled(heading.cosine(), i * SEGMENT_SPACING),
                        y - scaled(heading.sine(), i * SEGMENT_SPACING),
                    ),
            ),
            hue,
            wobble_phase: scaled(seed, FULL_TURN as int),
            wobble_rate: 2_000_000 + scaled(seed, 3_000_000),
        }
    }

    /// The angle whose sine bends the heading at tick `time`.
    pub open spec fn wobble_argument(self, time: int) -> int {
        time * self.wobble_rate + self.wobble_phase
    }

    /// The worm after its heading has been bent by `wobble.sine()` times `turn_speed`.
    pub open spec fn steered(self, wobble: Trig) -> WormState {
        WormState { angle: self.angle + scaled(wobble.sine(), self.turn_speed), ..self }
    }

    /// The worm after its head has moved by `speed` along `heading`, wrapped around the
    /// surface, and the new head position has been put at the front of the trail.
    pub open spec fn advanced(self, width: int, height: int, heading: Trig) -> WormState {
        let x = wrapped(self.x + scaled(heading.cosine(), self.speed), width);
        let y = wrapped(self.y + scaled(heading.sine(), self.speed), height);
        WormState { x, y, trail: remembered(self.trail, (x, y)), ..self }
    }
}

/// How far down the trail point `index` of `total` lies: zero at the head, and short of
/// one at the tail.
pub open spec fn along(index: int, total: int) -> int {
    index * UNIT / total
}

/// Radius of the disc drawn `t` down the trail: the full radius at the head, shrinking
/// by 0.6 of it per unit of `t`.
pub open spec fn segment_radius(t: int) -> int {
    scaled(SEGMENT_RADIUS as int, UNIT - scaled(t, 600_000))
}

/// Lightness of the disc drawn `t` down the trail: 45 percent at the head, rising by 20
/// per unit of `t`.
pub open spec fn segment_lightness(t: int) -> int {
    45_000_000 + scaled(t, 20_000_000)
}

/// Opacity of the disc drawn `t` down the trail: one at the head, falling by 0.3 per
/// unit of `t`.
pub open spec fn segment_alpha(t: int) -> int {
    UNIT - scaled(t, 300_000)
}

/// The disc drawn at a trail point that lies `t` down the trail of a worm of this hue.
pub open spec fn segment_disc(point: (int, int), t: int, hue: int) -> CommandView {
    disc(
        point.0,
        point.1,
        segment_radius(t),
        ColorView::Hsla {
            hue,
            saturation: 70_000_000,
            lightness: segment_lightness(t),
            alpha: segment_alpha(t),
        },
    )
}

impl WormState {
    /// The discs of the body, from the head to the tail.
    pub open spec fn body(self) -> Seq<CommandView> {
        Seq::new(
            self.trail.len(),
            |i: int| segment_disc(self.trail[i], along(i, self.trail.len() as int), self.hue),
        )
    }

    /// One eye: a white disc of radius 3, and on it a black pupil of radius 1.5. The eye
    /// sits half a head radius to the `side` of the head (`-1` or `1`, along the axis
    /// whose cosine and sine are in `across`) and 3 pixels ahead of it; the pupil sits
    /// 1.2 pixels further ahead.
    pub open spec fn eye(self, heading: Trig, across: Trig, side: int) -> Seq<CommandView> {
        let offset = scaled(SEGMENT_RADIUS as int, 500_000);
        let x = self.trail[0].0 + side * scaled(across.cosine(), offset) + scaled(
            heading.cosine(),
            3_000_000,
        );
        let y = self.trail[0].1 + side * scaled(across.sine(), offset) + scaled(
            heading.sine(),
            3_000_000,
        );
        seq![
            disc(x, y, 3_000_000, opaque(255, 255, 255)),
            disc(
                x + scaled(heading.cosine(), 1_200_000),
                y + scaled(heading.sine(), 1_200_000),
                1_500_000,
                opaque(0, 0, 0),
            ),
        ]
    }

    /// The whole worm: the body, then the eye on the side `-1`, then the other.
    pub open spec fn portrait(self, heading: Trig, across: Trig) -> Seq<CommandView> {
        self.body() + self.eye(heading, across, -1) + self.eye(heading, across, 1)
    }
}

/// Wraps a coordinate around a surface `dimension` pixels long.
pub fn wrap(coordinate: i64, dimension: u32) -> (place: i64)
    ensures
        place == wrapped(coordinate as int, dimension as int),
        -MARGIN <= place <= dimension * UNIT + MARGIN,
{
    let far: i64 = (dimension as i64) * UNIT + MARGIN;
    if coordinate < -MARGIN {
        far
    } else if coordinate > far {
        -MARGIN
    } else {
        coordinate
    }
}

/// A worm: its head, its heading, the constants it was made with, and its trail.
#[derive(Clone, Debug)]
pub struct Worm {
    x: i64,
    y: i64,
    angle: i64,
    turn_speed: i64,
    speed: i64,
    segments: Vec<(i64, i64)>,
    hue: i64,
    wobble_phase: i64,
    wobble_rate: i64,
}

impl View for Worm {
    type V = WormState;

    closed spec fn view(&self) -> WormState {
        WormState {
            x: self.x as int,
            y: self.y as int,
            angle: self.angle as int,
            turn_speed: self.turn_speed as int,
            speed: self.speed as int,
            trail: trail_view(self.segments@),
            hue: self.hue as int,
            wobble_phase: self.wobble_phase as int,
            wobble_rate: self.wobble_rate as int,
        }
    }
}

impl Worm {
    /// The worm is well formed.
    pub open spec fn wf(&self) -> bool {
        self@.wf()
    }

    /// Makes a worm at `(x, y)` from a seed in `[0, 1)`, given the sine and cosine of its
    /// first heading, `seed` times [`FULL_TURN`].
    pub fn with_heading(x: i64, y: i64, hue: i64, seed: i64, heading: Trig) -> (worm: Worm)
        requires
            -MAX_COORDINATE <= x <= MAX_COORDINATE,
            -MAX_COORDINATE <= y <= MAX_COORDINATE,
            0 <= seed < UNIT,
        ensures
            worm@ == WormState::born(x as int, y as int, hue as int, seed as int, heading),
            worm.wf(),
    {
        let cos: i64 = heading.cos();
        let sin: i64 = heading.sin();
        let mut segments: Vec<(i64, i64)> = Vec::new();
        let mut i: usize = 0;
        while i < WORM_SEGMENTS
            invariant
                i <= WORM_SEGMENTS,
                segments.len() == i,
                -MAX_COORDINATE <= x <= MAX_COORDINATE,
                -MAX_COORDINATE <= y <= MAX_COORDINATE,
                cos == heading.cosine(),
                sin == heading.sine(),
                -UNIT <= cos <= UNIT,
                -UNIT <= sin <= UNIT,
                forall|j: int|
                    0 <= j < i ==> (#[trigger] segments[j]).0 == x - scaled(
                        cos as int,
                        j * SEGMENT_SPACING,
                    ) && segments[j].1 == y - scaled(sin as int, j * SEGMENT_SPACING),
            decreases WORM_SEGMENTS - i,
        {
            let offset: i64 = (i as i64) * SEGMENT_SPACING;
            proof {
                lemma_scaled_within(cos as int, offset as int);
                lemma_scaled_within(sin as int, offset as int);
            }
            let back_x: i64 = scale(cos, offset);
            let back_y: i64 = scale(sin, offset);
            segments.push((x - back_x, y - back_y));
            i += 1;
        }
        let worm = Worm {
            x,
            y,
            angle: scale(seed, FULL_TURN),
            turn_speed: 30_000 + scale(seed, 40_000),
            speed: 1_200_000 + scale(seed, UNIT),
            segments,
            hue,
            wobble_phase: scale(seed, FULL_TURN),
            wobble_rate: 2_000_000 + scale(seed, 3_000_000),
        };
        proof {
            let born = WormState::born(x as int, y as int, hue as int, seed as int, heading);
            assert(worm@.trail =~= born.trail);
        }
        worm
    }

    /// Makes a worm at `(x, y)` from a seed in `[0, 1)`. Its first heading is `seed` times
    /// [`FULL_TURN`]; `trig` is asked once, for the sine and cosine of that heading.
    pub fn new<F: Fn(i64) -> Trig>(x: i64, y: i64, hue: i64, seed: i64, trig: &F) -> (worm: Worm)
        requires
            -MAX_COORDINATE <= x <= MAX_COORDINATE,
            -MAX_COORDINATE <= y <= MAX_COORDINATE,
            0 <= seed < UNIT,
            forall|a: i64| trig.requires((a,)),
        ensures
            creates(*trig, x as int, y as int, hue as int, seed as int, worm@),
            worm.wf(),
    {
        let first: i64 = scale(seed, FULL_TURN);
        let heading = trig(first);
        let worm = Worm::with_heading(x, y, hue, seed, heading);
        assert((*trig).ensures((scaled(seed as int, FULL_TURN as int) as i64,), heading));
        worm
    }

    /// Whether the heading has room for one more turn (see [`WormState::can_turn`]).
    pub fn can_turn(&self) -> (room: bool)
        requires
            self.wf(),
        ensures
            room == self@.can_turn(),
    {
        -MAX_ANGLE + self.turn_speed <= self.angle && self.angle <= MAX_ANGLE - self.turn_speed
    }

    /// The angle whose sine bends the heading at tick `time`: `time` times the wobble
    /// rate, plus the wobble phase.
    pub fn wobble_argument(&self, time: u64) -> (argument: i64)
        requires
            self.wf(),
            time <= MAX_TIME,
        ensures
            argument == self@.wobble_argument(time as int),
    {
        assert(0 <= time * self.wobble_rate <= MAX_TIME * 5_000_000) by (nonlinear_arith)
            requires
                0 <= time <= MAX_TIME,
                0 <= self.wobble_rate <= 5_000_000,
        ;
        (time as i64) * self.wobble_rate + self.wobble_phase
    }

    /// Bends the heading by `turn_speed` times the sine in `wobble`, which is the sine of
    /// [`Worm::wobble_argument`] at the current tick.
    pub fn steer(&mut self, wobble: Trig)
        requires
            old(self).wf(),
            old(self)@.can_turn(),
        ensures
            final(self)@ == old(self)@.steered(wobble),
            final(self).wf(),
    {
        let sin: i64 = wobble.sin();
        proof {
            lemma_scaled_within(sin as int, self.turn_speed as int);
        }
        let bend: i64 = scale(sin, self.turn_speed);
        self.angle = self.angle + bend;
    }

    /// Moves the head by `speed` along the heading whose cosine and sine are in
    /// `heading`, wraps it around a surface of `width` by `height` pixels, and puts the
    /// new head position at the front of the trail, dropping the oldest point.
    pub fn advance(&mut self, width: u32, height: u32, heading: Trig)
        requires
            old(self).wf(),
        ensures
            final(self)@ == old(self)@.advanced(width as int, height as int, heading),
            final(self).wf(),
            final(self)@.can_turn() == old(self)@.can_turn(),
            final(self)@.trail.len() == WORM_SEGMENTS,
            final(self)@.trail[0] == (final(self)@.x, final(self)@.y),
            -MARGIN <= final(self)@.x <= width * UNIT + MARGIN,
            -MARGIN <= final(self)@.y <= height * UNIT + MARGIN,
    {
        let cos: i64 = heading.cos();
        let sin: i64 = heading.sin();
        proof {
            lemma_scaled_within(cos as int, self.speed as int);
            lemma_scaled_within(sin as int, self.speed as int);
        }
        let x: i64 = wrap(self.x + scale(cos, self.speed), width);
        let y: i64 = wrap(self.y + scale(sin, self.speed), height);
        self.x = x;
        self.y = y;
        self.segments.insert(0, (x, y));
        self.segments.truncate(WORM_SEGMENTS);
        proof {
            let after = old(self)@.advanced(width as int, height as int, heading);
            assert(self@.trail =~= after.trail);
        }
    }

    /// Advances the worm by one tick: bends the heading by the wobble at `time`, moves
    /// the head along the new heading, wraps it around the surface and extends the
    /// trail. `trig` is asked twice: for the wobble argument, then for the new heading.
    pub fn update<F: Fn(i64) -> Trig>(&mut self, width: u32, height: u32, time: u64, trig: &F)
        requires
            old(self).wf(),
            old(self)@.can_turn(),
            time <= MAX_TIME,
            forall|a: i64| trig.requires((a,)),
        ensures
            updates(*trig, old(self)@, width as int, height as int, time as int, final(self)@),
            final(self).wf(),
            final(self)@.trail.len() == WORM_SEGMENTS,
            final(self)@.trail[0] == (final(self)@.x, final(self)@.y),
            -MARGIN <= final(self)@.x <= width * UNIT + MARGIN,
            -MARGIN <= final(self)@.y <= height * UNIT + MARGIN,
            old(self)@.angle - old(self)@.turn_speed <= final(self)@.angle <= old(self)@.angle
                + old(self)@.turn_speed,
    {
        let wobble = trig(self.wobble_argument(time));
        proof {
            use_type_invariant(&wobble);
            lemma_scaled_within(wobble.sine(), self@.turn_speed);
        }
        self.steer(wobble);
        let heading = trig(self.angle);
        self.advance(width, height, heading);
        proof {
            let before = old(self)@;
            assert((*trig).ensures((before.wobble_argument(time as int) as i64,), wobble));
            assert((*trig).ensures((before.steered(wobble).angle as i64,), heading));
        }
    }

    /// One eye of the worm, on the side `side` of its head.
    fn eye(&self, heading: Trig, across: Trig, side: i64) -> (pair: (DrawCommand, DrawCommand))
        requires
            self.wf(),
            side == 1 || side == -1,
        ensures
            seq![pair.0@, pair.1@] == self@.eye(heading, across, side as int),
    {
        let offset: i64 = scale(SEGMENT_RADIUS, 500_000);
        let cos: i64 = heading.cos();
        let sin: i64 = heading.sin();
        proof {
            use_type_invariant(&across);
            lemma_scaled_within(across.cosine(), offset as int);
            lemma_scaled_within(across.sine(), offset as int);
            lemma_scaled_within(cos as int, 3_000_000);
            lemma_scaled_within(sin as int, 3_000_000);
            lemma_scaled_within(cos as int, 1_200_000);
            lemma_scaled_within(sin as int, 1_200_000);
        }
        let head = self.segments[0];
        let lean_x: i64 = scale(across.cos(), offset);
        let lean_y: i64 = scale(across.sin(), offset);
        let (aside_x, aside_y): (i64, i64) = if side == 1 {
            (lean_x, lean_y)
        } else {
            (-lean_x, -lean_y)
        };
        assert(aside_x == side * lean_x && aside_y == side * lean_y) by {
            if side == 1 {
                assert(1 * lean_x == lean_x && 1 * lean_y == lean_y);
            } else {
                assert((-1) * lean_x == -lean_x && (-1) * lean_y == -lean_y);
            }
        }
        let x: i64 = head.0 + aside_x + scale(cos, 3_000_000);
        let y: i64 = head.1 + aside_y + scale(sin, 3_000_000);
        let white = Color::Rgba { red: 255, green: 255, blue: 255, alpha: UNIT };
        let black = Color::Rgba { red: 0, green: 0, blue: 0, alpha: UNIT };
        let ball = DrawCommand::FillCircle { x, y, radius: 3_000_000, color: white };
        let pupil = DrawCommand::FillCircle {
            x: x + scale(cos, 1_200_000),
            y: y + scale(sin, 1_200_000),
            radius: 1_500_000,
            color: black,
        };
        assert(seq![ball@, pupil@] =~= self@.eye(heading, across, side as int));
        (ball, pupil)
    }

    /// The commands that draw the worm, given the cosine and sine of its heading and of
    /// the axis a quarter turn further: one disc for each trail point from the head to
    /// the tail, each smaller, lighter and more transparent than the one before, then
    /// the two eyes on the head.
    pub fn draw_with(&self, heading: Trig, across: Trig) -> (frame: Vec<DrawCommand>)
        requires
            self.wf(),
        ensures
            frame_view(frame@) == self@.portrait(heading, across),
            frame.len() == WORM_SEGMENTS + 4,
    {
        let total: usize = self.segments.len();
        let mut frame: Vec<DrawCommand> = Vec::new();
        let mut i: usize = 0;
        while i < total
            invariant
                self.wf(),
                total == self.segments.len(),
                total == WORM_SEGMENTS,
                i <= total,
                frame.len() == i,
                forall|j: int| 0 <= j < i ==> (#[trigger] frame[j])@ == self@.body()[j],
            decreases total - i,
        {
            let point = self.segments[i];
            let t: i64 = (i as i64) * UNIT / (total as i64);
            let color = Color::Hsla {
                hue: self.hue,
                saturation: 70_000_000,
                lightness: 45_000_000 + scale(t, 20_000_000),
                alpha: UNIT - scale(t, 300_000),
            };
            let radius: i64 = scale(SEGMENT_RADIUS, UNIT - scale(t, 600_000));
            frame.push(DrawCommand::FillCircle { x: point.0, y: point.1, radius, color });
            i += 1;
        }
        let left = self.eye(heading, across, -1);
        let right = self.eye(heading, across, 1);
        frame.push(left.0);
        frame.push(left.1);
        frame.push(right.0);
        frame.push(right.1);
        proof {
            let eyes = self@.eye(heading, across, -1) + self@.eye(heading, across, 1);
            assert(eyes[0] == left.0@ && eyes[1] == left.1@) by {
                assert(seq![left.0@, left.1@][0] == left.0@);
                assert(seq![left.0@, left.1@][1] == left.1@);
            }
            assert(eyes[2] == right.0@ && eyes[3] == right.1@) by {
                assert(seq![right.0@, right.1@][0] == right.0@);
                assert(seq![right.0@, right.1@][1] == right.1@);
            }
            assert(frame_view(frame@) =~= self@.portrait(heading, across));
        }
        frame
    }

    /// The commands that draw the worm. `trig` is asked twice: for the heading, and for
    /// the heading plus [`QUARTER_TURN`].
    pub fn draw<F: Fn(i64) -> Trig>(&self, trig: &F) -> (frame: Vec<DrawCommand>)
        requires
            self.wf(),
            forall|a: i64| trig.requires((a,)),
        ensures
            draws(*trig, self@, frame_view(frame@)),
            frame.len() == WORM_SEGMENTS + 4,
    {
        let heading = trig(self.angle);
        let across = trig(self.angle + QUARTER_TURN);
        let frame = self.draw_with(heading, across);
        proof {
            assert((*trig).ensures((self@.angle as i64,), heading));
            assert((*trig).ensures(((self@.angle + QUARTER_TURN) as i64,), across));
        }
        frame
    }

    /// Head position across, in fixed-point pixels.
    pub fn x(&self) -> (value: i64)
        ensures
            value == self@.x,
    {
        self.x
    }

    /// Head position down, in fixed-point pixels.
    pub fn y(&self) -> (value: i64)
        ensures
            value == self@.y,
    {
        self.y
    }

    /// Direction of travel, in fixed-point radians.
    pub fn angle(&self) -> (value: i64)
        ensures
            value == self@.angle,
    {
        self.angle
    }

    /// The most that the heading changes in one tick.
    pub fn turn_speed(&self) -> (value: i64)
        ensures
            value == self@.turn_speed,
    {
        self.turn_speed
    }

    /// Distance covered in one tick.
    pub fn speed(&self) -> (value: i64)
        ensures
            value == self@.speed,
    {
        self.speed
    }

    /// Colour hue, in fixed-point degrees.
    pub fn hue(&self) -> (value: i64)
        ensures
            value == self@.hue,
    {
        self.hue
    }

    /// Phase of the oscillation that bends the heading.
    pub fn wobble_phase(&self) -> (value: i64)
        ensures
            value == self@.wobble_phase,
    {
        self.wobble_phase
    }

    /// Rate of the oscillation that bends the heading, per tick.
    pub fn wobble_rate(&self) -> (value: i64)
        ensures
            value == self@.wobble_rate,
    {
        self.wobble_rate
    }

    /// The trail, the head first.
    pub fn segments(&self) -> (points: Vec<(i64, i64)>)
        ensures
            trail_view(points@) == self@.trail,
    {
        let mut points: Vec<(i64, i64)> = Vec::new();
        let mut i: usize = 0;
        while i < self.segments.len()
            invariant
                i <= self.segments.len(),
                points@ == self.segments@.subrange(0, i as int),
            decreases self.segments.len() - i,
        {
            points.push(self.segments[i]);
            i += 1;
        }
        assert(points@ =~= self.segments@);
        points
    }
}

/// `worm` is what [`Worm::new`] makes of these arguments for some answer of `trig`.
pub open spec fn creates<F: Fn(i64) -> Trig>(
    trig: F,
    x: int,
    y: int,
    hue: int,
    seed: int,
    worm: WormState,
) -> bool {
    exists|heading: Trig|
        {
            &&& #[trigger] trig.ensures((scaled(seed, FULL_TURN as int) as i64,), heading)
            &&& worm == WormState::born(x, y, hue, seed, heading)
        }
}

/// `after` is what one tick makes of `before` for some answers of `trig`: the first to
/// the wobble argument, the second to the heading that this wobble gives.
pub open spec fn updates<F: Fn(i64) -> Trig>(
    trig: F,
    before: WormState,
    width: int,
    height: int,
    time: int,
    after: WormState,
) -> bool {
    exists|wobble: Trig, heading: Trig|
        {
            &&& #[trigger] trig.ensures((before.wobble_argument(time) as i64,), wobble)
            &&& #[trigger] trig.ensures((before.steered(wobble).angle as i64,), heading)
            &&& after == before.steered(wobble).advanced(width, height, heading)
        }
}

/// `frame` is what [`Worm::draw`] makes of `worm` for some answers of `trig`: the first
/// to the heading, the second to the heading plus a quarter turn.
pub open spec fn draws<F: Fn(i64) -> Trig>(trig: F, worm: WormState, frame: Seq<CommandView>) -> bool {
    exists|heading: Trig, across: Trig|
        {
            &&& #[trigger] trig.ensures((worm.angle as i64,), heading)
            &&& #[trigger] trig.ensures(((worm.angle + QUARTER_TURN) as i64,), across)
            &&& frame == worm.portrait(heading, across)
        }
}

} // verus!
