//! The world: twelve worms, the surface they wander over, and the tick they are at.

use vstd::prelude::*;
use crate::config::{FULL_TURN, MAX_TIME, NUM_WORMS, WORM_SEGMENTS};
use crate::fixed::UNIT;
use crate::paint::{
    frame_view, lemma_frame_view_add, opaque, Color, ColorView, CommandView, DrawCommand,
};
use crate::trig::Trig;
use crate::worm::{creates, draws, updates, Worm, WormState};

verus! {

/// The text of the title.
pub const TITLE: &'static str = "hello worms :P";

/// The font of the title.
pub const TITLE_FONT: &'static str = "bold 48px monospace";

/// A world as numbers: what [`World`] holds, without machine limits.
pub struct WorldState {
    /// The worms, in the order in which they were made.
    pub worms: Seq<WormState>,
    /// Size of the surface, in pixels.
    pub width: int,
    pub height: int,
    /// How many ticks have passed.
    pub time: int,
}

/// The seed of the worm made at `index`: `index / 12`, rounded down to a millionth.
pub open spec fn seed_of(index: int) -> int {
    index * UNIT / (NUM_WORMS as int)
}

/// Where the worm made at `index` starts, across: `index / 12` of the width.
pub open spec fn start_x(index: int, width: int) -> int {
    index * (width * UNIT) / (NUM_WORMS as int)
}

/// Where the worm made at `index` starts, down: the fractional part of 3.7 times
/// `index / 12`, which is `(37 * index mod 120) / 120`, of the height.
pub open spec fn start_y(index: int, height: int) -> int {
    ((37 * index) % 120) * (height * UNIT) / 120
}

/// The hue of the worm made at `index`: `index / 12` of the colour wheel's 360 degrees.
pub open spec fn hue_of(index: int) -> int {
    index * (360 * UNIT) / (NUM_WORMS as int)
}

/// How many commands draw one worm: a disc for each trail point, and two for each eye.
pub open spec fn portrait_len() -> int {
    WORM_SEGMENTS + 4
}

/// The veil that dims what earlier frames left on the surface: a dark rectangle of
/// opacity 0.25 over all of it.
pub open spec fn backdrop(width: int, height: int) -> CommandView {
    CommandView::FillRect {
        x: 0,
        y: 0,
        width: width * UNIT,
        height: height * UNIT,
        color: ColorView::Rgba { red: 30, green: 20, blue: 40, alpha: 250_000 },
    }
}

/// The title: a violet glow of blur 20 switched on, the text filled in a pale violet,
/// centred across the surface with its baseline 60 pixels down, and the glow switched
/// off again.
pub open spec fn title(width: int) -> Seq<CommandView> {
    seq![
        CommandView::Glow {
            color: ColorView::Rgba { red: 180, green: 100, blue: 255, alpha: 800_000 },
            blur: 20_000_000,
        },
        CommandView::FillText {
            text: TITLE@,
            font: TITLE_FONT@,
            x: width * UNIT / 2,
            y: 60_000_000,
            color: opaque(240, 224, 255),
        },
        CommandView::ClearGlow,
    ]
}

impl WorldState {
    /// What holds of every world: it has its twelve worms, each well formed; its tick
    /// is within [`MAX_TIME`]; and no heading has moved further from where it started
    /// than the ticks so far allow.
    pub open spec fn wf(self) -> bool {
        &&& self.worms.len() == NUM_WORMS
        &&& 0 <= self.width <= u32::MAX
        &&& 0 <= self.height <= u32::MAX
        &&& 0 <= self.time <= MAX_TIME
        &&& forall|i: int|
            0 <= i < self.worms.len() ==> {
                &&& (#[trigger] self.worms[i]).wf()
                &&& -(FULL_TURN + self.time * 70_000) <= self.worms[i].angle <= FULL_TURN
                    + self.time * 70_000
            }
    }
}

/// `world` is what [`World::new`] makes for some answers of `trig`.
pub open spec fn founds<F: Fn(i64) -> Trig>(trig: F, width: int, height: int, world: WorldState) -> bool {
    &&& world.width == width
    &&& world.height == height
    &&& world.time == 0
    &&& world.worms.len() == NUM_WORMS
    &&& forall|i: int|
        0 <= i < NUM_WORMS ==> creates(
            trig,
            start_x(i, width),
            start_y(i, height),
            hue_of(i),
            seed_of(i),
            #[trigger] world.worms[i],
        )
}

/// `after` is what one tick makes of `before` for some answers of `trig`: the time is
/// one more, and every worm has been updated at the new time.
pub open spec fn ticks<F: Fn(i64) -> Trig>(trig: F, before: WorldState, after: WorldState) -> bool {
    &&& after.width == before.width
    &&& after.height == before.height
    &&& after.time == before.time + 1
    &&& after.worms.len() == before.worms.len()
    &&& forall|i: int|
        0 <= i < before.worms.len() ==> updates(
            trig,
            before.worms[i],
            before.width,
            before.height,
            before.time + 1,
            #[trigger] after.worms[i],
        )
}

/// `frame` is what [`World::draw`] makes of `world` for some answers of `trig`: the
/// backdrop, then the worms in the order in which they were made, then the title.
pub open spec fn paints<F: Fn(i64) -> Trig>(trig: F, world: WorldState, frame: Seq<CommandView>) -> bool {
    let worms_end = 1 + world.worms.len() * portrait_len();
    &&& frame.len() == worms_end + 3
    &&& frame[0] == backdrop(world.width, world.height)
    &&& forall|i: int|
        0 <= i < world.worms.len() ==> draws(
            trig,
            #[trigger] world.worms[i],
            frame.subrange(1 + i * portrait_len(), 1 + (i + 1) * portrait_len()),
        )
    &&& frame.subrange(worms_end, worms_end + 3) == title(world.width)
}

/// The world.
#[derive(Clone, Debug)]
pub struct World {
    worms: Vec<Worm>,
    width: u32,
    height: u32,
    time: u64,
}

impl View for World {
    type V = WorldState;

    closed spec fn view(&self) -> WorldState {
        WorldState {
            worms: Seq::new(self.worms@.len(), |i: int| self.worms@[i]@),
            width: self.width as int,
            height: self.height as int,
            time: self.time as int,
        }
    }
}

impl World {
    /// The world is well formed.
    pub open spec fn wf(&self) -> bool {
        self@.wf()
    }

    /// Makes the world at tick zero on a surface of `width` by `height` pixels, with
    /// [`NUM_WORMS`] worms scattered over it, their hues spread evenly round the colour
    /// wheel. `trig` is asked once for each worm, for its first heading.
    pub fn new<F: Fn(i64) -> Trig>(width: u32, height: u32, trig: &F) -> (world: World)
        requires
            forall|a: i64| trig.requires((a,)),
        ensures
            founds(*trig, width as int, height as int, world@),
            world.wf(),
            forall|i: int| 0 <= i < NUM_WORMS ==> (#[trigger] world@.worms[i]).hue == i * 30_000_000,
    {
        let across: i64 = (width as i64) * UNIT;
        let down: i64 = (height as i64) * UNIT;
        let mut worms: Vec<Worm> = Vec::new();
        let mut i: usize = 0;
        while i < NUM_WORMS
            invariant
                i <= NUM_WORMS,
                worms.len() == i,
                across == width * UNIT,
                down == height * UNIT,
                forall|a: i64| trig.requires((a,)),
                forall|j: int|
                    0 <= j < i ==> {
                        &&& creates(
                            *trig,
                            start_x(j, width as int),
                            start_y(j, height as int),
                            hue_of(j),
                            seed_of(j),
                            (#[trigger] worms[j])@,
                        )
                        &&& worms[j].wf()
                        &&& worms[j]@.hue == j * 30_000_000
                        &&& 0 <= worms[j]@.angle <= FULL_TURN
                    },
            decreases NUM_WORMS - i,
        {
            let index: i64 = i as i64;
            let seed: i64 = index * UNIT / (NUM_WORMS as i64);
            let spot: i64 = (37 * index) % 120;
            assert(0 <= spot * down <= 119 * down) by (nonlinear_arith)
                requires
                    0 <= spot <= 119,
                    0 <= down,
            ;
            assert(0 <= index * across <= 11 * across) by (nonlinear_arith)
                requires
                    0 <= index <= 11,
                    0 <= across,
            ;
            let x: i64 = index * across / (NUM_WORMS as i64);
            let y: i64 = spot * down / 120;
            let hue: i64 = index * (360 * UNIT) / (NUM_WORMS as i64);
            let worm = Worm::new(x, y, hue, seed, trig);
            worms.push(worm);
            i += 1;
        }
        let world = World { worms, width, height, time: 0 };
        proof {
            assert forall|j: int| 0 <= j < NUM_WORMS implies creates(
                *trig,
                start_x(j, width as int),
                start_y(j, height as int),
                hue_of(j),
                seed_of(j),
                #[trigger] world@.worms[j],
            ) by {
                assert(world@.worms[j] == world.worms[j]@);
            }
            assert forall|j: int| 0 <= j < world@.worms.len() implies {
                &&& (#[trigger] world@.worms[j]).wf()
                &&& -(FULL_TURN + world@.time * 70_000) <= world@.worms[j].angle <= FULL_TURN
                    + world@.time * 70_000
            } by {
                assert(world@.worms[j] == world.worms[j]@);
            }
            assert forall|j: int| 0 <= j < NUM_WORMS implies (#[trigger] world@.worms[j]).hue == j
                * 30_000_000 by {
                assert(world@.worms[j] == world.worms[j]@);
            }
        }
        world
    }

    /// Advances the world by one tick: the time grows by one, and every worm is updated
    /// at the new time.
    pub fn tick<F: Fn(i64) -> Trig>(&mut self, trig: &F)
        requires
            old(self).wf(),
            old(self)@.time < MAX_TIME,
            forall|a: i64| trig.requires((a,)),
        ensures
            ticks(*trig, old(self)@, final(self)@),
            final(self).wf(),
            final(self)@.time == old(self)@.time + 1,
    {
        self.time = self.time + 1;
        let width: u32 = self.width;
        let height: u32 = self.height;
        let time: u64 = self.time;
        let ghost before = old(self)@;
        let mut i: usize = 0;
        while i < self.worms.len()
            invariant
                i <= self.worms.len(),
                self.worms.len() == NUM_WORMS,
                self.width == width,
                self.height == height,
                self.time == time,
                before == old(self)@,
                before.wf(),
                before.width == width,
                before.height == height,
                time == before.time + 1,
                time <= MAX_TIME,
                forall|a: i64| trig.requires((a,)),
                forall|j: int|
                    0 <= j < i ==> {
                        &&& updates(
                            *trig,
                            before.worms[j],
                            width as int,
                            height as int,
                            time as int,
                            (#[trigger] self.worms[j])@,
                        )
                        &&& self.worms[j].wf()
                        &&& -(FULL_TURN + time * 70_000) <= self.worms[j]@.angle <= FULL_TURN + time
                            * 70_000
                    },
                forall|j: int| i <= j < NUM_WORMS ==> (#[trigger] self.worms[j])@ == before.worms[j],
            decreases self.worms.len() - i,
        {
            assert(self.worms[i as int]@ == before.worms[i as int]);
            assert(before.worms[i as int].wf());
            self.worms[i].update(width, height, time, trig);
            i += 1;
        }
        proof {
            assert forall|j: int| 0 <= j < before.worms.len() implies updates(
                *trig,
                before.worms[j],
                before.width,
                before.height,
                before.time + 1,
                #[trigger] self@.worms[j],
            ) by {
                assert(self@.worms[j] == self.worms[j]@);
            }
            assert forall|j: int| 0 <= j < self@.worms.len() implies {
                &&& (#[trigger] self@.worms[j]).wf()
                &&& -(FULL_TURN + self@.time * 70_000) <= self@.worms[j].angle <= FULL_TURN
                    + self@.time * 70_000
            } by {
                assert(self@.worms[j] == self.worms[j]@);
            }
        }
    }

    /// The commands that draw one frame: a veil over what the earlier frames left, the
    /// worms in the order in which they were made, and the title with its glow.
    pub fn draw<F: Fn(i64) -> Trig>(&self, trig: &F) -> (frame: Vec<DrawCommand>)
        requires
            self.wf(),
            forall|a: i64| trig.requires((a,)),
        ensures
            paints(*trig, self@, frame_view(frame@)),
    {
        let veil = Color::Rgba { red: 30, green: 20, blue: 40, alpha: 250_000 };
        let mut frame: Vec<DrawCommand> = Vec::new();
        frame.push(
            DrawCommand::FillRect {
                x: 0,
                y: 0,
                width: (self.width as i64) * UNIT,
                height: (self.height as i64) * UNIT,
                color: veil,
            },
        );
        let mut i: usize = 0;
        while i < self.worms.len()
            invariant
                self.wf(),
                i <= self.worms.len(),
                self.worms.len() == NUM_WORMS,
                forall|a: i64| trig.requires((a,)),
                frame.len() == 1 + i * portrait_len(),
                frame[0]@ == backdrop(self@.width, self@.height),
                forall|j: int|
                    0 <= j < i ==> draws(
                        *trig,
                        #[trigger] self@.worms[j],
                        frame_view(frame@).subrange(
                            1 + j * portrait_len(),
                            1 + (j + 1) * portrait_len(),
                        ),
                    ),
            decreases self.worms.len() - i,
        {
            let ghost earlier = frame@;
            assert(self@.worms[i as int] == self.worms[i as int]@);
            assert(self@.worms[i as int].wf());
            let mut part = self.worms[i].draw(trig);
            let ghost added = part@;
            frame.append(&mut part);
            proof {
                lemma_frame_view_add(earlier, added);
                let start = 1 + i * portrait_len();
                assert(frame_view(frame@).subrange(start, start + portrait_len()) =~= frame_view(
                    added,
                ));
                assert forall|j: int| 0 <= j < i implies draws(
                    *trig,
                    #[trigger] self@.worms[j],
                    frame_view(frame@).subrange(
                        1 + j * portrait_len(),
                        1 + (j + 1) * portrait_len(),
                    ),
                ) by {
                    assert(frame_view(frame@).subrange(
                        1 + j * portrait_len(),
                        1 + (j + 1) * portrait_len(),
                    ) =~= frame_view(earlier).subrange(
                        1 + j * portrait_len(),
                        1 + (j + 1) * portrait_len(),
                    ));
                }
            }
            i += 1;
        }
        let ghost worms_part = frame@;
        frame.push(
            DrawCommand::Glow {
                color: Color::Rgba { red: 180, green: 100, blue: 255, alpha: 800_000 },
                blur: 20_000_000,
            },
        );
        frame.push(
            DrawCommand::FillText {
                text: TITLE,
                font: TITLE_FONT,
                x: (self.width as i64) * UNIT / 2,
                y: 60_000_000,
                color: Color::Rgba { red: 240, green: 224, blue: 255, alpha: UNIT },
            },
        );
        frame.push(DrawCommand::ClearGlow);
        proof {
            let whole = frame_view(frame@);
            let worms_end = 1 + self@.worms.len() * portrait_len();
            assert(whole.subrange(worms_end, worms_end + 3) =~= title(self@.width));
            assert forall|j: int| 0 <= j < self@.worms.len() implies draws(
                *trig,
                #[trigger] self@.worms[j],
                whole.subrange(1 + j * portrait_len(), 1 + (j + 1) * portrait_len()),
            ) by {
                assert(whole.subrange(1 + j * portrait_len(), 1 + (j + 1) * portrait_len())
                    =~= frame_view(worms_part).subrange(
                    1 + j * portrait_len(),
                    1 + (j + 1) * portrait_len(),
                ));
            }
        }
        frame
    }

    /// Width of the surface, in pixels.
    pub fn width(&self) -> (value: u32)
        ensures
            value == self@.width,
    {
        self.width
    }

    /// Height of the surface, in pixels.
    pub fn height(&self) -> (value: u32)
        ensures
            value == self@.height,
    {
        self.height
    }

    /// How many ticks have passed.
    pub fn time(&self) -> (value: u64)
        ensures
            value == self@.time,
    {
        self.time
    }

    /// The worms, in the order in which they were made.
    pub fn worms(&self) -> (worms: &Vec<Worm>)
        ensures
            worms@.len() == self@.worms.len(),
            forall|i: int| 0 <= i < worms@.len() ==> (#[trigger] worms@[i])@ == self@.worms[i],
    {
        &self.worms
    }
}

} // verus!
