use worms::config::{
    DEFAULT_HEIGHT, DEFAULT_WIDTH, MARGIN, MAX_TIME, NUM_WORMS, SEGMENT_RADIUS, SEGMENT_SPACING,
    WORM_SEGMENTS,
};
use worms::fixed::UNIT;
use worms::paint::{Color, DrawCommand};
use worms::trig::Trig;
use worms::world::{World, TITLE, TITLE_FONT};
use worms::worm::Worm;

/// Sine and cosine of an angle given in millionths of a radian, to the nearest millionth.
fn sample(angle: i64) -> Trig {
    let radians: f64 = angle as f64 / 1_000_000.0;
    let sin: i64 = (radians.sin() * 1_000_000.0).round() as i64;
    let cos: i64 = (radians.cos() * 1_000_000.0).round() as i64;
    Trig::new(sin, cos).expect("a sine and a cosine lie within [-1, 1]")
}

fn snapshot(world: &World) -> Vec<(i64, i64, i64, Vec<(i64, i64)>)> {
    world.worms().iter().map(|worm| (worm.x(), worm.y(), worm.angle(), worm.segments())).collect()
}

#[test]
fn the_constants_are_those_of_the_animation() {
    assert_eq!(DEFAULT_WIDTH, 800);
    assert_eq!(DEFAULT_HEIGHT, 600);
    assert_eq!(NUM_WORMS, 12);
    assert_eq!(WORM_SEGMENTS, 20);
    assert_eq!(SEGMENT_RADIUS, 6 * UNIT);
    assert_eq!(SEGMENT_SPACING, 10 * UNIT);
    assert_eq!(MARGIN, 20 * UNIT);
}

#[test]
fn world_has_twelve_worms_with_hues_spread_evenly() {
    let world: World = World::new(800, 600, &sample);
    assert_eq!(world.worms().len(), 12);
    for (index, worm) in world.worms().iter().enumerate() {
        assert_eq!(worm.hue(), index as i64 * 30 * UNIT);
    }
}

#[test]
fn world_starts_at_tick_zero_on_its_surface() {
    let world: World = World::new(800, 600, &sample);
    assert_eq!(world.time(), 0);
    assert_eq!(world.width(), 800);
    assert_eq!(world.height(), 600);
}

#[test]
fn world_scatters_its_worms() {
    let world: World = World::new(800, 600, &sample);
    let expected: Vec<(i64, i64)> = vec![
        (0, 0),
        (66_666_666, 185_000_000),
        (133_333_333, 370_000_000),
        (200_000_000, 555_000_000),
        (266_666_666, 140_000_000),
        (333_333_333, 325_000_000),
        (400_000_000, 510_000_000),
        (466_666_666, 95_000_000),
        (533_333_333, 280_000_000),
        (600_000_000, 465_000_000),
        (666_666_666, 50_000_000),
        (733_333_333, 235_000_000),
    ];
    for (index, worm) in world.worms().iter().enumerate() {
        assert_eq!((worm.x(), worm.y()), expected[index]);
    }
}

#[test]
fn world_seeds_each_worm_by_its_index() {
    let world: World = World::new(800, 600, &sample);
    let speeds: Vec<i64> = vec![
        1_200_000, 1_283_333, 1_366_666, 1_450_000, 1_533_333, 1_616_666, 1_700_000, 1_783_333,
        1_866_666, 1_950_000, 2_033_333, 2_116_666,
    ];
    let angles: Vec<i64> = vec![
        0, 523_596, 1_047_193, 1_570_796, 2_094_392, 2_617_989, 3_141_592, 3_665_189, 4_188_785,
        4_712_388, 5_235_985, 5_759_582,
    ];
    for (index, worm) in world.worms().iter().enumerate() {
        assert_eq!(worm.speed(), speeds[index]);
        assert_eq!(worm.angle(), angles[index]);
        let twin: Worm = Worm::new(worm.x(), worm.y(), worm.hue(), index as i64 * UNIT / 12, &sample);
        assert_eq!(worm.segments(), twin.segments());
        assert_eq!(worm.turn_speed(), twin.turn_speed());
        assert_eq!(worm.wobble_rate(), twin.wobble_rate());
        assert_eq!(worm.wobble_phase(), twin.wobble_phase());
    }
}

#[test]
fn world_on_an_empty_surface_keeps_every_worm_at_the_corner() {
    let world: World = World::new(0, 0, &sample);
    assert_eq!(world.worms().len(), 12);
    for worm in world.worms().iter() {
        assert_eq!((worm.x(), worm.y()), (0, 0));
    }
}

#[test]
fn world_on_the_largest_surface_is_made() {
    let world: World = World::new(u32::MAX, u32::MAX, &sample);
    assert_eq!(world.worms()[11].x(), 11 * (u32::MAX as i64 * UNIT) / 12);
    assert_eq!(world.worms()[1].y(), 37 * (u32::MAX as i64 * UNIT) / 120);
}

#[test]
fn tick_counts_the_time_up_by_one() {
    let mut world: World = World::new(800, 600, &sample);
    let mut expected: u64 = 0;
    while expected < 250 {
        assert_eq!(world.time(), expected);
        world.tick(&sample);
        expected += 1;
        assert_eq!(world.time(), expected);
    }
}

#[test]
fn tick_updates_every_worm_at_the_new_time() {
    let mut world: World = World::new(800, 600, &sample);
    let mut round: u64 = 0;
    while round < 40 {
        let mut alone: Vec<Worm> = world.worms().clone();
        world.tick(&sample);
        for (index, worm) in alone.iter_mut().enumerate() {
            worm.update(800, 600, world.time(), &sample);
            let ticked: &Worm = &world.worms()[index];
            assert_eq!(worm.x(), ticked.x());
            assert_eq!(worm.y(), ticked.y());
            assert_eq!(worm.angle(), ticked.angle());
            assert_eq!(worm.segments(), ticked.segments());
        }
        round += 1;
    }
}

#[test]
fn tick_keeps_the_surface_and_the_worms() {
    let mut world: World = World::new(640, 480, &sample);
    world.tick(&sample);
    world.tick(&sample);
    assert_eq!(world.width(), 640);
    assert_eq!(world.height(), 480);
    assert_eq!(world.worms().len(), 12);
    for (index, worm) in world.worms().iter().enumerate() {
        assert_eq!(worm.hue(), index as i64 * 30 * UNIT);
        assert_eq!(worm.segments().len(), WORM_SEGMENTS);
    }
}

#[test]
fn tick_keeps_every_head_within_the_margin() {
    let mut world: World = World::new(100, 60, &sample);
    let mut round: u64 = 0;
    while round < 1500 {
        world.tick(&sample);
        for worm in world.worms().iter() {
            assert!(-MARGIN <= worm.x() && worm.x() <= 100 * UNIT + MARGIN);
            assert!(-MARGIN <= worm.y() && worm.y() <= 60 * UNIT + MARGIN);
            assert_eq!(worm.segments()[0], (worm.x(), worm.y()));
            assert_eq!(worm.segments().len(), WORM_SEGMENTS);
        }
        round += 1;
    }
}

#[test]
fn two_worlds_run_alike() {
    let mut first: World = World::new(800, 600, &sample);
    let mut second: World = World::new(800, 600, &sample);
    assert_eq!(snapshot(&first), snapshot(&second));
    let mut round: u64 = 0;
    while round < 300 {
        first.tick(&sample);
        second.tick(&sample);
        assert_eq!(first.time(), second.time());
        assert_eq!(snapshot(&first), snapshot(&second));
        assert_eq!(first.draw(&sample), second.draw(&sample));
        round += 1;
    }
}

#[test]
fn tick_may_run_until_the_last_tick() {
    let world: World = World::new(800, 600, &sample);
    assert!(world.time() < MAX_TIME);
    assert_eq!(MAX_TIME, 1_000_000_000_000);
}

#[test]
fn frame_starts_with_the_veil() {
    let world: World = World::new(800, 600, &sample);
    let frame: Vec<DrawCommand> = world.draw(&sample);
    assert_eq!(
        frame[0],
        DrawCommand::FillRect {
            x: 0,
            y: 0,
            width: 800 * UNIT,
            height: 600 * UNIT,
            color: Color::Rgba { red: 30, green: 20, blue: 40, alpha: 250_000 },
        }
    );
}

#[test]
fn frame_draws_the_worms_in_the_order_they_were_made() {
    let mut world: World = World::new(800, 600, &sample);
    world.tick(&sample);
    world.tick(&sample);
    let frame: Vec<DrawCommand> = world.draw(&sample);
    let each: usize = WORM_SEGMENTS + 4;
    assert_eq!(frame.len(), 1 + NUM_WORMS * each + 3);
    for (index, worm) in world.worms().iter().enumerate() {
        let own: Vec<DrawCommand> = worm.draw(&sample);
        assert_eq!(&frame[1 + index * each..1 + (index + 1) * each], &own[..]);
    }
}

#[test]
fn frame_ends_with_the_glowing_title() {
    let world: World = World::new(800, 600, &sample);
    let frame: Vec<DrawCommand> = world.draw(&sample);
    assert_eq!(frame.len(), 292);
    assert_eq!(
        frame[289],
        DrawCommand::Glow {
            color: Color::Rgba { red: 180, green: 100, blue: 255, alpha: 800_000 },
            blur: 20 * UNIT,
        }
    );
    assert_eq!(
        frame[290],
        DrawCommand::FillText {
            text: "hello worms :P",
            font: "bold 48px monospace",
            x: 400 * UNIT,
            y: 60 * UNIT,
            color: Color::Rgba { red: 240, green: 224, blue: 255, alpha: UNIT },
        }
    );
    assert_eq!(frame[291], DrawCommand::ClearGlow);
    assert_eq!(TITLE, "hello worms :P");
    assert_eq!(TITLE_FONT, "bold 48px monospace");
}

#[test]
fn frame_centres_the_title_on_an_odd_width() {
    let world: World = World::new(801, 600, &sample);
    let frame: Vec<DrawCommand> = world.draw(&sample);
    match frame[290] {
        DrawCommand::FillText { x, y, .. } => {
            assert_eq!(x, 400_500_000);
            assert_eq!(y, 60 * UNIT);
        }
        _ => panic!("the title is missing"),
    }
}

#[test]
fn draw_leaves_the_world_as_it_is() {
    let mut world: World = World::new(800, 600, &sample);
    world.tick(&sample);
    let before = snapshot(&world);
    let first: Vec<DrawCommand> = world.draw(&sample);
    let second: Vec<DrawCommand> = world.draw(&sample);
    assert_eq!(first, second);
    assert_eq!(snapshot(&world), before);
    assert_eq!(world.time(), 1);
}
