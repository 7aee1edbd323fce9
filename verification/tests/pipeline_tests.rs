use particle_pipeline::frame::{quits, wait_time, FpsCounter, Key, LoopEvent, OPTIMAL_WAIT_TIME};
use particle_pipeline::particle::{
    buffer_size, initial_particle, step_particle, Particle, Rgba, Vec2, DRIFT_X, DRIFT_Y, UNIT,
};
use particle_pipeline::pipeline::{div_ceil_u32, ParticlePipeline, PARTICLE_COUNT, WORK_GROUP_SIZE};
use particle_pipeline::random::rand01;
use particle_pipeline::store::ParticleStore;

fn particle_at(x: i32, y: i32) -> Particle {
    Particle {
        pos: Vec2 { x, y },
        vel: Vec2 { x: DRIFT_X, y: DRIFT_Y },
        color: Rgba { r: 0, g: 500, b: UNIT, a: UNIT },
    }
}

#[test]
fn initialization_bounds() {
    let store = ParticleStore::initialize(100);
    assert_eq!(store.len(), 100);
    for i in 0..store.len() {
        let p = store.particle(i);
        assert!(-UNIT <= p.pos.x && p.pos.x <= UNIT);
        assert!(-UNIT <= p.pos.y && p.pos.y <= UNIT);
        assert_eq!(p.vel.x, DRIFT_X);
        assert_eq!(p.vel.y, DRIFT_Y);
        assert!(0 <= p.color.r && p.color.r <= UNIT);
        assert!(0 <= p.color.g && p.color.g <= UNIT);
        assert!(0 <= p.color.b && p.color.b <= UNIT);
        assert_eq!(p.color.a, UNIT);
    }
}

#[test]
fn initialization_empty() {
    let store = ParticleStore::initialize(0);
    assert_eq!(store.len(), 0);
}

#[test]
fn count_invariant_across_frames() {
    let mut store = ParticleStore::initialize(50);
    let pipeline = ParticlePipeline::new(1, 2, WORK_GROUP_SIZE);
    assert_eq!(store.len(), 50);
    for _ in 0..5 {
        assert!(store.can_step());
        let drawn = pipeline.run_frame(&mut store);
        assert_eq!(store.len(), 50);
        assert_eq!(drawn.len(), 50);
    }
}

#[test]
fn dispatch_sizing_demo_values() {
    let pipeline = ParticlePipeline::new(1, 2, WORK_GROUP_SIZE);
    assert_eq!(pipeline.dispatch_groups(PARTICLE_COUNT), 16);
}

#[test]
fn dispatch_sizing_edges() {
    assert_eq!(div_ceil_u32(0, 64), 0);
    assert_eq!(div_ceil_u32(1, 64), 1);
    assert_eq!(div_ceil_u32(63, 64), 1);
    assert_eq!(div_ceil_u32(64, 64), 1);
    assert_eq!(div_ceil_u32(65, 64), 2);
    assert_eq!(div_ceil_u32(128, 64), 2);
    assert_eq!(div_ceil_u32(u32::MAX, 1), u32::MAX);
    assert_eq!(div_ceil_u32(u32::MAX, u32::MAX), 1);
}

#[test]
fn end_to_end_four_particles() {
    let initial = vec![
        particle_at(-UNIT, -UNIT),
        particle_at(UNIT, UNIT),
        particle_at(0, 0),
        particle_at(500, -500),
    ];
    let mut store = ParticleStore::from_particles(initial);
    let pipeline = ParticlePipeline::new(1, 2, WORK_GROUP_SIZE);
    assert!(store.can_step());
    let drawn = pipeline.run_frame(&mut store);

    let expected = vec![
        particle_at(-UNIT, -UNIT - 100),
        particle_at(UNIT, UNIT - 100),
        particle_at(0, -100),
        particle_at(500, -600),
    ];
    assert_eq!(drawn, expected);
    assert_eq!(store.len(), 4);
    for (i, e) in expected.iter().enumerate() {
        assert_eq!(store.particle(i), *e);
    }
}

#[test]
fn render_sees_each_frames_compute_output() {
    let mut store = ParticleStore::from_particles(vec![particle_at(0, 0)]);
    let pipeline = ParticlePipeline::new(1, 2, WORK_GROUP_SIZE);

    let first = pipeline.run_frame(&mut store);
    assert_eq!(first[0].pos, Vec2 { x: 0, y: -100 });

    let second = pipeline.run_frame(&mut store);
    assert_eq!(second[0].pos, Vec2 { x: 0, y: -200 });
    assert_eq!(second[0], store.particle(0));
}

#[test]
fn step_particle_moves_by_velocity() {
    let p = Particle {
        pos: Vec2 { x: 30, y: 40 },
        vel: Vec2 { x: -7, y: 9 },
        color: Rgba { r: 1, g: 2, b: 3, a: UNIT },
    };
    let s = step_particle(p);
    assert_eq!(s.pos, Vec2 { x: 23, y: 49 });
    assert_eq!(s.vel, p.vel);
    assert_eq!(s.color, p.color);
}

#[test]
fn can_step_rejects_overflowing_population() {
    let p = Particle {
        pos: Vec2 { x: i32::MAX, y: 0 },
        vel: Vec2 { x: 1, y: 0 },
        color: Rgba { r: 0, g: 0, b: 0, a: UNIT },
    };
    let store = ParticleStore::from_particles(vec![particle_at(0, 0), p]);
    assert!(!store.can_step());
}

#[test]
fn initial_particle_stretches_samples() {
    let p = initial_particle(0, UNIT, 250, 500, 750);
    assert_eq!(p.pos, Vec2 { x: -UNIT, y: UNIT });
    assert_eq!(p.vel, Vec2 { x: DRIFT_X, y: DRIFT_Y });
    assert_eq!(p.color, Rgba { r: 250, g: 500, b: 750, a: UNIT });

    let mid = initial_particle(750, 500, 0, 0, 0);
    assert_eq!(mid.pos, Vec2 { x: 500, y: 0 });
}

#[test]
fn destroy_is_idempotent() {
    let mut pipeline = ParticlePipeline::new(1, 2, WORK_GROUP_SIZE);
    assert!(!pipeline.destroyed());
    assert!(pipeline.destroy());
    assert!(pipeline.destroyed());
    assert!(!pipeline.destroy());
    assert!(pipeline.destroyed());
    assert!(!pipeline.destroy());
}

#[test]
fn buffer_size_of_demo_population() {
    assert_eq!(buffer_size(PARTICLE_COUNT), 32000);
    assert_eq!(buffer_size(0), 0);
    assert_eq!(buffer_size(1), 32);
}

#[test]
fn rand01_stays_in_unit_range() {
    for _ in 0..1000 {
        let r = rand01();
        assert!(0 <= r && r <= UNIT);
    }
}

#[test]
fn quit_events() {
    assert!(quits(&LoopEvent::Quit));
    assert!(quits(&LoopEvent::KeyDown(Key::Escape)));
    assert!(!quits(&LoopEvent::KeyDown(Key::Other)));
    assert!(!quits(&LoopEvent::Other));
}

#[test]
fn fps_counter_reports_once_a_second() {
    let mut c = FpsCounter::new();
    assert_eq!(c.frame(100), None);
    assert_eq!(c.frame(500), None);
    assert_eq!(c.frame(1000), None);
    assert_eq!(c.frame(1001), Some(4));
    assert_eq!(c.frames, 0);
    assert_eq!(c.last_tick, 1001);
    assert_eq!(c.frame(1500), None);
    assert_eq!(c.frame(2002), Some(2));
}

#[test]
fn frame_pacing() {
    assert_eq!(OPTIMAL_WAIT_TIME, 16);
    assert_eq!(wait_time(100, 100), 16);
    assert_eq!(wait_time(100, 105), 11);
    assert_eq!(wait_time(100, 116), 0);
    assert_eq!(wait_time(100, 200), 0);
}
