use animation::model::{after_mount, update, Effects, Model, Msg};
use animation::scene::{point, view, Color, Point, POINTS};
use animation::session::Session;

fn x_of(p: &Point) -> f64 {
    p.x_thirds as f64 / 3.0
}

fn y_of(p: &Point) -> f64 {
    let pos = p.pos_sixtieths as f64 / 60.0;
    15.0 + (pos * 6.0).sin() * 50.0 + 70.0
}

#[test]
fn default_model_starts_at_zero() {
    let m = Model::default();
    assert_eq!(m.count, 0);
}

#[test]
fn tick_adds_one() {
    let mut m = Model { count: 41 };
    let e = update(Msg::Tick, &mut m);
    assert_eq!(m.count, 42);
    assert!(e.arm_timer);
    assert!(e.render);
    assert!(e.log.is_none());
}

#[test]
fn tick_below_top_adds_one() {
    let mut m = Model { count: usize::MAX - 1 };
    update(Msg::Tick, &mut m);
    assert_eq!(m.count, usize::MAX);
}

#[test]
fn tick_at_top_wraps_to_zero() {
    let mut m = Model { count: usize::MAX };
    let e = update(Msg::Tick, &mut m);
    assert_eq!(m.count, 0);
    assert!(e.arm_timer);
}

#[test]
fn error_keeps_count_and_logs() {
    let mut m = Model { count: 7 };
    let e = update(Msg::Error(String::from("timer failed")), &mut m);
    assert_eq!(m.count, 7);
    assert!(e.arm_timer);
    assert!(e.render);
    assert_eq!(e.log, Some(String::from("timer failed")));
}

#[test]
fn mount_arms_first_timer() {
    let (m, e): (Model, Effects) = after_mount();
    assert_eq!(m.count, 0);
    assert!(e.arm_timer);
    assert!(e.render);
    assert!(e.log.is_none());
}

#[test]
fn view_has_six_points_by_formula() {
    for count in [0usize, 3, 9, 10, 57, 1234, usize::MAX] {
        let s = view(&Model { count });
        assert_eq!(s.points.len(), POINTS);
        assert_eq!(s.count, count);
        for (i, p) in s.points.iter().enumerate() {
            assert_eq!(p.key, 6 - i + count / 10);
            assert_eq!(p.pos_sixtieths, 10 * i + count % 10);
            let pos = i as f64 / 6.0 + (count % 10) as f64 / 10.0 / 6.0;
            assert!((x_of(p) - (15.0 + pos * 640.0)).abs() < 1e-9);
            assert!((y_of(p) - (15.0 + (pos * 6.0).sin() * 50.0 + 70.0)).abs() < 1e-9);
        }
    }
}

#[test]
fn color_boundary_at_four_and_five() {
    assert_eq!(view(&Model { count: 0 }).color, Color::Gray);
    assert_eq!(view(&Model { count: 4 }).color, Color::Gray);
    assert_eq!(view(&Model { count: 5 }).color, Color::Purple);
    assert_eq!(view(&Model { count: usize::MAX }).color, Color::Purple);
}

#[test]
fn example_count_zero_point_zero() {
    let s = view(&Model { count: 0 });
    let p = s.points[0];
    assert_eq!(p.key, 6);
    assert_eq!(p.pos_sixtieths, 0);
    assert_eq!(p.x_thirds, 45);
    assert_eq!(x_of(&p), 15.0);
    assert_eq!(y_of(&p), 85.0);
}

#[test]
fn example_count_ten_point_zero() {
    let s = view(&Model { count: 10 });
    let p = s.points[0];
    assert_eq!(p.key, 7);
    assert_eq!(p.pos_sixtieths, 0);
    assert_eq!(x_of(&p), 15.0);
    assert_eq!(y_of(&p), 85.0);
}

#[test]
fn last_point_coordinates() {
    let s = view(&Model { count: 7 });
    let p = s.points[5];
    assert_eq!(p.key, 1);
    assert_eq!(p.pos_sixtieths, 57);
    assert_eq!(p.x_thirds, 1869);
    assert_eq!(x_of(&p), 623.0);
}

#[test]
fn point_builds_from_key_and_pos() {
    let p = point(3, 12);
    assert_eq!(p, Point { key: 3, pos_sixtieths: 12, x_thirds: 45 + 32 * 12 });
}

#[test]
fn session_one_arm_per_tick() {
    let (mut session, first) = Session::mount();
    assert!(first.arm_timer);
    let mut armed = 1usize;
    let mut rendered = 1usize;
    let n = 25usize;
    for _ in 0..n {
        let e = session.handle(Msg::Tick);
        if e.arm_timer {
            armed += 1;
        }
        if e.render {
            rendered += 1;
        }
        assert!(e.log.is_none());
    }
    assert_eq!(armed, n + 1);
    assert_eq!(rendered, n + 1);
    assert_eq!(session.model().count, n);
}

#[test]
fn session_error_keeps_count() {
    let (mut session, _) = Session::mount();
    session.handle(Msg::Tick);
    let e = session.handle(Msg::Error(String::from("late")));
    assert_eq!(session.model().count, 1);
    assert!(e.arm_timer);
    assert_eq!(e.log, Some(String::from("late")));
}
