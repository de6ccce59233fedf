use planetoids::geom::dist_sq_exec;
use planetoids::geom::translate;
use planetoids::geom::project_to_ground;
use planetoids::geom::Vec3;
use planetoids::orbit::body_angle;
use planetoids::orbit::normalized_angle;
use planetoids::orbit::orbit_position;
use planetoids::picker::nearest_body;
use planetoids::picker::run_picker;
use planetoids::picker::update_cursor;
use planetoids::picker::BodyColor;
use planetoids::picker::CursorPos;
use planetoids::picker::PickRaySource;

#[test]
fn angle_is_speed_times_phase_minus_time() {
    // 200 milli-turns/s, phase 3 s, elapsed 1 s: 200 * (3000 - 1000)
    assert_eq!(body_angle(200, 3000, 1000), 400_000);
    assert_eq!(body_angle(200, 3000, 13000), -2_000_000);
    assert_eq!(body_angle(0, 9999, -5), 0);
}

#[test]
fn angle_is_periodic_over_one_orbit() {
    // At 200 milli-turns/s one revolution takes 5000 ms.
    let before = normalized_angle(body_angle(200, 3000, 1000));
    let after = normalized_angle(body_angle(200, 3000, 1000 + 5000));
    assert_eq!(before, after);
    // Several revolutions, starting from a negative angle.
    let b2 = normalized_angle(body_angle(250, 0, 777));
    let a2 = normalized_angle(body_angle(250, 0, 777 + 3 * 4000));
    assert_eq!(b2, a2);
}

#[test]
fn normalized_angle_exact_values() {
    assert_eq!(normalized_angle(0), 0);
    assert_eq!(normalized_angle(2_500_000), 500_000);
    assert_eq!(normalized_angle(-1), 999_999);
    assert_eq!(normalized_angle(-2_000_000), 0);
}

#[test]
fn position_at_angle_zero_is_radius_on_x_axis() {
    // At t == phase the angle is 0: scaled cosine 1000, scaled sine 0.
    assert_eq!(body_angle(321, 4567, 4567), 0);
    let v = orbit_position(133, 1000, 0);
    assert_eq!(v, Vec3 { x: 133_000, y: 0, z: 0 });
}

#[test]
fn position_scales_unit_vector_by_radius() {
    // Scaled trig values for a quarter turn: cos 0, sin 1.
    let v = orbit_position(70, 0, 1000);
    assert_eq!(v, Vec3 { x: 0, y: 0, z: 70_000 });
    let w = orbit_position(10, -1000, -1000);
    assert_eq!(w, Vec3 { x: -10_000, y: 0, z: -10_000 });
}

#[test]
fn squared_distance_is_exact() {
    let a = Vec3 { x: 3, y: 0, z: 4 };
    let o = Vec3 { x: 0, y: 0, z: 0 };
    assert_eq!(dist_sq_exec(a, o), 25);
    assert_eq!(dist_sq_exec(a, a), 0);
    let b = Vec3 { x: -3, y: 2, z: 4 };
    assert_eq!(dist_sq_exec(a, b), 40);
}

#[test]
fn moon_world_position_composes_with_its_parent() {
    let planet = Vec3 { x: 70_000, y: 0, z: 0 };
    let moon_rel = Vec3 { x: -21_000, y: 0, z: 5 };
    assert_eq!(translate(planet, moon_rel), Vec3 { x: 49_000, y: 0, z: 5 });
}

#[test]
fn projection_zeroes_the_vertical_component() {
    let p = project_to_ground(Vec3 { x: 7, y: 55, z: -9 });
    assert_eq!(p, Vec3 { x: 7, y: 0, z: -9 });
}

#[test]
fn nearest_body_minimizes_distance() {
    let positions = vec![
        Vec3 { x: 100, y: 0, z: 0 },
        Vec3 { x: 10, y: 0, z: 5 },
        Vec3 { x: -50, y: 0, z: 50 },
    ];
    let r = nearest_body(&positions, Vec3 { x: 8, y: 0, z: 5 });
    assert_eq!(r, Some(1));
}

#[test]
fn nearest_body_breaks_ties_toward_lowest_index() {
    let positions = vec![
        Vec3 { x: 0, y: 0, z: 30 },
        Vec3 { x: 20, y: 0, z: 0 },
        Vec3 { x: -20, y: 0, z: 0 },
    ];
    let r = nearest_body(&positions, Vec3 { x: 0, y: 0, z: 0 });
    assert_eq!(r, Some(1));
}

#[test]
fn nearest_body_of_nothing_is_none() {
    let positions: Vec<Vec3> = Vec::new();
    assert_eq!(nearest_body(&positions, Vec3 { x: 0, y: 0, z: 0 }), None);
}

#[test]
fn picker_selects_closest_and_resets_the_rest() {
    let positions = vec![
        Vec3 { x: 100, y: 0, z: 100 },
        Vec3 { x: 2, y: 0, z: 1 },
        Vec3 { x: 40, y: 0, z: -40 },
        Vec3 { x: 2, y: 0, z: 2 },
    ];
    // The hit arrives off the ground plane; its height must be ignored.
    let (picked, colors) = run_picker(&positions, Vec3 { x: 0, y: 77, z: 0 });
    assert_eq!(picked, Some(1));
    assert_eq!(colors.len(), 4);
    for (i, c) in colors.iter().enumerate() {
        if i == 1 {
            assert_eq!(*c, BodyColor::Selected);
        } else {
            assert_eq!(*c, BodyColor::Unselected);
        }
    }
}

#[test]
fn picker_with_no_bodies_selects_nothing() {
    let positions: Vec<Vec3> = Vec::new();
    let (picked, colors) = run_picker(&positions, Vec3 { x: 1, y: 2, z: 3 });
    assert_eq!(picked, None);
    assert_eq!(colors.len(), 0);
}

#[test]
fn cursor_source_takes_the_latest_event() {
    let mut src = PickRaySource { cursor: None };
    let events = vec![
        CursorPos { x: 1, y: 1 },
        CursorPos { x: 2, y: 2 },
        CursorPos { x: 9, y: 4 },
    ];
    update_cursor(&mut src, &events);
    assert_eq!(src.cursor, Some(CursorPos { x: 9, y: 4 }));
    let none: Vec<CursorPos> = Vec::new();
    update_cursor(&mut src, &none);
    assert_eq!(src.cursor, Some(CursorPos { x: 9, y: 4 }));
}
