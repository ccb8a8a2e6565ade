use chaos_game::colour::ColourType;
use chaos_game::fixed::{wrap_degrees, DEG_FULL, FP_ONE};
use chaos_game::generator::FractalGenerator;
use chaos_game::rules::Rule;
use chaos_game::trig::sin_cos;
use chaos_game::types::{FractalSettings, Vec2, Vertex};

fn settings_with(sides: usize, rotation_offset: i64) -> FractalSettings {
    FractalSettings::new(sides, FP_ONE / 2, ColourType::White, rotation_offset, Rule::Default)
}

fn to_real(fp: i64) -> f64 {
    fp as f64 / FP_ONE as f64
}

#[test]
fn polygon_has_sides_vertices_on_unit_circle() {
    for sides in 3..16usize {
        let polygon = FractalGenerator::create_polygon(&settings_with(sides, 0));
        assert_eq!(polygon.len(), sides);
        for vertex in &polygon {
            let x = to_real(vertex.pos.x);
            let y = to_real(vertex.pos.y);
            let distance = (x * x + y * y).sqrt();
            assert!((distance - 1.0).abs() <= 1e-9, "distance {} off unit circle", distance);
        }
    }
}

#[test]
fn polygon_spacing_is_exactly_full_turn_over_sides() {
    for sides in 3..16usize {
        let rotation = 30 * FP_ONE;
        let polygon = FractalGenerator::create_polygon(&settings_with(sides, rotation));
        let delta = DEG_FULL / sides as i64;
        assert_eq!(polygon[0].angle, rotation);
        for i in 1..sides {
            assert_eq!(polygon[i].angle - polygon[i - 1].angle, delta);
        }
        assert!((to_real(delta) - 360.0 / sides as f64).abs() <= 1e-9);
    }
}

#[test]
fn polygon_vertices_carry_index_and_sides() {
    let polygon = FractalGenerator::create_polygon(&settings_with(5, 0));
    for (i, vertex) in polygon.iter().enumerate() {
        assert_eq!(vertex.index, i);
        assert_eq!(vertex.sides, 5);
    }
}

#[test]
fn triangle_points_up() {
    // With no rotation the first vertex of a triangle sits at the top of
    // the circle: angle zero maps to (sin 0, -cos 0) = (0, -1).
    let polygon = FractalGenerator::create_polygon(&settings_with(3, 0));
    assert_eq!(polygon[0].pos.x, 0);
    assert_eq!(polygon[0].pos.y, -FP_ONE);
}

#[test]
fn sin_cos_is_exact_at_quadrants() {
    assert_eq!(sin_cos(0), (0, FP_ONE));
    assert_eq!(sin_cos(90 * FP_ONE), (FP_ONE, 0));
    assert_eq!(sin_cos(180 * FP_ONE), (0, -FP_ONE));
    assert_eq!(sin_cos(270 * FP_ONE), (-FP_ONE, 0));
}

#[test]
fn sin_cos_tracks_the_real_functions() {
    for i in 0..3600 {
        let angle = (i as i64) * DEG_FULL / 3600;
        let (s, c) = sin_cos(angle);
        let radians = (to_real(angle)).to_radians();
        assert!((to_real(s) - radians.sin()).abs() <= 1e-9, "sin off at {}", i);
        assert!((to_real(c) - radians.cos()).abs() <= 1e-9, "cos off at {}", i);
    }
}

#[test]
fn wrap_degrees_reduces_into_one_turn() {
    assert_eq!(wrap_degrees(0), 0);
    assert_eq!(wrap_degrees(-90 * FP_ONE), 270 * FP_ONE);
    assert_eq!(wrap_degrees(720 * FP_ONE + 5), 5);
    assert_eq!(wrap_degrees(DEG_FULL), 0);
    assert_eq!(wrap_degrees(i64::MIN), (i64::MIN).rem_euclid(DEG_FULL));
}

#[test]
fn vertices_take_their_colour_from_their_angle() {
    let settings =
        FractalSettings::new(4, FP_ONE / 2, ColourType::Coloured, 0, Rule::Default);
    let polygon = FractalGenerator::create_polygon(&settings);
    // Angle 0 is red; half way round the wheel, at 180 degrees, is cyan.
    assert_eq!((polygon[0].colour.r, polygon[0].colour.g, polygon[0].colour.b), (255, 0, 0));
    assert_eq!((polygon[2].colour.r, polygon[2].colour.g, polygon[2].colour.b), (0, 255, 255));
}

#[test]
fn vertex_construction_wraps_the_angle_for_its_colour() {
    let settings =
        FractalSettings::new(3, FP_ONE / 2, ColourType::Coloured, 0, Rule::Default);
    let vertex = Vertex::new(1, Vec2::new(0, -FP_ONE), 360 * FP_ONE + 180 * FP_ONE, &settings);
    assert_eq!(vertex.index, 1);
    assert_eq!(vertex.sides, 3);
    assert_eq!(vertex.angle, 540 * FP_ONE);
    assert_eq!((vertex.colour.r, vertex.colour.g, vertex.colour.b), (0, 255, 255));
}
