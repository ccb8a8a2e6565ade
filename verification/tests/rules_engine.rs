use chaos_game::colour::{ColourType, Rgb};
use chaos_game::fixed::FP_ONE;
use chaos_game::generator::FractalGenerator;
use chaos_game::picker::{SeededPicker, VertexPicker};
use chaos_game::rules::{evaluate, get_rule_by_name, Rule};
use chaos_game::types::{FractalSettings, Vec2, Vertex};
use std::collections::VecDeque;

fn vertex(index: usize, sides: usize) -> Vertex {
    Vertex {
        index,
        pos: Vec2::new(0, 0),
        angle: 0,
        sides,
        colour: Rgb { r: 255, g: 255, b: 255 },
    }
}

fn window(indices: &[usize], sides: usize) -> VecDeque<Vertex> {
    indices.iter().map(|&i| vertex(i, sides)).collect()
}

#[test]
fn default_rule_accepts_everything() {
    for sides in 1..8usize {
        for candidate in 0..sides {
            for history in [vec![], vec![0], vec![1, 1], vec![candidate, candidate]] {
                let h = window(&history, sides);
                assert!(evaluate(Rule::Default, &h, &vertex(candidate, sides)));
            }
        }
    }
}

#[test]
fn no_repeats_rejects_only_the_previous_vertex() {
    let h = window(&[2], 5);
    assert!(!evaluate(Rule::NoRepeats, &h, &vertex(2, 5)));
    assert!(evaluate(Rule::NoRepeats, &h, &vertex(3, 5)));
    assert!(evaluate(Rule::NoRepeats, &window(&[], 5), &vertex(2, 5)));
}

#[test]
fn no_repeats_run_has_no_consecutive_repeats() {
    // Simulate the generation loop's vertex selection with a history
    // window of capacity one and check the accepted sequence.
    let settings = FractalSettings::new(4, FP_ONE / 2, ColourType::White, 0, Rule::NoRepeats);
    let generator = FractalGenerator::new(settings, 8, 1000, FP_ONE as u64).unwrap();
    let mut picker = SeededPicker::new(99);
    let mut history: VecDeque<Vertex> = VecDeque::new();
    let mut previous: Option<usize> = None;
    for _ in 0..1000 {
        let accepted = generator.select_vertex(&mut picker, &history).unwrap();
        if let Some(p) = previous {
            assert_ne!(accepted.index, p);
        }
        if history.len() == 1 {
            history.pop_back();
        }
        history.push_front(accepted);
        previous = Some(accepted.index);
    }
}

#[test]
fn star_rule_on_pentagon_blocks_neighbours_after_a_double() {
    let h = window(&[2, 2], 5);
    assert!(!evaluate(Rule::Star, &h, &vertex(1, 5)));
    assert!(!evaluate(Rule::Star, &h, &vertex(3, 5)));
    assert!(evaluate(Rule::Star, &h, &vertex(0, 5)));
    assert!(evaluate(Rule::Star, &h, &vertex(2, 5)));
    assert!(evaluate(Rule::Star, &h, &vertex(4, 5)));
}

#[test]
fn star_rule_accepts_everything_without_a_double() {
    let h = window(&[2, 3], 5);
    for candidate in 0..5 {
        assert!(evaluate(Rule::Star, &h, &vertex(candidate, 5)));
    }
    let short = window(&[2], 5);
    for candidate in 0..5 {
        assert!(evaluate(Rule::Star, &short, &vertex(candidate, 5)));
    }
}

#[test]
fn star_rule_wraps_around_the_polygon() {
    let h = window(&[0, 0], 5);
    assert!(!evaluate(Rule::Star, &h, &vertex(1, 5)));
    assert!(!evaluate(Rule::Star, &h, &vertex(4, 5)));
    assert!(evaluate(Rule::Star, &h, &vertex(0, 5)));
}

#[test]
fn rules_resolve_by_name() {
    assert_eq!(get_rule_by_name("default"), Some(Rule::Default));
    assert_eq!(get_rule_by_name("no-repeats"), Some(Rule::NoRepeats));
    assert_eq!(get_rule_by_name("star"), Some(Rule::Star));
    assert_eq!(get_rule_by_name("no_such_rule"), None);
}

#[test]
fn rules_declare_their_history_length() {
    assert_eq!(Rule::Default.history_length(), 0);
    assert_eq!(Rule::NoRepeats.history_length(), 1);
    assert_eq!(Rule::Star.history_length(), 2);
}

#[test]
fn seeded_picker_stays_below_the_bound() {
    let mut picker = SeededPicker::new(1234);
    for bound in 1..20usize {
        for _ in 0..50 {
            assert!(picker.pick(bound) < bound);
        }
    }
}
