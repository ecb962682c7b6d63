use seq_vis_rs::errors::VisError;
use seq_vis_rs::font::{font_preferences, pick_first_available, resolve_font};
use seq_vis_rs::sample::select_sample;
use seq_vis_rs::shape::{validate_shapes, Shape3};

#[test]
fn sample_from_empty_batch_is_rejected() {
    assert_eq!(select_sample(0), Err(VisError::InvalidInputError));
}

#[test]
fn sample_is_always_in_range() {
    assert_eq!(select_sample(1).unwrap(), 0);
    for _ in 0..200 {
        assert!(select_sample(5).unwrap() < 5);
    }
}

#[test]
fn repeated_draws_share_no_state() {
    // two interleaved streams of draws stay in range regardless of what
    // was drawn before
    for n in [1usize, 2, 3, 17] {
        for _ in 0..20 {
            assert!(select_sample(n).unwrap() < n);
            assert!(select_sample(97).unwrap() < 97);
        }
    }
}

#[test]
fn shapes_must_match_exactly() {
    let a = Shape3 { n: 5, t: 10, c: 4 };
    let b = Shape3 { n: 5, t: 10, c: 3 };
    assert_eq!(validate_shapes(a, a), Ok(()));
    assert_eq!(validate_shapes(a, b), Err(VisError::InvalidInputError));
    let empty = Shape3 { n: 0, t: 10, c: 4 };
    assert_eq!(validate_shapes(empty, empty), Err(VisError::InvalidInputError));
}

#[test]
fn first_available_font_wins() {
    assert_eq!(pick_first_available(&vec![false, true, true]), Some(1));
    assert_eq!(pick_first_available(&vec![true, false, false]), Some(0));
    assert_eq!(pick_first_available(&vec![false, false]), None);
    assert_eq!(pick_first_available(&vec![]), None);
}

#[test]
fn resolved_font_is_preferred_or_generic() {
    let prefs = font_preferences();
    let chosen = resolve_font();
    assert!(prefs.iter().any(|p| *p == chosen.as_str()) || chosen == "sans-serif");
}
