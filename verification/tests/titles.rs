use seq_vis_rs::errors::VisError;
use seq_vis_rs::titles::{make_fallback_title, resolve_title, usize_to_dec};

#[test]
fn decimal_digits() {
    assert_eq!(usize_to_dec(0), "0");
    assert_eq!(usize_to_dec(7), "7");
    assert_eq!(usize_to_dec(10), "10");
    assert_eq!(usize_to_dec(409), "409");
    assert_eq!(usize_to_dec(100000), "100000");
}

#[test]
fn fallback_titles_are_one_based() {
    assert_eq!(make_fallback_title(0), "Dimension 1");
    assert_eq!(make_fallback_title(3), "Dimension 4");
    assert_eq!(make_fallback_title(11), "Dimension 12");
}

#[test]
fn titles_use_name_list_entries_exactly() {
    let names = Some(vec![
        String::from("pressure"),
        String::from("flow"),
        String::from("temperature"),
    ]);
    assert_eq!(resolve_title(&names, 0).unwrap(), "pressure");
    assert_eq!(resolve_title(&names, 1).unwrap(), "flow");
    assert_eq!(resolve_title(&names, 2).unwrap(), "temperature");
}

#[test]
fn titles_without_name_list_fall_back() {
    for i in 0..6usize {
        assert_eq!(
            resolve_title(&None, i).unwrap(),
            format!("Dimension {}", i + 1)
        );
    }
}

#[test]
fn short_name_list_is_an_error() {
    let names = Some(vec![String::from("a"), String::from("b")]);
    assert_eq!(resolve_title(&names, 2), Err(VisError::InvalidInputError));
    assert_eq!(resolve_title(&names, 1).unwrap(), "b");
}
