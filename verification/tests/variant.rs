use seq_vis_rs::errors::VisError;
use seq_vis_rs::variant::{name_list_file, parse_action, str_eq, NextAction, Variant};

#[test]
fn variant_tags_parse_exactly() {
    assert_eq!(Variant::parse("test"), Some(Variant::Test));
    assert_eq!(Variant::parse("train"), Some(Variant::Train));
    assert_eq!(Variant::parse("Test"), None);
    assert_eq!(Variant::parse(""), None);
    assert_eq!(Variant::parse("validate"), None);
}

#[test]
fn variant_file_names() {
    assert_eq!(Variant::Test.true_file(), "true.npy");
    assert_eq!(Variant::Test.pred_file(), "pred.npy");
    assert_eq!(Variant::Test.output_file(), "true_pred_all.png");
    assert_eq!(Variant::Train.true_file(), "true_train.npy");
    assert_eq!(Variant::Train.pred_file(), "pred_train.npy");
    assert_eq!(Variant::Train.output_file(), "true_pred_all_train.png");
    assert_eq!(name_list_file(), "name_list.txt");
}

#[test]
fn variant_canvas_sizes() {
    assert_eq!(Variant::Test.canvas_size(), (3840, 2160));
    assert_eq!(Variant::Train.canvas_size(), (1920, 1080));
}

#[test]
fn action_keywords() {
    assert_eq!(parse_action("continue"), NextAction::Continue);
    assert_eq!(parse_action("reset"), NextAction::Continue);
    assert_eq!(parse_action("exit"), NextAction::Exit);
    assert_eq!(parse_action("quit"), NextAction::Invalid);
    assert_eq!(parse_action(""), NextAction::Invalid);
}

#[test]
fn string_comparison() {
    assert!(str_eq("abc", "abc"));
    assert!(!str_eq("abc", "abd"));
    assert!(!str_eq("abc", "ab"));
    assert!(str_eq("", ""));
}

#[test]
fn error_messages_name_their_kind() {
    assert_eq!(
        VisError::IOError.message(),
        "file missing, unreadable, or not writable"
    );
    assert_eq!(
        VisError::DecodeError.message(),
        "file is not a valid array encoding"
    );
    assert_eq!(
        VisError::InvalidInputError.message(),
        "input outside the accepted domain"
    );
    assert_eq!(VisError::RenderError.message(), "drawing backend fault");
}
