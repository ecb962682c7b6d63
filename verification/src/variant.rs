use vstd::prelude::*;

verus! {

/// The rendering variant: `Test` reads the plain file names and draws on
/// a high-resolution canvas, `Train` reads the `_train` suffixed names
/// and draws on a smaller one.
#[derive(Clone, Copy, Debug, PartialEq, Eq, Structural)]
pub enum Variant {
    Test,
    Train,
}

/// Whether two string slices hold the same characters.
pub fn str_eq(a: &str, b: &str) -> (r: bool)
    ensures
        r == (a@ == b@),
{
    let sa = String::from_str(a);
    let sb = String::from_str(b);
    sa.eq(&sb)
}

impl Variant {
    /// Read a user-entered variant tag: exactly "test" and "train" are
    /// accepted.
    pub fn parse(s: &str) -> (r: Option<Variant>)
        ensures
            s@ == "test"@ ==> r == Some(Variant::Test),
            s@ == "train"@ ==> r == Some(Variant::Train),
            (s@ != "test"@ && s@ != "train"@) ==> r is None,
    {
        proof {
            reveal_strlit("test");
            reveal_strlit("train");
            assert("test"@.len() == 4);
            assert("train"@.len() == 5);
            assert("test"@ != "train"@);
        }
        if str_eq(s, "test") {
            Some(Variant::Test)
        } else if str_eq(s, "train") {
            Some(Variant::Train)
        } else {
            None
        }
    }

    /// The file name of the ground-truth array for this variant.
    pub fn true_file(&self) -> (r: &'static str)
        ensures
            *self is Test ==> r@ == "true.npy"@,
            *self is Train ==> r@ == "true_train.npy"@,
    {
        match self {
            Variant::Test => "true.npy",
            Variant::Train => "true_train.npy",
        }
    }

    /// The file name of the predicted array for this variant.
    pub fn pred_file(&self) -> (r: &'static str)
        ensures
            *self is Test ==> r@ == "pred.npy"@,
            *self is Train ==> r@ == "pred_train.npy"@,
    {
        match self {
            Variant::Test => "pred.npy",
            Variant::Train => "pred_train.npy",
        }
    }

    /// The file name of the composite image this variant writes.
    pub fn output_file(&self) -> (r: &'static str)
        ensures
            *self is Test ==> r@ == "true_pred_all.png"@,
            *self is Train ==> r@ == "true_pred_all_train.png"@,
    {
        match self {
            Variant::Test => "true_pred_all.png",
            Variant::Train => "true_pred_all_train.png",
        }
    }

    /// The canvas resolution of this variant, in pixels.
    pub fn canvas_size(&self) -> (r: (u32, u32))
        ensures
            *self is Test ==> r == (3840u32, 2160u32),
            *self is Train ==> r == (1920u32, 1080u32),
    {
        match self {
            Variant::Test => (3840, 2160),
            Variant::Train => (1920, 1080),
        }
    }
}

/// What the interactive loop does after one successful visualization.
#[derive(Clone, Copy, Debug, PartialEq, Eq, Structural)]
pub enum NextAction {
    /// Ask for a variant and a directory again.
    Continue,
    /// End the loop normally.
    Exit,
    /// An unknown keyword: end the loop with a complaint.
    Invalid,
}

/// Read the next-action keyword: `continue` and `reset` both start
/// another round, `exit` ends the loop, and any other keyword is invalid.
pub fn parse_action(s: &str) -> (r: NextAction)
    ensures
        (s@ == "continue"@ || s@ == "reset"@) ==> r == NextAction::Continue,
        s@ == "exit"@ ==> r == NextAction::Exit,
        (s@ != "continue"@ && s@ != "reset"@ && s@ != "exit"@) ==> r == NextAction::Invalid,
{
    proof {
        reveal_strlit("continue");
        reveal_strlit("reset");
        reveal_strlit("exit");
        assert("continue"@.len() == 8);
        assert("reset"@.len() == 5);
        assert("exit"@.len() == 4);
    }
    if str_eq(s, "continue") || str_eq(s, "reset") {
        NextAction::Continue
    } else if str_eq(s, "exit") {
        NextAction::Exit
    } else {
        NextAction::Invalid
    }
}

/// The file name of the optional channel-name list, shared by both
/// variants.
pub fn name_list_file() -> (r: &'static str)
    ensures
        r@ == "name_list.txt"@,
{
    "name_list.txt"
}

} // verus!
