use vstd::prelude::*;
use crate::errors::VisError;

verus! {

/// The decimal digit character for a value below ten.
pub open spec fn digit_char(d: int) -> char {
    if d == 0 {
        '0'
    } else if d == 1 {
        '1'
    } else if d == 2 {
        '2'
    } else if d == 3 {
        '3'
    } else if d == 4 {
        '4'
    } else if d == 5 {
        '5'
    } else if d == 6 {
        '6'
    } else if d == 7 {
        '7'
    } else if d == 8 {
        '8'
    } else {
        '9'
    }
}

/// The decimal representation of `n`, most significant digit first, with
/// no sign and no leading zero (a single zero digit for `n == 0`).
pub open spec fn dec_rep(n: nat) -> Seq<char>
    decreases n,
{
    if n < 10 {
        seq![digit_char(n as int)]
    } else {
        dec_rep(n / 10).push(digit_char((n % 10) as int))
    }
}

/// One decimal digit as a string slice.
fn digit_str(d: usize) -> (r: &'static str)
    requires
        d < 10,
    ensures
        r@ == seq![digit_char(d as int)],
{
    proof {
        reveal_strlit("0");
        reveal_strlit("1");
        reveal_strlit("2");
        reveal_strlit("3");
        reveal_strlit("4");
        reveal_strlit("5");
        reveal_strlit("6");
        reveal_strlit("7");
        reveal_strlit("8");
        reveal_strlit("9");
    }
    let r: &'static str = match d {
        0 => "0",
        1 => "1",
        2 => "2",
        3 => "3",
        4 => "4",
        5 => "5",
        6 => "6",
        7 => "7",
        8 => "8",
        _ => "9",
    };
    proof {
        assert(r@ =~= seq![digit_char(d as int)]);
    }
    r
}

/// Format `n` in decimal.
pub fn usize_to_dec(n: usize) -> (s: String)
    ensures
        s@ == dec_rep(n as nat),
    decreases n,
{
    if n < 10 {
        String::from_str(digit_str(n))
    } else {
        let mut s = usize_to_dec(n / 10);
        s.append(digit_str(n % 10));
        proof {
            assert(s@ =~= dec_rep(n as nat));
        }
        s
    }
}

/// The fallback title of the tile at 0-based channel index `i`: the word
/// "Dimension" followed by the 1-based channel number.
pub open spec fn fallback_title(i: int) -> Seq<char> {
    "Dimension "@ + dec_rep((i + 1) as nat)
}

/// Build the numbered fallback title for channel index `i`.
pub fn make_fallback_title(i: usize) -> (s: String)
    requires
        i < usize::MAX,
    ensures
        s@ == fallback_title(i as int),
{
    let mut s = String::from_str("Dimension ");
    let num = usize_to_dec(i + 1);
    s.append(num.as_str());
    proof {
        assert(s@ =~= fallback_title(i as int));
    }
    s
}

/// The title owed to the tile of channel `i`: entry `i` of the name list
/// when a list is present — a list too short to hold entry `i` is an
/// error — and the numbered fallback when no list was found.
pub fn resolve_title(names: &Option<Vec<String>>, i: usize) -> (r: Result<String, VisError>)
    requires
        i < usize::MAX,
    ensures
        match *names {
            Some(ns) => {
                &&& i < ns@.len() ==> (r matches Ok(t) && t@ == ns@[i as int]@)
                &&& i >= ns@.len() ==> r == Err::<String, VisError>(VisError::InvalidInputError)
            },
            None => r matches Ok(t) && t@ == fallback_title(i as int),
        },
{
    match names {
        Some(ns) => {
            if i < ns.len() {
                Ok(ns[i].clone())
            } else {
                Err(VisError::InvalidInputError)
            }
        },
        None => Ok(make_fallback_title(i)),
    }
}

} // verus!
