//! Building the canvas font strings the renderer hands to the 2D context,
//! e.g. "bold 2rem Times": an optional weight, a size with its unit, and a
//! family, with defaults for everything.

use crate::models::GameStatus;
use vstd::prelude::*;
use vstd::string::StringExecFns;

verus! {

/// The overlay title each round status shows; a running game shows no
/// overlay, so everything else falls back to the game's name.
pub open spec fn status_title_spec(status: GameStatus) -> Seq<char> {
    match status {
        GameStatus::Paused => "PAUSED"@,
        GameStatus::Win => "WIN"@,
        GameStatus::Fail => "FAIL"@,
        _ => "SNAKE 3D"@,
    }
}

/// The title the status overlay shows.
pub fn get_status_title(status: GameStatus) -> (r: &'static str)
    ensures
        r@ == status_title_spec(status),
{
    match status {
        GameStatus::Paused => "PAUSED",
        GameStatus::Win => "WIN",
        GameStatus::Fail => "FAIL",
        _ => "SNAKE 3D",
    }
}

/// The decimal digit character for a value below ten.
pub open spec fn dec_digit_char(d: int) -> char {
    if d == 0 {
        '0'
    } else if d == 1 {
        '1'
    } else if d == 2 {
        '2'
    } else if d == 3 {
        '3'
    } else if d == 4 {
        '4'
    } else if d == 5 {
        '5'
    } else if d == 6 {
        '6'
    } else if d == 7 {
        '7'
    } else if d == 8 {
        '8'
    } else {
        '9'
    }
}

/// The decimal digits of `n`, most significant first.
pub open spec fn dec_seq(n: nat) -> Seq<char>
    decreases n,
{
    if n < 10 {
        seq![dec_digit_char(n as int)]
    } else {
        dec_seq(n / 10).push(dec_digit_char((n % 10) as int))
    }
}

/// One decimal digit as a string slice.
fn digit_str(d: u32) -> (r: &'static str)
    requires
        d < 10,
    ensures
        r@ =~= seq![dec_digit_char(d as int)],
{
    proof {
        reveal_strlit("0");
        reveal_strlit("1");
        reveal_strlit("2");
        reveal_strlit("3");
        reveal_strlit("4");
        reveal_strlit("5");
        reveal_strlit("6");
        reveal_strlit("7");
        reveal_strlit("8");
        reveal_strlit("9");
    }
    match d {
        0 => "0",
        1 => "1",
        2 => "2",
        3 => "3",
        4 => "4",
        5 => "5",
        6 => "6",
        7 => "7",
        8 => "8",
        _ => "9",
    }
}

/// Appends the decimal digits of `n` to `out`.
fn push_decimal(n: u32, out: &mut String)
    ensures
        final(out)@ == old(out)@ + dec_seq(n as nat),
    decreases n,
{
    if n >= 10 {
        push_decimal(n / 10, out);
    }
    out.append(digit_str(n % 10));
    proof {
        assert(final(out)@ =~= old(out)@ + dec_seq(n as nat));
    }
}

/// The font string for the given parts: the weight (with a trailing space)
/// when given, the size in decimal (8 by default), its unit ("px" by
/// default), a space, and the family ("Arial" by default).
pub open spec fn font_string_spec(
    size: Option<u32>,
    family: Option<Seq<char>>,
    unit: Option<Seq<char>>,
    weight: Option<Seq<char>>,
) -> Seq<char> {
    let weight_part = match weight {
        Some(w) => w + " "@,
        None => Seq::<char>::empty(),
    };
    let size_part = dec_seq(
        (match size {
            Some(v) => v,
            None => 8u32,
        }) as nat,
    );
    let unit_part = match unit {
        Some(u) => u,
        None => "px"@,
    };
    let family_part = match family {
        Some(f) => f,
        None => "Arial"@,
    };
    weight_part + size_part + unit_part + " "@ + family_part
}

/// Maps an `Option<&str>` to the view of its content.
pub open spec fn opt_str_view(o: Option<&str>) -> Option<Seq<char>> {
    match o {
        Some(s) => Some(s@),
        None => None,
    }
}

/// Builds the font string a 2D canvas context expects, such as
/// "bold 2rem Times"; every part falls back to a default ("8", "px",
/// "Arial", and no weight).
pub fn get_canvas_font_string(
    size: Option<u32>,
    family: Option<&str>,
    unit: Option<&str>,
    weight: Option<&str>,
) -> (r: String)
    ensures
        r@ == font_string_spec(
            size,
            opt_str_view(family),
            opt_str_view(unit),
            opt_str_view(weight),
        ),
{
    let mut s = String::new();

    match weight {
        Some(w) => {
            s.append(w);
            s.append(" ");
        },
        None => {},
    }

    let size_value: u32 = match size {
        Some(v) => v,
        None => 8,
    };
    push_decimal(size_value, &mut s);

    match unit {
        Some(u) => s.append(u),
        None => s.append("px"),
    }

    s.append(" ");

    match family {
        Some(f) => s.append(f),
        None => s.append("Arial"),
    }

    proof {
        assert(s@ =~= font_string_spec(
            size,
            opt_str_view(family),
            opt_str_view(unit),
            opt_str_view(weight),
        ));
    }
    s
}

} // verus!
