//! In-game icon colors.  The service numbers its colors with opaque
//! indices; known indices are kept as their RGB triples, others as
//! the bare index.

use vstd::prelude::*;

use crate::codec::{has_no_sep, lemma_split_head, lemma_split_no_sep, split_spec, split_text, str_views};
use crate::text::{
    dec_str, is_digit, lemma_dec_str_no_char, lemma_parse_dec_str_u64, parse_u8, parse_u8_spec,
    push_char, str_to_chars, u64_to_string,
};

verus! {

/// An in-game icon color: an RGB triple for an index this crate
/// knows, the bare index otherwise.
#[derive(Debug, PartialEq, Eq, Structural, Hash, Copy, Clone)]
pub enum Color {
    /// A color whose service index is known, as red, green and blue.
    Known(u8, u8, u8),
    /// The index of a color this crate does not know.
    Unknown(u8),
}

/// The color a service index denotes.
pub open spec fn color_from_index_spec(v: u8) -> Color {
    if v == 0 {
        Color::Known(125, 255, 0)
    } else if v == 1 {
        Color::Known(0, 255, 0)
    } else if v == 2 {
        Color::Known(0, 255, 125)
    } else if v == 3 {
        Color::Known(0, 255, 255)
    } else if v == 16 {
        Color::Known(0, 200, 255)
    } else if v == 4 {
        Color::Known(0, 125, 255)
    } else if v == 5 {
        Color::Known(0, 0, 255)
    } else if v == 6 {
        Color::Known(125, 0, 255)
    } else if v == 13 {
        Color::Known(185, 0, 255)
    } else if v == 7 {
        Color::Known(255, 0, 255)
    } else if v == 8 {
        Color::Known(255, 0, 125)
    } else if v == 9 {
        Color::Known(255, 0, 0)
    } else if v == 29 {
        Color::Known(255, 75, 0)
    } else if v == 10 {
        Color::Known(255, 125, 0)
    } else if v == 14 {
        Color::Known(255, 185, 0)
    } else if v == 11 {
        Color::Known(255, 255, 0)
    } else if v == 12 {
        Color::Known(255, 255, 255)
    } else if v == 17 {
        Color::Known(175, 175, 175)
    } else if v == 18 {
        Color::Known(80, 80, 80)
    } else if v == 15 {
        Color::Known(0, 0, 0)
    } else if v == 27 {
        Color::Known(125, 125, 0)
    } else if v == 32 {
        Color::Known(100, 150, 0)
    } else if v == 28 {
        Color::Known(75, 175, 0)
    } else if v == 38 {
        Color::Known(0, 150, 0)
    } else if v == 20 {
        Color::Known(0, 175, 75)
    } else if v == 33 {
        Color::Known(0, 150, 100)
    } else if v == 21 {
        Color::Known(0, 125, 125)
    } else if v == 34 {
        Color::Known(0, 100, 150)
    } else if v == 22 {
        Color::Known(0, 75, 175)
    } else if v == 39 {
        Color::Known(0, 0, 150)
    } else if v == 23 {
        Color::Known(75, 0, 175)
    } else if v == 35 {
        Color::Known(100, 0, 150)
    } else if v == 24 {
        Color::Known(125, 0, 125)
    } else if v == 36 {
        Color::Known(150, 0, 100)
    } else if v == 25 {
        Color::Known(175, 0, 75)
    } else if v == 37 {
        Color::Known(150, 0, 0)
    } else if v == 30 {
        Color::Known(150, 50, 0)
    } else if v == 26 {
        Color::Known(175, 75, 0)
    } else if v == 31 {
        Color::Known(150, 100, 0)
    } else if v == 19 {
        Color::Known(255, 255, 125)
    } else if v == 40 {
        Color::Known(125, 255, 175)
    } else if v == 41 {
        Color::Known(125, 125, 255)
    } else {
        Color::Unknown(v)
    }
}

/// The RGB components of a known service index, used by
/// [`color_index_spec`].
pub open spec fn known_rgb_index_spec(r: u8, g: u8, b: u8) -> u8 {
    if r == 125 && g == 255 && b == 0 {
        0
    } else if r == 0 && g == 255 && b == 0 {
        1
    } else if r == 0 && g == 255 && b == 125 {
        2
    } else if r == 0 && g == 255 && b == 255 {
        3
    } else if r == 0 && g == 200 && b == 255 {
        16
    } else if r == 0 && g == 125 && b == 255 {
        4
    } else if r == 0 && g == 0 && b == 255 {
        5
    } else if r == 125 && g == 0 && b == 255 {
        6
    } else if r == 185 && g == 0 && b == 255 {
        13
    } else if r == 255 && g == 0 && b == 255 {
        7
    } else if r == 255 && g == 0 && b == 125 {
        8
    } else if r == 255 && g == 0 && b == 0 {
        9
    } else if r == 255 && g == 75 && b == 0 {
        29
    } else if r == 255 && g == 125 && b == 0 {
        10
    } else if r == 255 && g == 185 && b == 0 {
        14
    } else if r == 255 && g == 255 && b == 0 {
        11
    } else if r == 255 && g == 255 && b == 255 {
        12
    } else if r == 175 && g == 175 && b == 175 {
        17
    } else if r == 80 && g == 80 && b == 80 {
        18
    } else if r == 0 && g == 0 && b == 0 {
        15
    } else if r == 125 && g == 125 && b == 0 {
        27
    } else if r == 100 && g == 150 && b == 0 {
        32
    } else if r == 75 && g == 175 && b == 0 {
        28
    } else if r == 0 && g == 150 && b == 0 {
        38
    } else if r == 0 && g == 175 && b == 75 {
        20
    } else if r == 0 && g == 150 && b == 100 {
        33
    } else if r == 0 && g == 125 && b == 125 {
        21
    } else if r == 0 && g == 100 && b == 150 {
        34
    } else if r == 0 && g == 75 && b == 175 {
        22
    } else if r == 0 && g == 0 && b == 150 {
        39
    } else if r == 75 && g == 0 && b == 175 {
        23
    } else if r == 100 && g == 0 && b == 150 {
        35
    } else if r == 125 && g == 0 && b == 125 {
        24
    } else if r == 150 && g == 0 && b == 100 {
        36
    } else if r == 175 && g == 0 && b == 75 {
        25
    } else if r == 150 && g == 0 && b == 0 {
        37
    } else if r == 150 && g == 50 && b == 0 {
        30
    } else if r == 175 && g == 75 && b == 0 {
        26
    } else if r == 150 && g == 100 && b == 0 {
        31
    } else if r == 255 && g == 255 && b == 125 {
        19
    } else if r == 125 && g == 255 && b == 175 {
        40
    } else if r == 125 && g == 125 && b == 255 {
        41
    } else {
        0
    }
}

/// The service index of a color: the known index for a recognized
/// triple, the stored index for an unknown color, and zero for a
/// triple the service has no index for.
pub open spec fn color_index_spec(c: Color) -> u8 {
    match c {
        Color::Known(r, g, b) => known_rgb_index_spec(r, g, b),
        Color::Unknown(v) => v,
    }
}

impl Color {
    /// Reads a color from its service index.
    pub fn from_index(v: u8) -> (c: Color)
        ensures
            c == color_from_index_spec(v),
    {
        if v == 0 {
            Color::Known(125, 255, 0)
        } else if v == 1 {
            Color::Known(0, 255, 0)
        } else if v == 2 {
            Color::Known(0, 255, 125)
        } else if v == 3 {
            Color::Known(0, 255, 255)
        } else if v == 16 {
            Color::Known(0, 200, 255)
        } else if v == 4 {
            Color::Known(0, 125, 255)
        } else if v == 5 {
            Color::Known(0, 0, 255)
        } else if v == 6 {
            Color::Known(125, 0, 255)
        } else if v == 13 {
            Color::Known(185, 0, 255)
        } else if v == 7 {
            Color::Known(255, 0, 255)
        } else if v == 8 {
            Color::Known(255, 0, 125)
        } else if v == 9 {
            Color::Known(255, 0, 0)
        } else if v == 29 {
            Color::Known(255, 75, 0)
        } else if v == 10 {
            Color::Known(255, 125, 0)
        } else if v == 14 {
            Color::Known(255, 185, 0)
        } else if v == 11 {
            Color::Known(255, 255, 0)
        } else if v == 12 {
            Color::Known(255, 255, 255)
        } else if v == 17 {
            Color::Known(175, 175, 175)
        } else if v == 18 {
            Color::Known(80, 80, 80)
        } else if v == 15 {
            Color::Known(0, 0, 0)
        } else if v == 27 {
            Color::Known(125, 125, 0)
        } else if v == 32 {
            Color::Known(100, 150, 0)
        } else if v == 28 {
            Color::Known(75, 175, 0)
        } else if v == 38 {
            Color::Known(0, 150, 0)
        } else if v == 20 {
            Color::Known(0, 175, 75)
        } else if v == 33 {
            Color::Known(0, 150, 100)
        } else if v == 21 {
            Color::Known(0, 125, 125)
        } else if v == 34 {
            Color::Known(0, 100, 150)
        } else if v == 22 {
            Color::Known(0, 75, 175)
        } else if v == 39 {
            Color::Known(0, 0, 150)
        } else if v == 23 {
            Color::Known(75, 0, 175)
        } else if v == 35 {
            Color::Known(100, 0, 150)
        } else if v == 24 {
            Color::Known(125, 0, 125)
        } else if v == 36 {
            Color::Known(150, 0, 100)
        } else if v == 25 {
            Color::Known(175, 0, 75)
        } else if v == 37 {
            Color::Known(150, 0, 0)
        } else if v == 30 {
            Color::Known(150, 50, 0)
        } else if v == 26 {
            Color::Known(175, 75, 0)
        } else if v == 31 {
            Color::Known(150, 100, 0)
        } else if v == 19 {
            Color::Known(255, 255, 125)
        } else if v == 40 {
            Color::Known(125, 255, 175)
        } else if v == 41 {
            Color::Known(125, 125, 255)
        } else {
            Color::Unknown(v)
        }
    }

    /// The service index of this color.
    pub fn index(&self) -> (r: u8)
        ensures
            r == color_index_spec(*self),
    {
        match self {
            Color::Known(r, g, b) => Color::rgb_index(*r, *g, *b),
            Color::Unknown(v) => *v,
        }
    }

    /// The service index of an RGB triple, zero when unrecognized.
    pub fn rgb_index(r: u8, g: u8, b: u8) -> (v: u8)
        ensures
            v == known_rgb_index_spec(r, g, b),
    {
        if r == 125 && g == 255 && b == 0 {
            0
        } else if r == 0 && g == 255 && b == 0 {
            1
        } else if r == 0 && g == 255 && b == 125 {
            2
        } else if r == 0 && g == 255 && b == 255 {
            3
        } else if r == 0 && g == 200 && b == 255 {
            16
        } else if r == 0 && g == 125 && b == 255 {
            4
        } else if r == 0 && g == 0 && b == 255 {
            5
        } else if r == 125 && g == 0 && b == 255 {
            6
        } else if r == 185 && g == 0 && b == 255 {
            13
        } else if r == 255 && g == 0 && b == 255 {
            7
        } else if r == 255 && g == 0 && b == 125 {
            8
        } else if r == 255 && g == 0 && b == 0 {
            9
        } else if r == 255 && g == 75 && b == 0 {
            29
        } else if r == 255 && g == 125 && b == 0 {
            10
        } else if r == 255 && g == 185 && b == 0 {
            14
        } else if r == 255 && g == 255 && b == 0 {
            11
        } else if r == 255 && g == 255 && b == 255 {
            12
        } else if r == 175 && g == 175 && b == 175 {
            17
        } else if r == 80 && g == 80 && b == 80 {
            18
        } else if r == 0 && g == 0 && b == 0 {
            15
        } else if r == 125 && g == 125 && b == 0 {
            27
        } else if r == 100 && g == 150 && b == 0 {
            32
        } else if r == 75 && g == 175 && b == 0 {
            28
        } else if r == 0 && g == 150 && b == 0 {
            38
        } else if r == 0 && g == 175 && b == 75 {
            20
        } else if r == 0 && g == 150 && b == 100 {
            33
        } else if r == 0 && g == 125 && b == 125 {
            21
        } else if r == 0 && g == 100 && b == 150 {
            34
        } else if r == 0 && g == 75 && b == 175 {
            22
        } else if r == 0 && g == 0 && b == 150 {
            39
        } else if r == 75 && g == 0 && b == 175 {
            23
        } else if r == 100 && g == 0 && b == 150 {
            35
        } else if r == 125 && g == 0 && b == 125 {
            24
        } else if r == 150 && g == 0 && b == 100 {
            36
        } else if r == 175 && g == 0 && b == 75 {
            25
        } else if r == 150 && g == 0 && b == 0 {
            37
        } else if r == 150 && g == 50 && b == 0 {
            30
        } else if r == 175 && g == 75 && b == 0 {
            26
        } else if r == 150 && g == 100 && b == 0 {
            31
        } else if r == 255 && g == 255 && b == 125 {
            19
        } else if r == 125 && g == 255 && b == 175 {
            40
        } else if r == 125 && g == 125 && b == 255 {
            41
        } else {
            0
        }
    }
}


/// The wire text of a color inside a comment record: the `R,G,B`
/// triple for a known color, the bare numeric index otherwise.
pub open spec fn color_text_spec(c: Color) -> Seq<char> {
    match c {
        Color::Known(r, g, b) => dec_str(r as nat) + seq![','] + dec_str(g as nat) + seq![',']
            + dec_str(b as nat),
        Color::Unknown(v) => dec_str(v as nat),
    }
}

/// What parsing a comma-separated color triple yields: a known color
/// when the text is exactly three comma-separated byte values.
pub open spec fn parse_color_spec(s: Seq<char>) -> Option<Color> {
    let parts = split_spec(s, ',');
    if parts.len() == 3 {
        match (parse_u8_spec(parts[0]), parse_u8_spec(parts[1]), parse_u8_spec(parts[2])) {
            (Option::Some(r), Option::Some(g), Option::Some(b)) => Some(Color::Known(r, g, b)),
            _ => None,
        }
    } else {
        None
    }
}

/// Writes a color in its comment-record wire form.
pub fn color_text(c: &Color) -> (r: String)
    ensures
        r@ == color_text_spec(*c),
{
    match c {
        Color::Known(cr, cg, cb) => {
            let mut out = u64_to_string(*cr as u64);
            push_char(&mut out, ',');
            let g_text = u64_to_string(*cg as u64);
            out.append(g_text.as_str());
            push_char(&mut out, ',');
            let b_text = u64_to_string(*cb as u64);
            out.append(b_text.as_str());
            proof {
                assert(out@ =~= color_text_spec(*c));
            }
            out
        },
        Color::Unknown(v) => u64_to_string(*v as u64),
    }
}

/// Parses a color triple, exactly as [`parse_color_spec`] describes.
pub fn parse_color(s: &str) -> (r: Option<Color>)
    ensures
        r == parse_color_spec(s@),
{
    let parts = split_text(s, ',');
    if parts.len() != 3 {
        return None;
    }
    proof {
        assert(str_views(parts@)[0] == parts@[0]@);
        assert(str_views(parts@)[1] == parts@[1]@);
        assert(str_views(parts@)[2] == parts@[2]@);
    }
    let rc = parse_u8(&str_to_chars(parts[0].as_str()));
    let gc = parse_u8(&str_to_chars(parts[1].as_str()));
    let bc = parse_u8(&str_to_chars(parts[2].as_str()));
    match (rc, gc, bc) {
        (Option::Some(r), Option::Some(g), Option::Some(b)) => Some(Color::Known(r, g, b)),
        _ => None,
    }
}

/// Parsing inverts writing for a known color: any RGB triple reads
/// back as itself.  An unknown color writes its bare index, which
/// this parser rejects.
pub proof fn lemma_color_text_roundtrip(c: Color)
    requires
        c is Known,
    ensures
        parse_color_spec(color_text_spec(c)) == Some(c),
{
    let r = c->Known_0;
    let g = c->Known_1;
    let b = c->Known_2;
    let tr = dec_str(r as nat);
    let tg = dec_str(g as nat);
    let tb = dec_str(b as nat);
    lemma_dec_str_no_char(r as nat, ',');
    lemma_dec_str_no_char(g as nat, ',');
    lemma_dec_str_no_char(b as nat, ',');
    let t = color_text_spec(c);
    assert(t =~= tr + seq![','] + (tg + seq![','] + tb));
    lemma_split_head(tr, tg + seq![','] + tb, ',');
    lemma_split_head(tg, tb, ',');
    lemma_split_no_sep(tb, ',');
    let parts = split_spec(t, ',');
    assert(parts == seq![tr] + (seq![tg] + seq![tb]));
    assert(parts.len() == 3);
    assert(parts[0] == tr);
    assert(parts[1] == tg);
    assert(parts[2] == tb);
    lemma_parse_dec_str_u64(r as u64);
    lemma_parse_dec_str_u64(g as u64);
    lemma_parse_dec_str_u64(b as u64);
    assert(parse_u8_spec(tr) == Some(r));
    assert(parse_u8_spec(tg) == Some(g));
    assert(parse_u8_spec(tb) == Some(b));
}

/// A color's wire text never holds a record separator: its characters
/// are digits and commas.
pub proof fn lemma_color_text_no_sep(c: Color, sep: char)
    requires
        !is_digit(sep),
        sep != ',',
    ensures
        has_no_sep(color_text_spec(c), sep),
{
    match c {
        Color::Known(r, g, b) => {
            lemma_dec_str_no_char(r as nat, sep);
            lemma_dec_str_no_char(g as nat, sep);
            lemma_dec_str_no_char(b as nat, sep);
            let t = color_text_spec(c);
            assert forall|i: int| 0 <= i < t.len() implies #[trigger] t[i] != sep by {
                let tr = dec_str(r as nat);
                let tg = dec_str(g as nat);
                let tb = dec_str(b as nat);
                if i < tr.len() {
                    assert(t[i] == tr[i]);
                } else if i == tr.len() {
                    assert(t[i] == ',');
                } else if i < tr.len() + 1 + tg.len() {
                    assert(t[i] == tg[i - tr.len() - 1]);
                } else if i == tr.len() + 1 + tg.len() {
                    assert(t[i] == ',');
                } else {
                    assert(t[i] == tb[i - tr.len() - 2 - tg.len()]);
                }
            }
        },
        Color::Unknown(v) => {
            lemma_dec_str_no_char(v as nat, sep);
        },
    }
}

} // verus!
