//! Text widgets: title, menu buttons, score labels and the win announcement.

use vstd::prelude::*;
use vstd::string::StringExecFns;

use crate::geometry::Vec2;

verus! {

/// A color with per-mille channels: 1000 is full intensity.
#[derive(Clone, Copy, Debug, PartialEq, Eq, Structural)]
pub struct Color {
    pub r: u16,
    pub g: u16,
    pub b: u16,
    pub a: u16,
}

/// Full-intensity white, the color of every widget of this game.
pub open spec fn white() -> Color {
    Color { r: 1000, g: 1000, b: 1000, a: 1000 }
}

/// Executable counterpart of `white`.
pub fn white_color() -> (c: Color)
    ensures
        c == white(),
{
    Color { r: 1000, g: 1000, b: 1000, a: 1000 }
}

/// A renderable text widget. `position` is in screen units, `size` the font
/// height; `focused` is meaningful only for the two menu buttons, where it
/// drives navigation highlighting.
pub struct PongText {
    pub text: String,
    pub position: Vec2,
    pub size: u32,
    pub color: Color,
    pub centered: bool,
    pub focused: bool,
    pub visible: bool,
}

/// The mathematical value of a text widget: the same fields with the text
/// as a sequence of characters.
pub ghost struct TextView {
    pub text: Seq<char>,
    pub position: Vec2,
    pub size: u32,
    pub color: Color,
    pub centered: bool,
    pub focused: bool,
    pub visible: bool,
}

impl View for PongText {
    type V = TextView;

    open spec fn view(&self) -> TextView {
        TextView {
            text: self.text@,
            position: self.position,
            size: self.size,
            color: self.color,
            centered: self.centered,
            focused: self.focused,
            visible: self.visible,
        }
    }
}

impl PongText {
    pub fn focused(&self) -> (r: bool)
        ensures
            r == self.focused,
    {
        self.focused
    }

    pub fn set_focus(&mut self, focused: bool)
        ensures
            final(self)@ == (TextView { focused, ..old(self)@ }),
    {
        self.focused = focused;
    }

    /// An owned copy of the widget, for handing to a render sink.
    pub fn snapshot(&self) -> (t: PongText)
        ensures
            t@ == self@,
    {
        PongText {
            text: self.text.clone(),
            position: self.position,
            size: self.size,
            color: self.color,
            centered: self.centered,
            focused: self.focused,
            visible: self.visible,
        }
    }
}

/// The character of one decimal digit.
pub open spec fn dec_digit_char(d: int) -> char {
    if d == 0 {
        '0'
    } else if d == 1 {
        '1'
    } else if d == 2 {
        '2'
    } else if d == 3 {
        '3'
    } else if d == 4 {
        '4'
    } else if d == 5 {
        '5'
    } else if d == 6 {
        '6'
    } else if d == 7 {
        '7'
    } else if d == 8 {
        '8'
    } else {
        '9'
    }
}

/// The decimal rendering of a number: most significant digit first, no
/// leading zeros (zero itself is "0").
pub open spec fn dec_seq(n: nat) -> Seq<char>
    decreases n,
{
    if n < 10 {
        seq![dec_digit_char(n as int)]
    } else {
        dec_seq(n / 10).push(dec_digit_char((n % 10) as int))
    }
}

fn digit_str(d: u32) -> (s: &'static str)
    requires
        d < 10,
    ensures
        s@ == seq![dec_digit_char(d as int)],
{
    proof {
        reveal_strlit("0");
        reveal_strlit("1");
        reveal_strlit("2");
        reveal_strlit("3");
        reveal_strlit("4");
        reveal_strlit("5");
        reveal_strlit("6");
        reveal_strlit("7");
        reveal_strlit("8");
        reveal_strlit("9");
    }
    let s = match d {
        0 => "0",
        1 => "1",
        2 => "2",
        3 => "3",
        4 => "4",
        5 => "5",
        6 => "6",
        7 => "7",
        8 => "8",
        _ => "9",
    };
    proof {
        assert(s@ =~= seq![dec_digit_char(d as int)]);
    }
    s
}

/// The decimal rendering of a score, used for the two score labels.
pub fn score_string(n: u32) -> (s: String)
    ensures
        s@ == dec_seq(n as nat),
    decreases n,
{
    if n < 10 {
        String::from_str(digit_str(n))
    } else {
        let mut s = score_string(n / 10);
        s.append(digit_str(n % 10));
        proof {
            assert(dec_seq((n / 10) as nat).push(dec_digit_char((n % 10) as int)) =~= dec_seq(
                (n / 10) as nat,
            ) + seq![dec_digit_char((n % 10) as int)]);
        }
        s
    }
}

} // verus!
