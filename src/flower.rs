use vstd::prelude::*;

use crate::sensor::DeviceState;

verus! {

/// The color a glyph line is drawn in.
#[derive(PartialEq, Eq, Structural, Clone, Copy, Debug)]
pub enum Tint {
    Yellow,
    Blue,
    Black,
    Cyan,
    White,
    /// RGB (255, 165, 0).
    Orange,
    Red,
}

/// Number of lines of the flower glyph.
pub const FLOWER_HEIGHT: usize = 16;

/// The flower glyph, one entry per line, top to bottom. Its center, as the
/// idle coloring finds it, is lines 9 and 11.
pub fn flower_lines() -> (r: Vec<&'static str>)
    ensures
        r.len() == FLOWER_HEIGHT,
        forall|i: int| 0 <= i < FLOWER_HEIGHT ==> (is_center_line(i, #[trigger] r[i]@) <==> (i == 9 || i == 11)),
{
    let r = vec![
        "            .--. ",
        "      .-\"-:`    `:-\"-.",
        "   .-/     '.  .'     \\-.",
        "  ;__|      _::_      |__;",
        " /`   '.  /` \\/` \\  .'   `\\",
        " |      _ \\      / _      |",
        " \\    /` '.'.  .'.' `\\    /",
        "/ '-._'.  _'./\\.'_  .'_.-' \\",
        "\\ .-' .'`  .'\\//'.  `'. '-. /",
        " /    \\._.'.'  '.'._./    \\",
        " |        /      \\        |",
        " \\.__ .'  \\._/\\_.//  '. __./",
        "  ;  |       ::       |  ;",
        "   '-\\     .'  '.     /-'",
        " jgs  '-.-:_    _:-.-'",
        "            '--'",
    ];
    proof {
        reveal_strlit("/ '-._'.  _'./\\.'_  .'_.-' \\");
        reveal_strlit("\\ .-' .'`  .'\\//'.  `'. '-. /");
        reveal_strlit(" /    \\._.'.'  '.'._./    \\");
        assert(center_mark_at(r[9]@, 0));
        assert forall|j: int| !center_mark_at(#[trigger] r[7]@, j) && !center_mark_at(r[8]@, j) by {
            if 0 <= j && j + 2 < r[7]@.len() {
                assert(r[7]@[j] != ' ' || r[7]@[j + 1] != '/' || r[7]@[j + 2] != ' ');
            }
            if 0 <= j && j + 2 < r[8]@.len() {
                assert(r[8]@[j] != ' ' || r[8]@[j + 1] != '/' || r[8]@[j + 2] != ' ');
            }
        }
    }
    r
}

/// Whether " / " (space, slash, space) starts at position `i` of `s`.
pub open spec fn center_mark_at(s: Seq<char>, i: int) -> bool {
    0 <= i && i + 2 < s.len() && s[i] == ' ' && s[i + 1] == '/' && s[i + 2] == ' '
}

/// Whether `s` holds " / " somewhere.
pub open spec fn has_center_mark(s: Seq<char>) -> bool {
    exists|i: int| center_mark_at(s, i)
}

/// Whether line `index`, with text `line`, belongs to the flower's center.
pub open spec fn is_center_line(index: int, line: Seq<char>) -> bool {
    index == 11 || (7 <= index <= 9 && has_center_mark(line))
}

/// The color of a glyph line in a given state and blink phase.
pub open spec fn tint_of(index: int, line: Seq<char>, blink_frame: int, state: DeviceState) -> Tint {
    match state {
        DeviceState::Monitoring => Tint::Yellow,
        DeviceState::Activating => if blink_frame == 0 {
            Tint::Blue
        } else {
            Tint::Black
        },
        DeviceState::Adjusting => Tint::Cyan,
        DeviceState::Idle => if is_center_line(index, line) {
            Tint::White
        } else {
            Tint::Orange
        },
        DeviceState::Error => if blink_frame == 0 {
            Tint::Red
        } else {
            Tint::Black
        },
    }
}

/// Whether `line` holds " / ".
pub fn contains_center_mark(line: &str) -> (r: bool)
    ensures
        r == has_center_mark(line@),
{
    let n = line.unicode_len();
    if n < 3 {
        assert(forall|j: int| !center_mark_at(line@, j));
        return false;
    }
    let mut i: usize = 0;
    while i + 2 < n
        invariant
            n == line@.len(),
            n >= 3,
            i + 2 <= n,
            forall|j: int| j < i ==> !center_mark_at(line@, j),
        decreases n - i,
    {
        if line.get_char(i) == ' ' && line.get_char(i + 1) == '/' && line.get_char(i + 2) == ' ' {
            assert(center_mark_at(line@, i as int));
            return true;
        }
        i = i + 1;
    }
    false
}

/// The color of glyph line `index`, with text `line`, for the given blink
/// phase and device state.
pub fn style_line(index: usize, line: &str, blink_frame: usize, state: DeviceState) -> (r: Tint)
    ensures
        r == tint_of(index as int, line@, blink_frame as int, state),
{
    match state {
        DeviceState::Monitoring => Tint::Yellow,
        DeviceState::Activating => if blink_frame == 0 {
            Tint::Blue
        } else {
            Tint::Black
        },
        DeviceState::Adjusting => Tint::Cyan,
        DeviceState::Idle => {
            if index == 11 || (index >= 7 && index <= 9 && contains_center_mark(line)) {
                Tint::White
            } else {
                Tint::Orange
            }
        },
        DeviceState::Error => if blink_frame == 0 {
            Tint::Red
        } else {
            Tint::Black
        },
    }
}

} // verus!
