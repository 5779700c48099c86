//! The pieces of text the panel is made of: status glyphs, decimal numbers, the scroll
//! indicator and the title.

use crate::event::{EventType, LogLevel};
use vstd::prelude::*;

verus! {

/// The status glyph of an event, by its type and severity. Only a success and an error
/// have one, and an error that is merely a warning has none.
pub open spec fn glyph(event_type: EventType, log_level: LogLevel) -> Seq<char> {
    match (event_type, log_level) {
        (EventType::Success, _) => seq!['✅'],
        (EventType::Error, LogLevel::Warn) => Seq::empty(),
        (EventType::Error, _) => seq!['❌'],
        _ => Seq::empty(),
    }
}

/// The character that writes the digit `d`.
pub open spec fn digit_char(d: int) -> char {
    if d == 0 {
        '0'
    } else if d == 1 {
        '1'
    } else if d == 2 {
        '2'
    } else if d == 3 {
        '3'
    } else if d == 4 {
        '4'
    } else if d == 5 {
        '5'
    } else if d == 6 {
        '6'
    } else if d == 7 {
        '7'
    } else if d == 8 {
        '8'
    } else {
        '9'
    }
}

/// The digit that `c` writes, for `c` from `'0'` to `'9'`.
pub open spec fn digit_value(c: char) -> int {
    if c == '0' {
        0
    } else if c == '1' {
        1
    } else if c == '2' {
        2
    } else if c == '3' {
        3
    } else if c == '4' {
        4
    } else if c == '5' {
        5
    } else if c == '6' {
        6
    } else if c == '7' {
        7
    } else if c == '8' {
        8
    } else {
        9
    }
}

/// `n` written in decimal, without leading zeros.
pub open spec fn decimal(n: nat) -> Seq<char>
    decreases n,
{
    if n < 10 {
        seq![digit_char(n as int)]
    } else {
        decimal(n / 10).push(digit_char((n % 10) as int))
    }
}

/// The number that a string of decimal digits writes.
pub open spec fn decimal_value(digits: Seq<char>) -> nat
    decreases digits.len(),
{
    if digits.len() == 0 {
        0
    } else {
        (decimal_value(digits.drop_last()) * 10 + digit_value(digits.last())) as nat
    }
}

/// `n` written in decimal, with a minus sign in front where it is negative.
pub open spec fn signed_decimal(n: int) -> Seq<char> {
    if n < 0 {
        seq!['-'] + decimal((-n) as nat)
    } else {
        decimal(n as nat)
    }
}

/// The scroll indicator for `total` visible events of which `offset` are scrolled past, in
/// a panel with room for `capacity` lines: empty while everything fits, and otherwise the
/// number of events from the top of the window down to the oldest, a slash and `total`,
/// with a space on either side.
pub open spec fn scroll_indicator(total: nat, offset: nat, capacity: nat) -> Seq<char> {
    if total > capacity {
        seq![' '] + signed_decimal(total - offset) + seq!['/'] + decimal(total) + seq![' ']
    } else {
        Seq::empty()
    }
}

/// The panel's title: its name, followed by the scroll indicator.
pub open spec fn title(total: nat, offset: nat, capacity: nat) -> Seq<char> {
    "ACTIVITY LOG"@ + scroll_indicator(total, offset, capacity)
}

/// Reading back a number written by [`decimal`] gives the number.
pub proof fn decimal_reads_back(n: nat)
    ensures
        decimal_value(decimal(n)) == n,
        decimal(n).len() >= 1,
        forall|i: int| 0 <= i < decimal(n).len() ==> '0' <= #[trigger] decimal(n)[i] <= '9',
    decreases n,
{
    if n < 10 {
        assert(decimal(n).drop_last() =~= Seq::<char>::empty());
        assert(decimal_value(decimal(n).drop_last()) == 0);
    } else {
        decimal_reads_back(n / 10);
        assert(decimal(n).drop_last() =~= decimal(n / 10));
    }
}

/// The glyph table, row by row: a success has the check mark whatever its severity; an
/// error has the cross unless it is a warning; everything else has no glyph.
pub proof fn glyph_table(event_type: EventType, log_level: LogLevel)
    ensures
        event_type is Success ==> glyph(event_type, log_level) == seq!['✅'],
        event_type is Error && log_level is Warn ==> glyph(event_type, log_level).len() == 0,
        event_type is Error && !(log_level is Warn) ==> glyph(event_type, log_level) == seq!['❌'],
        event_type is Refresh ==> glyph(event_type, log_level).len() == 0,
        event_type is Waiting ==> glyph(event_type, log_level).len() == 0,
        event_type is StateChange ==> glyph(event_type, log_level).len() == 0,
{
}

/// The scroll indicator is there exactly when more events are visible than fit. It then
/// reads, between two spaces, the number of visible events less the scroll offset, a
/// slash, and the number of visible events. Both numbers read back as what they are; the
/// first has a minus sign where the offset is the larger. The title is the panel's name
/// followed by the indicator.
pub proof fn indicator_shown_iff_overflow(total: nat, offset: nat, capacity: nat)
    ensures
        scroll_indicator(total, offset, capacity).len() > 0 <==> total > capacity,
        total > capacity ==> scroll_indicator(total, offset, capacity) == seq![' ']
            + signed_decimal(total - offset) + seq!['/'] + decimal(total) + seq![' '],
        offset <= total ==> signed_decimal(total - offset) == decimal((total - offset) as nat),
        offset <= total ==> decimal_value(decimal((total - offset) as nat)) == total - offset,
        offset > total ==> signed_decimal(total - offset) == seq!['-'] + decimal(
            (offset - total) as nat,
        ),
        decimal_value(decimal(total)) == total,
        title(total, offset, capacity) == "ACTIVITY LOG"@ + scroll_indicator(
            total,
            offset,
            capacity,
        ),
        total <= capacity ==> title(total, offset, capacity) == "ACTIVITY LOG"@,
{
    decimal_reads_back(total);
    if offset <= total {
        decimal_reads_back((total - offset) as nat);
    }
    assert("ACTIVITY LOG"@ + Seq::<char>::empty() =~= "ACTIVITY LOG"@);
}

/// Looks up the status glyph of an event.
pub fn status_glyph(event_type: EventType, log_level: LogLevel) -> (icon: &'static str)
    ensures
        icon@ == glyph(event_type, log_level),
{
    proof {
        reveal_strlit("✅");
        reveal_strlit("❌");
        reveal_strlit("");
    }
    let icon = match (event_type, log_level) {
        (EventType::Success, _) => "✅",
        (EventType::Error, LogLevel::Warn) => "",
        (EventType::Error, _) => "❌",
        _ => "",
    };
    assert(icon@ =~= glyph(event_type, log_level));
    icon
}

/// The one-character string that writes the digit `d`.
fn digit_str(d: usize) -> (s: &'static str)
    requires
        d < 10,
    ensures
        s@ == seq![digit_char(d as int)],
{
    proof {
        reveal_strlit("0");
        reveal_strlit("1");
        reveal_strlit("2");
        reveal_strlit("3");
        reveal_strlit("4");
        reveal_strlit("5");
        reveal_strlit("6");
        reveal_strlit("7");
        reveal_strlit("8");
        reveal_strlit("9");
    }
    let s = match d {
        0 => "0",
        1 => "1",
        2 => "2",
        3 => "3",
        4 => "4",
        5 => "5",
        6 => "6",
        7 => "7",
        8 => "8",
        _ => "9",
    };
    assert(s@ =~= seq![digit_char(d as int)]);
    s
}

/// Writes `n` in decimal.
pub fn decimal_string(n: usize) -> (s: String)
    ensures
        s@ == decimal(n as nat),
    decreases n,
{
    if n < 10 {
        String::from_str(digit_str(n))
    } else {
        let mut s = decimal_string(n / 10);
        s.append(digit_str(n % 10));
        assert(s@ =~= decimal(n as nat));
        s
    }
}

/// Writes `total - offset` in decimal, with a minus sign where `offset` is the larger.
pub fn difference_string(total: usize, offset: usize) -> (s: String)
    ensures
        s@ == signed_decimal(total - offset),
{
    if offset > total {
        proof {
            reveal_strlit("-");
        }
        let mut s = String::from_str("-");
        let digits = decimal_string(offset - total);
        s.append(digits.as_str());
        assert(s@ =~= signed_decimal(total - offset));
        s
    } else {
        decimal_string(total - offset)
    }
}

/// Writes the scroll indicator: see [`scroll_indicator`].
pub fn scroll_indicator_string(total: usize, offset: usize, capacity: usize) -> (s: String)
    ensures
        s@ == scroll_indicator(total as nat, offset as nat, capacity as nat),
{
    if total > capacity {
        proof {
            reveal_strlit(" ");
            reveal_strlit("/");
        }
        let mut s = String::from_str(" ");
        let remaining = difference_string(total, offset);
        s.append(remaining.as_str());
        s.append("/");
        let all = decimal_string(total);
        s.append(all.as_str());
        s.append(" ");
        assert(s@ =~= scroll_indicator(total as nat, offset as nat, capacity as nat));
        s
    } else {
        String::new()
    }
}

/// Writes the panel's title: see [`title`].
pub fn title_string(total: usize, offset: usize, capacity: usize) -> (s: String)
    ensures
        s@ == title(total as nat, offset as nat, capacity as nat),
{
    let mut s = String::from_str("ACTIVITY LOG");
    let indicator = scroll_indicator_string(total, offset, capacity);
    s.append(indicator.as_str());
    s
}

} // verus!
