use vstd::prelude::*;
use vstd::string::StringExecFns;

verus! {

/// A status line reported by the sensor on a tick. Moisture values are in
/// tenths of a percent.
#[derive(PartialEq, Eq, Structural, Clone, Copy, Debug)]
pub enum StatusMessage {
    /// Moisture fell below the threshold; watering starts.
    MoistureLow(u64),
    /// Water was added; the level after watering.
    Watering(u64),
    /// Moisture reached the optimal band; the sensor goes idle.
    Optimal(u64),
    /// Moisture is still under the threshold after watering.
    StillLow(u64),
    /// Moisture dropped below the threshold while idle.
    Dropping,
    /// The sensor is in its error state.
    ErrorState,
}

/// The text of one decimal digit.
pub open spec fn digit_text(d: nat) -> Seq<char> {
    if d == 0 {
        "0"@
    } else if d == 1 {
        "1"@
    } else if d == 2 {
        "2"@
    } else if d == 3 {
        "3"@
    } else if d == 4 {
        "4"@
    } else if d == 5 {
        "5"@
    } else if d == 6 {
        "6"@
    } else if d == 7 {
        "7"@
    } else if d == 8 {
        "8"@
    } else {
        "9"@
    }
}

/// The decimal digits of `n`, most significant first, without leading zeros.
pub open spec fn decimal_text(n: nat) -> Seq<char>
    decreases n,
{
    if n < 10 {
        digit_text(n)
    } else {
        decimal_text(n / 10) + digit_text(n % 10)
    }
}

/// A percentage held in tenths, written with one decimal: 290 is "29.0".
pub open spec fn percent_text(tenths: nat) -> Seq<char> {
    decimal_text(tenths / 10) + "."@ + digit_text(tenths % 10)
}

impl StatusMessage {
    /// The text shown for this message.
    pub open spec fn spec_text(self) -> Seq<char> {
        match self {
            StatusMessage::MoistureLow(m) => "Moisture low ("@ + percent_text(m as nat) + "%), activating..."@,
            StatusMessage::Watering(m) => "Watering... Moisture now "@ + percent_text(m as nat) + "%"@,
            StatusMessage::Optimal(m) => "Moisture optimal ("@ + percent_text(m as nat) + "%), going idle"@,
            StatusMessage::StillLow(m) => "Moisture still low ("@ + percent_text(m as nat) + "%), back to monitoring"@,
            StatusMessage::Dropping => "Moisture dropping, back to monitoring"@,
            StatusMessage::ErrorState => "Error state, no transitions"@,
        }
    }

    /// Renders the message as text.
    pub fn text(&self) -> (r: String)
        ensures
            r@ == self.spec_text(),
    {
        match *self {
            StatusMessage::MoistureLow(m) => {
                let mut s = String::from_str("Moisture low (");
                push_percent(&mut s, m);
                s.append("%), activating...");
                s
            },
            StatusMessage::Watering(m) => {
                let mut s = String::from_str("Watering... Moisture now ");
                push_percent(&mut s, m);
                s.append("%");
                s
            },
            StatusMessage::Optimal(m) => {
                let mut s = String::from_str("Moisture optimal (");
                push_percent(&mut s, m);
                s.append("%), going idle");
                s
            },
            StatusMessage::StillLow(m) => {
                let mut s = String::from_str("Moisture still low (");
                push_percent(&mut s, m);
                s.append("%), back to monitoring");
                s
            },
            StatusMessage::Dropping => String::from_str("Moisture dropping, back to monitoring"),
            StatusMessage::ErrorState => String::from_str("Error state, no transitions"),
        }
    }
}

fn push_digit(s: &mut String, d: u64)
    requires
        d < 10,
    ensures
        final(s)@ == old(s)@ + digit_text(d as nat),
{
    let t = if d == 0 {
        "0"
    } else if d == 1 {
        "1"
    } else if d == 2 {
        "2"
    } else if d == 3 {
        "3"
    } else if d == 4 {
        "4"
    } else if d == 5 {
        "5"
    } else if d == 6 {
        "6"
    } else if d == 7 {
        "7"
    } else if d == 8 {
        "8"
    } else {
        "9"
    };
    s.append(t);
}

fn push_decimal(s: &mut String, n: u64)
    ensures
        final(s)@ == old(s)@ + decimal_text(n as nat),
    decreases n,
{
    if n >= 10 {
        push_decimal(s, n / 10);
        push_digit(s, n % 10);
        assert(s@ =~= old(s)@ + decimal_text(n as nat));
    } else {
        push_digit(s, n);
    }
}

/// Appends a percentage held in tenths, with one decimal.
pub fn push_percent(s: &mut String, tenths: u64)
    ensures
        final(s)@ == old(s)@ + percent_text(tenths as nat),
{
    push_decimal(s, tenths / 10);
    s.append(".");
    push_digit(s, tenths % 10);
    assert(s@ =~= old(s)@ + percent_text(tenths as nat));
}

} // verus!
