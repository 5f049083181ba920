//! One card entry of the wall, and the three caption lines rendered under
//! its cell: the title, the set/language/condition subtitle, and the price
//! in points.

use vstd::prelude::*;
use vstd::string::StringExecFns;

verus! {

/// Suffix printed after the price-point value.
pub const POINT_SUFFIX: &'static str = " WP";

/// One record of the input list, fully resolved by the caller. The paired
/// decoded image travels beside it in a separate list of equal length.
#[derive(Debug, PartialEq)]
pub struct CardEntry {
    /// Card name; the title line unless a display override is present.
    pub name: String,
    /// Optional display-name override for the title line.
    pub display: Option<String>,
    /// Set code, first part of the subtitle line.
    pub set: String,
    /// Language, parenthesised in the subtitle line.
    pub language: String,
    /// Condition, last part of the subtitle line.
    pub condition: String,
    /// Integer price-point value of the price line.
    pub points: u32,
}

impl CardEntry {
    /// The title line: the display override if present, else the name.
    pub open spec fn spec_title(self) -> Seq<char> {
        if self.display is Some {
            self.display->0@
        } else {
            self.name@
        }
    }

    /// The subtitle line: `set (language) condition`.
    pub open spec fn spec_subtitle(self) -> Seq<char> {
        self.set@ + " ("@ + self.language@ + ") "@ + self.condition@
    }

    /// The price line: the decimal points value followed by the suffix.
    pub open spec fn spec_price_line(self) -> Seq<char> {
        spec_decimal(self.points as nat) + POINT_SUFFIX@
    }

    /// Title line of this entry.
    pub fn title(&self) -> (t: &String)
        ensures
            t@ == self.spec_title(),
    {
        match &self.display {
            Some(d) => d,
            None => &self.name,
        }
    }

    /// Subtitle line of this entry.
    pub fn subtitle(&self) -> (s: String)
        ensures
            s@ == self.spec_subtitle(),
    {
        let mut s = String::from_str(self.set.as_str());
        s.append(" (");
        s.append(self.language.as_str());
        s.append(") ");
        s.append(self.condition.as_str());
        s
    }

    /// Price line of this entry.
    pub fn price_line(&self) -> (s: String)
        ensures
            s@ == self.spec_price_line(),
    {
        let mut s = decimal_string(self.points);
        s.append(POINT_SUFFIX);
        s
    }
}

/// The character of one decimal digit.
pub open spec fn spec_digit(d: nat) -> char {
    if d == 0 {
        '0'
    } else if d == 1 {
        '1'
    } else if d == 2 {
        '2'
    } else if d == 3 {
        '3'
    } else if d == 4 {
        '4'
    } else if d == 5 {
        '5'
    } else if d == 6 {
        '6'
    } else if d == 7 {
        '7'
    } else if d == 8 {
        '8'
    } else {
        '9'
    }
}

/// The decimal notation of a number: its high digits followed by its last
/// digit, with no leading zero except for the number zero itself.
pub open spec fn spec_decimal(n: nat) -> Seq<char>
    decreases n,
{
    if n < 10 {
        seq![spec_digit(n)]
    } else {
        spec_decimal(n / 10) + seq![spec_digit(n % 10)]
    }
}

/// One decimal digit as a string slice.
fn digit_str(d: u32) -> (s: &'static str)
    requires
        d < 10,
    ensures
        s@ == seq![spec_digit(d as nat)],
{
    proof {
        reveal_strlit("0");
        reveal_strlit("1");
        reveal_strlit("2");
        reveal_strlit("3");
        reveal_strlit("4");
        reveal_strlit("5");
        reveal_strlit("6");
        reveal_strlit("7");
        reveal_strlit("8");
        reveal_strlit("9");
    }
    let s: &'static str = if d == 0 {
        "0"
    } else if d == 1 {
        "1"
    } else if d == 2 {
        "2"
    } else if d == 3 {
        "3"
    } else if d == 4 {
        "4"
    } else if d == 5 {
        "5"
    } else if d == 6 {
        "6"
    } else if d == 7 {
        "7"
    } else if d == 8 {
        "8"
    } else {
        "9"
    };
    proof {
        assert(s@ =~= seq![spec_digit(d as nat)]);
    }
    s
}

/// The decimal notation of `n`, built digit by digit exactly as the
/// specification spells it.
pub fn decimal_string(n: u32) -> (s: String)
    ensures
        s@ == spec_decimal(n as nat),
    decreases n,
{
    if n < 10 {
        String::from_str(digit_str(n))
    } else {
        let mut s = decimal_string(n / 10);
        s.append(digit_str(n % 10));
        proof {
            assert(s@ =~= spec_decimal(n as nat));
        }
        s
    }
}

} // verus!
