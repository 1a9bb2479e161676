//! Event categories and capability codes.
//!
//! A capability code is an opaque value wrapping a small kernel-defined
//! integer.  Each code type maps bidirectionally to a zero-based index
//! through the [`EvdevEnum`](crate::attribute_set::EvdevEnum) contract;
//! distinct code types are never interchangeable.

use vstd::prelude::*;
use vstd::string::*;
use crate::attribute_set::EvdevEnum;

verus! {

/// The decimal digit characters of a nonnegative number, most
/// significant first.
pub open spec fn dec_digits(n: int) -> Seq<char>
    decreases n,
{
    if n < 10 {
        seq![digit_char(n)]
    } else {
        dec_digits(n / 10).push(digit_char(n % 10))
    }
}

/// The character of one decimal digit.
pub open spec fn digit_char(d: int) -> char {
    if d == 0 {
        '0'
    } else if d == 1 {
        '1'
    } else if d == 2 {
        '2'
    } else if d == 3 {
        '3'
    } else if d == 4 {
        '4'
    } else if d == 5 {
        '5'
    } else if d == 6 {
        '6'
    } else if d == 7 {
        '7'
    } else if d == 8 {
        '8'
    } else {
        '9'
    }
}

fn digit_str(d: u16) -> (r: &'static str)
    requires
        d < 10,
    ensures
        r@ == seq![digit_char(d as int)],
{
    proof {
        reveal_strlit("0");
        reveal_strlit("1");
        reveal_strlit("2");
        reveal_strlit("3");
        reveal_strlit("4");
        reveal_strlit("5");
        reveal_strlit("6");
        reveal_strlit("7");
        reveal_strlit("8");
        reveal_strlit("9");
    }
    let r = match d {
        0 => "0",
        1 => "1",
        2 => "2",
        3 => "3",
        4 => "4",
        5 => "5",
        6 => "6",
        7 => "7",
        8 => "8",
        _ => "9",
    };
    proof {
        assert(r@ =~= seq![digit_char(d as int)]);
    }
    r
}

/// Render a nonnegative number in decimal.
pub fn dec_string(n: u16) -> (r: String)
    ensures
        r@ == dec_digits(n as int),
    decreases n,
{
    if n < 10 {
        String::from_str(digit_str(n))
    } else {
        let mut s = dec_string(n / 10);
        s.append(digit_str(n % 10));
        proof {
            assert(s@ =~= dec_digits(n as int));
        }
        s
    }
}

/// The raw value of the synchronization category: markers that end an
/// event batch.
pub const EV_SYNCHRONIZATION: u16 = 0;

/// The raw value of the key / button category.
pub const EV_KEY: u16 = 1;

/// The raw value of the relative-axis category.
pub const EV_RELATIVE: u16 = 2;

/// A kernel event category (the `type` field of an event record).
#[derive(Clone, Copy, PartialEq, Eq, Structural, Debug, Hash)]
pub struct EventType(pub u16);

impl EventType {
    /// The synchronization category.
    pub fn synchronization() -> (r: EventType)
        ensures
            r.0 == EV_SYNCHRONIZATION,
    {
        EventType(EV_SYNCHRONIZATION)
    }

    /// The key / button category.
    pub fn key() -> (r: EventType)
        ensures
            r.0 == EV_KEY,
    {
        EventType(EV_KEY)
    }

    /// The relative-axis category.
    pub fn relative() -> (r: EventType)
        ensures
            r.0 == EV_RELATIVE,
    {
        EventType(EV_RELATIVE)
    }
}

/// A key or button code.
#[derive(Clone, Copy, PartialEq, Eq, Structural, Debug, Hash)]
pub struct Key(pub u16);

/// The rendering of a key code: a known name for commonly-named codes,
/// else the generic fallback, so the whole code domain is displayable.
pub open spec fn key_display(code: u16) -> Seq<char> {
    if code == 1 {
        "KEY_ESC"@
    } else if code == 30 {
        "KEY_A"@
    } else if code == 57 {
        "KEY_SPACE"@
    } else if code == 272 {
        "BTN_LEFT"@
    } else {
        "unknown key: "@ + dec_digits(code as int)
    }
}

impl Key {
    /// The code's display rendering, with the required fallback for
    /// unrecognized values.
    pub fn display_name(&self) -> (r: String)
        ensures
            r@ == key_display(self.0),
    {
        if self.0 == 1 {
            String::from_str("KEY_ESC")
        } else if self.0 == 30 {
            String::from_str("KEY_A")
        } else if self.0 == 57 {
            String::from_str("KEY_SPACE")
        } else if self.0 == 272 {
            String::from_str("BTN_LEFT")
        } else {
            let mut s = String::from_str("unknown key: ");
            let num = dec_string(self.0);
            s.append(num.as_str());
            s
        }
    }
}

impl EvdevEnum for Key {
    open spec fn spec_to_index(self) -> int {
        self.0 as int
    }

    open spec fn spec_from_index(i: int) -> Self {
        Key(i as u16)
    }

    open spec fn spec_index_limit() -> int {
        0x10000
    }

    fn to_index(self) -> (r: usize) {
        self.0 as usize
    }

    fn from_index(i: usize) -> (r: Self) {
        Key(#[verifier::truncate] (i as u16))
    }

    proof fn lemma_from_to(self) {
    }

    proof fn lemma_to_from(i: int) {
    }
}

/// A relative-axis code.
#[derive(Clone, Copy, PartialEq, Eq, Structural, Debug, Hash)]
pub struct RelativeAxisType(pub u16);

/// The rendering of a relative-axis code, with the same mandatory
/// fallback as for keys.
pub open spec fn relative_axis_display(code: u16) -> Seq<char> {
    if code == 0 {
        "REL_X"@
    } else if code == 1 {
        "REL_Y"@
    } else if code == 8 {
        "REL_WHEEL"@
    } else {
        "unknown axis: "@ + dec_digits(code as int)
    }
}

impl RelativeAxisType {
    /// The code's display rendering, with the required fallback for
    /// unrecognized values.
    pub fn display_name(&self) -> (r: String)
        ensures
            r@ == relative_axis_display(self.0),
    {
        if self.0 == 0 {
            String::from_str("REL_X")
        } else if self.0 == 1 {
            String::from_str("REL_Y")
        } else if self.0 == 8 {
            String::from_str("REL_WHEEL")
        } else {
            let mut s = String::from_str("unknown axis: ");
            let num = dec_string(self.0);
            s.append(num.as_str());
            s
        }
    }
}

impl EvdevEnum for RelativeAxisType {
    open spec fn spec_to_index(self) -> int {
        self.0 as int
    }

    open spec fn spec_from_index(i: int) -> Self {
        RelativeAxisType(i as u16)
    }

    open spec fn spec_index_limit() -> int {
        0x10000
    }

    fn to_index(self) -> (r: usize) {
        self.0 as usize
    }

    fn from_index(i: usize) -> (r: Self) {
        RelativeAxisType(#[verifier::truncate] (i as u16))
    }

    proof fn lemma_from_to(self) {
    }

    proof fn lemma_to_from(i: int) {
    }
}

} // verus!
