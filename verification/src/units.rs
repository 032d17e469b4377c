//! Data-size units and self-scaling amounts.
//!
//! A `Unit` is a fixed power-of-two multiple of a byte; an `Amount` pairs a
//! raw byte count with the unit it is displayed in. Formatting renders the
//! count scaled to the unit with one decimal digit (whole bytes for `Byte`),
//! followed by the unit's one-letter suffix.

use vstd::prelude::*;

verus! {

/// A discrete data-size scale tag.
#[derive(Clone, Copy, PartialEq, Eq, Structural, Debug)]
pub enum Unit {
    Byte,
    Kilo,
    Mega,
    Giga,
    Tera,
}

/// The multiplier of a unit relative to one byte.
pub open spec fn spec_scale(u: Unit) -> nat {
    match u {
        Unit::Byte => 1,
        Unit::Kilo => 1024,
        Unit::Mega => 1048576,
        Unit::Giga => 1073741824,
        Unit::Tera => 1099511627776,
    }
}

/// The one-letter suffix a unit is rendered with.
pub open spec fn spec_suffix(u: Unit) -> Seq<char> {
    match u {
        Unit::Byte => seq!['B'],
        Unit::Kilo => seq!['K'],
        Unit::Mega => seq!['M'],
        Unit::Giga => seq!['G'],
        Unit::Tera => seq!['T'],
    }
}

impl Unit {
    /// The multiplier of this unit relative to one byte.
    pub fn scale(self) -> (r: u64)
        ensures
            r == spec_scale(self),
    {
        match self {
            Unit::Byte => 1,
            Unit::Kilo => 1024,
            Unit::Mega => 1048576,
            Unit::Giga => 1073741824,
            Unit::Tera => 1099511627776,
        }
    }

    /// The one-letter suffix this unit is rendered with.
    pub fn suffix(self) -> (r: &'static str)
        ensures
            r@ == spec_suffix(self),
    {
        match self {
            Unit::Byte => {
                proof {
                    reveal_strlit("B");
                    assert("B"@ =~= seq!['B']);
                }
                "B"
            },
            Unit::Kilo => {
                proof {
                    reveal_strlit("K");
                    assert("K"@ =~= seq!['K']);
                }
                "K"
            },
            Unit::Mega => {
                proof {
                    reveal_strlit("M");
                    assert("M"@ =~= seq!['M']);
                }
                "M"
            },
            Unit::Giga => {
                proof {
                    reveal_strlit("G");
                    assert("G"@ =~= seq!['G']);
                }
                "G"
            },
            Unit::Tera => {
                proof {
                    reveal_strlit("T");
                    assert("T"@ =~= seq!['T']);
                }
                "T"
            },
        }
    }
}

/// The character for one decimal digit.
pub open spec fn spec_digit(d: nat) -> char
    recommends
        d < 10,
{
    if d == 0 {
        '0'
    } else if d == 1 {
        '1'
    } else if d == 2 {
        '2'
    } else if d == 3 {
        '3'
    } else if d == 4 {
        '4'
    } else if d == 5 {
        '5'
    } else if d == 6 {
        '6'
    } else if d == 7 {
        '7'
    } else if d == 8 {
        '8'
    } else {
        '9'
    }
}

/// The decimal rendering of a natural number, most significant digit first,
/// with no leading zeros (zero itself renders as "0").
pub open spec fn spec_udec(n: nat) -> Seq<char>
    decreases n,
{
    if n < 10 {
        seq![spec_digit(n)]
    } else {
        spec_udec(n / 10) + seq![spec_digit(n % 10)]
    }
}

fn digit_str(d: u64) -> (r: &'static str)
    requires
        d < 10,
    ensures
        r@ == seq![spec_digit(d as nat)],
{
    if d == 0 {
        proof {
            reveal_strlit("0");
            assert("0"@ =~= seq!['0']);
        }
        "0"
    } else if d == 1 {
        proof {
            reveal_strlit("1");
            assert("1"@ =~= seq!['1']);
        }
        "1"
    } else if d == 2 {
        proof {
            reveal_strlit("2");
            assert("2"@ =~= seq!['2']);
        }
        "2"
    } else if d == 3 {
        proof {
            reveal_strlit("3");
            assert("3"@ =~= seq!['3']);
        }
        "3"
    } else if d == 4 {
        proof {
            reveal_strlit("4");
            assert("4"@ =~= seq!['4']);
        }
        "4"
    } else if d == 5 {
        proof {
            reveal_strlit("5");
            assert("5"@ =~= seq!['5']);
        }
        "5"
    } else if d == 6 {
        proof {
            reveal_strlit("6");
            assert("6"@ =~= seq!['6']);
        }
        "6"
    } else if d == 7 {
        proof {
            reveal_strlit("7");
            assert("7"@ =~= seq!['7']);
        }
        "7"
    } else if d == 8 {
        proof {
            reveal_strlit("8");
            assert("8"@ =~= seq!['8']);
        }
        "8"
    } else {
        proof {
            reveal_strlit("9");
            assert("9"@ =~= seq!['9']);
        }
        "9"
    }
}

/// Renders a number in decimal.
pub fn u64_dec(n: u64) -> (r: String)
    ensures
        r@ == spec_udec(n as nat),
    decreases n,
{
    if n < 10 {
        String::from_str(digit_str(n))
    } else {
        let mut s = u64_dec(n / 10);
        s.append(digit_str(n % 10));
        s
    }
}

/// The largest unit whose multiplier is at most `bytes`; `Byte` when even
/// the Kilo multiplier exceeds `bytes`. A count sitting exactly on a
/// multiplier selects that unit.
pub open spec fn spec_auto_unit(bytes: nat) -> Unit {
    if bytes >= spec_scale(Unit::Tera) {
        Unit::Tera
    } else if bytes >= spec_scale(Unit::Giga) {
        Unit::Giga
    } else if bytes >= spec_scale(Unit::Mega) {
        Unit::Mega
    } else if bytes >= spec_scale(Unit::Kilo) {
        Unit::Kilo
    } else {
        Unit::Byte
    }
}

/// The rendering of `bytes` expressed in unit `u`: the whole number of bytes
/// for `Byte`, otherwise the scaled value truncated to one decimal digit,
/// each followed by the unit's suffix.
pub open spec fn spec_format(bytes: nat, u: Unit) -> Seq<char> {
    if u == Unit::Byte {
        spec_udec(bytes) + spec_suffix(u)
    } else {
        spec_udec(bytes / spec_scale(u)) + seq!['.'] + seq![
            spec_digit(((bytes % spec_scale(u)) * 10) / spec_scale(u)),
        ] + spec_suffix(u)
    }
}

/// Whether a character is a decimal digit.
pub open spec fn is_dec_digit(c: char) -> bool {
    c == '0' || c == '1' || c == '2' || c == '3' || c == '4' || c == '5' || c == '6' || c == '7'
        || c == '8' || c == '9'
}

/// A decimal rendering is never empty and consists of digit characters only.
pub proof fn lemma_udec_digits(n: nat)
    ensures
        spec_udec(n).len() > 0,
        forall|i: int| 0 <= i < spec_udec(n).len() ==> is_dec_digit(#[trigger] spec_udec(n)[i]),
    decreases n,
{
    if n < 10 {
        assert(is_dec_digit(spec_digit(n)));
    } else {
        lemma_udec_digits(n / 10);
        let head = spec_udec(n / 10);
        assert forall|i: int| 0 <= i < spec_udec(n).len() implies is_dec_digit(
            #[trigger] spec_udec(n)[i],
        ) by {
            if i < head.len() {
                assert(spec_udec(n)[i] == head[i]);
            } else {
                assert(spec_udec(n)[i] == spec_digit(n % 10));
            }
        }
    }
}

/// Auto-detection selects the largest qualifying unit: unless it fell back
/// to `Byte`, the chosen unit's multiplier is at most the byte count, and no
/// unit whose multiplier the count reaches is larger than the chosen one.
pub proof fn lemma_auto_detect_largest(bytes: nat)
    ensures
        spec_auto_unit(bytes) != Unit::Byte ==> spec_scale(spec_auto_unit(bytes)) <= bytes,
        forall|u: Unit|
            #[trigger] spec_scale(u) <= bytes ==> spec_scale(u) <= spec_scale(
                spec_auto_unit(bytes),
            ),
{
    assert forall|u: Unit| #[trigger] spec_scale(u) <= bytes implies spec_scale(u) <= spec_scale(
        spec_auto_unit(bytes),
    ) by {
        match u {
            Unit::Byte => {},
            Unit::Kilo => {},
            Unit::Mega => {},
            Unit::Giga => {},
            Unit::Tera => {},
        }
    }
}

/// A byte count together with the unit it is displayed in.
#[derive(Clone, Copy, PartialEq, Eq, Structural, Debug)]
pub struct Amount {
    pub bytes: u64,
    pub unit: Unit,
}

impl Amount {
    /// An amount displayed in an explicitly chosen unit.
    pub fn new(bytes: u64, unit: Unit) -> (r: Amount)
        ensures
            r.bytes == bytes,
            r.unit == unit,
    {
        Amount { bytes, unit }
    }

    /// An amount displayed in the largest unit whose multiplier the count
    /// reaches, falling back to `Byte` for small counts.
    pub fn auto_detect(bytes: u64) -> (r: Amount)
        ensures
            r.bytes == bytes,
            r.unit == spec_auto_unit(bytes as nat),
    {
        let unit = if bytes >= 1099511627776 {
            Unit::Tera
        } else if bytes >= 1073741824 {
            Unit::Giga
        } else if bytes >= 1048576 {
            Unit::Mega
        } else if bytes >= 1024 {
            Unit::Kilo
        } else {
            Unit::Byte
        };
        Amount { bytes, unit }
    }

    /// Renders the amount, e.g. `"999B"` or `"2.3M"`.
    pub fn format(&self) -> (r: String)
        ensures
            r@ == spec_format(self.bytes as nat, self.unit),
    {
        if matches!(self.unit, Unit::Byte) {
            let mut s = u64_dec(self.bytes);
            s.append(self.unit.suffix());
            s
        } else {
            let sc = self.unit.scale();
            assert(sc >= 1024) by {
                assert(self.unit != Unit::Byte);
            };
            let whole = self.bytes / sc;
            let rem = self.bytes % sc;
            assert(rem < sc && sc <= 1099511627776);
            assert((rem as int * 10) / (sc as int) < 10) by (nonlinear_arith)
                requires
                    rem < sc,
                    sc >= 1,
            ;
            let tenth = (rem * 10) / sc;
            let mut s = u64_dec(whole);
            proof {
                reveal_strlit(".");
                assert("."@ =~= seq!['.']);
            }
            s.append(".");
            s.append(digit_str(tenth));
            s.append(self.unit.suffix());
            s
        }
    }
}

} // verus!
