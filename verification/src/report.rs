//! Rate-line formatting: one report line per closed sampling window.
//!
//! A line renders the window's byte count as an amount (explicit unit or
//! auto-detected), a `/s` suffix and a newline; optionally a bracketed
//! RFC 3339 timestamp is prepended.

use crate::units::{
    is_dec_digit, lemma_udec_digits, spec_auto_unit, spec_digit, spec_format, spec_scale,
    spec_suffix, spec_udec, Amount, Unit,
};
use vstd::prelude::*;

verus! {

/// The unit-selection mode supplied once at startup: a fixed explicit unit,
/// or auto-detection from each window's byte count.
#[derive(Clone, Copy, PartialEq, Eq, Structural, Debug)]
pub enum SelectedUnit {
    Unit(Unit),
    Auto,
}

/// The unit a byte count is displayed in under a selection mode: the
/// explicit unit when one was chosen, the auto-detected one otherwise.
pub open spec fn spec_selected_unit(bytes: nat, mode: SelectedUnit) -> Unit {
    match mode {
        SelectedUnit::Unit(u) => u,
        SelectedUnit::Auto => spec_auto_unit(bytes),
    }
}

/// The body of a report line: the formatted amount, `/s`, and a newline.
pub open spec fn spec_rate_body(bytes: nat, mode: SelectedUnit) -> Seq<char> {
    spec_format(bytes, spec_selected_unit(bytes, mode)) + seq!['/', 's', '\n']
}

/// A full report line carrying timestamp `ts`: the timestamp in square
/// brackets, a space, then the line body.
pub open spec fn spec_stamped_line(
    line: Seq<char>,
    ts: Seq<char>,
    bytes: nat,
    mode: SelectedUnit,
) -> bool {
    &&& ts.len() > 0
    &&& forall|i: int| 0 <= i < ts.len() ==> ts[i] != ']' && ts[i] != '\n'
    &&& line == seq!['['] + ts + seq![']', ' '] + spec_rate_body(bytes, mode)
}

/// Builds one report line from a closed window's byte count, the unit mode,
/// and an optional already-rendered timestamp.
pub fn compose_rate_line(bytes: u64, mode: SelectedUnit, ts: Option<&str>) -> (r: String)
    ensures
        ts is None ==> r@ == spec_rate_body(bytes as nat, mode),
        ts is Some ==> r@ == seq!['['] + ts->0@ + seq![']', ' '] + spec_rate_body(
            bytes as nat,
            mode,
        ),
{
    let amount = match mode {
        SelectedUnit::Unit(u) => Amount::new(bytes, u),
        SelectedUnit::Auto => Amount::auto_detect(bytes),
    };
    let mut body = amount.format();
    proof {
        reveal_strlit("/s\n");
        assert("/s\n"@ =~= seq!['/', 's', '\n']);
    }
    body.append("/s\n");
    match ts {
        None => body,
        Some(t) => {
            proof {
                reveal_strlit("[");
                assert("["@ =~= seq!['[']);
                reveal_strlit("] ");
                assert("] "@ =~= seq![']', ' ']);
            }
            let mut line = String::from_str("[");
            line.append(t);
            line.append("] ");
            line.append(body.as_str());
            proof {
                assert(line@ =~= seq!['['] + t@ + seq![']', ' '] + spec_rate_body(
                    bytes as nat,
                    mode,
                ));
            }
            line
        },
    }
}

/// Relies on chrono's `Local::now` and `DateTime::to_rfc3339`: the current
/// local date-time rendered per RFC 3339, which is built only from decimal
/// digits and the punctuation `-`, `:`, `T`, `.`, `+`, so it is never empty
/// and never contains `]` or a newline.
#[verifier::external_body]
fn now_rfc3339() -> (r: String)
    ensures
        r@.len() > 0,
        forall|i: int| 0 <= i < r@.len() ==> r@[i] != ']' && r@[i] != '\n',
{
    chrono::Local::now().to_rfc3339()
}

/// Builds one report line for a closed window, stamping it with the current
/// wall-clock time when `timestamp` is set.
pub fn rate_line(bytes: u64, mode: SelectedUnit, timestamp: bool) -> (r: String)
    ensures
        !timestamp ==> r@ == spec_rate_body(bytes as nat, mode),
        timestamp ==> exists|ts: Seq<char>|
            #[trigger] spec_stamped_line(r@, ts, bytes as nat, mode),
        timestamp ==> r@.len() > 0 && r@[0] == '[',
{
    if timestamp {
        let ts = now_rfc3339();
        let line = compose_rate_line(bytes, mode, Some(ts.as_str()));
        proof {
            assert(spec_stamped_line(line@, ts@, bytes as nat, mode));
            assert(line@[0] == '[');
        }
        line
    } else {
        compose_rate_line(bytes, mode, None)
    }
}

/// Whether a character sequence is free of the `[` marker that opens a
/// timestamp prefix.
pub open spec fn no_bracket(s: Seq<char>) -> bool {
    forall|i: int| 0 <= i < s.len() ==> s[i] != '['
}

proof fn lemma_no_bracket_concat(a: Seq<char>, b: Seq<char>)
    requires
        no_bracket(a),
        no_bracket(b),
    ensures
        no_bracket(a + b),
{
    assert forall|i: int| 0 <= i < (a + b).len() implies (a + b)[i] != '[' by {
        if i < a.len() {
            assert((a + b)[i] == a[i]);
        } else {
            assert((a + b)[i] == b[i - a.len()]);
        }
    }
}

proof fn lemma_udec_no_bracket(n: nat)
    ensures
        no_bracket(spec_udec(n)),
{
    lemma_udec_digits(n);
    assert forall|i: int| 0 <= i < spec_udec(n).len() implies spec_udec(n)[i] != '[' by {
        assert(is_dec_digit(spec_udec(n)[i]));
    }
}

/// Explicit unit overrides auto-detection, and a line without a timestamp
/// never contains `[`: whatever the byte count, a report line under an
/// explicit unit mode renders the count in exactly that unit, and the whole
/// unstamped line is free of the character that opens a timestamp prefix.
/// Together with `rate_line`'s contract — a stamped line starts with `[` —
/// this pins the timestamp toggle down.
pub proof fn lemma_rate_body(bytes: nat, mode: SelectedUnit)
    ensures
        forall|u: Unit|
            mode == SelectedUnit::Unit(u) ==> spec_rate_body(bytes, mode) == spec_format(
                bytes,
                u,
            ) + seq!['/', 's', '\n'],
        spec_rate_body(bytes, mode).len() > 0,
        no_bracket(spec_rate_body(bytes, mode)),
{
    let u = spec_selected_unit(bytes, mode);
    lemma_udec_no_bracket(bytes);
    lemma_udec_no_bracket(bytes / spec_scale(u));
    assert(no_bracket(spec_suffix(u)));
    assert(no_bracket(seq!['.']));
    assert(no_bracket(seq!['/', 's', '\n']));
    if u == Unit::Byte {
        lemma_no_bracket_concat(spec_udec(bytes), spec_suffix(u));
    } else {
        let d = seq![spec_digit(((bytes % spec_scale(u)) * 10) / spec_scale(u))];
        assert(is_dec_digit(d[0]));
        assert(no_bracket(d));
        lemma_no_bracket_concat(spec_udec(bytes / spec_scale(u)), seq!['.']);
        lemma_no_bracket_concat(spec_udec(bytes / spec_scale(u)) + seq!['.'], d);
        lemma_no_bracket_concat(spec_udec(bytes / spec_scale(u)) + seq!['.'] + d, spec_suffix(u));
    }
    lemma_no_bracket_concat(spec_format(bytes, u), seq!['/', 's', '\n']);
}

} // verus!
