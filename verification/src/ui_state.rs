//! Host-owned editor state: the gain model the widgets edit and the text
//! shown beside each slider. The widgets themselves belong to an outside
//! UI toolkit; what they display — a value rendered to one decimal place
//! followed by its unit label — is computed and stated here.

use vstd::prelude::*;

use crate::identity::{digit_char, digit_str};
use crate::processor::GainModel;
use crate::stager::dec_digits;

verus! {

/// `v` tenths of a unit rendered to one decimal place, a space, and the
/// unit label: the sign, the whole part, a dot, the tenths digit.
pub open spec fn spec_format_tenths(v: int, unit: Seq<char>) -> Seq<char> {
    let sign: Seq<char> = if v < 0 {
        "-"@
    } else {
        Seq::empty()
    };
    let a = (if v < 0 {
        -v
    } else {
        v
    }) as nat;
    sign + dec_digits(a / 10) + "."@ + seq![digit_char(a % 10)] + " "@ + unit
}

/// Render a value held in tenths of a unit to one decimal place, with its
/// unit label, replacing the previous text.
pub fn format_value(value_text: &mut String, value_tenths: i64, unit: &str)
    requires
        value_tenths > i64::MIN,
    ensures
        final(value_text)@ == spec_format_tenths(value_tenths as int, unit@),
{
    proof {
        reveal_strlit("-");
        reveal_strlit(".");
        reveal_strlit(" ");
    }
    let mut s = String::new();
    let a: u64;
    if value_tenths < 0 {
        s.append("-");
        a = (-value_tenths) as u64;
    } else {
        a = value_tenths as u64;
    }
    let digits = crate::stager::u64_to_decimal(a / 10);
    s.append(digits.as_str());
    s.append(".");
    s.append(digit_str(a % 10));
    s.append(" ");
    s.append(unit);
    proof {
        assert(s@ =~= spec_format_tenths(value_tenths as int, unit@));
    }
    *value_text = s;
}

/// Refresh the displayed text only when the parameter reports a change, so
/// automation updates reach the label without rewriting it every frame.
pub fn update_value_text(value_text: &mut String, did_change: bool, value_tenths: i64, unit: &str)
    requires
        value_tenths > i64::MIN,
    ensures
        did_change ==> final(value_text)@ == spec_format_tenths(value_tenths as int, unit@),
        !did_change ==> final(value_text)@ == old(value_text)@,
{
    if did_change {
        format_value(value_text, value_tenths, unit);
    }
}

/// Editor state: the gain model under edit and the rendered text of each
/// gain value.
pub struct State {
    pub model: GainModel,
    pub gain_master_value: String,
    pub gain_left_value: String,
    pub gain_right_value: String,
}

impl State {
    /// Fresh editor state over the given model, with no text rendered yet.
    pub fn new(model: GainModel) -> (r: State)
        ensures
            r.model == model,
            r.gain_master_value@ == Seq::<char>::empty(),
            r.gain_left_value@ == Seq::<char>::empty(),
            r.gain_right_value@ == Seq::<char>::empty(),
    {
        State {
            model,
            gain_master_value: String::new(),
            gain_left_value: String::new(),
            gain_right_value: String::new(),
        }
    }
}

} // verus!
