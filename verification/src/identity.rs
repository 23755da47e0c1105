//! Session identity: a two-valued key (a time-derived fraction and a random
//! fraction), each held as a whole number of ten-millionths of a unit, and
//! its encoding into a fixed-width decimal string that names a staging
//! session on disk.

use vstd::prelude::*;

verus! {

/// Number of ten-millionth steps in one unit: identity components lie in
/// `0 .. FRACTION_UNITS`, standing for a fraction in `[0, 1)`.
pub const FRACTION_UNITS: u64 = 10000000;

/// Digits of each component in the encoded string.
pub const COMPONENT_WIDTH: u64 = 7;

/// Two-valued session key: a value derived from the wall clock and a value
/// drawn from a random source, both fractions in `[0, 1)` held in
/// ten-millionths.
#[derive(Clone, Copy, Debug, PartialEq, Eq, Structural)]
pub struct SessionIdentity {
    pub time_part: u64,
    pub rand_part: u64,
}

impl SessionIdentity {
    /// Both components are normalized fractions below one unit.
    pub open spec fn wf(self) -> bool {
        self.time_part < FRACTION_UNITS && self.rand_part < FRACTION_UNITS
    }
}

/// The decimal digit character for `d`.
pub open spec fn digit_char(d: nat) -> char {
    if d == 0 {
        '0'
    } else if d == 1 {
        '1'
    } else if d == 2 {
        '2'
    } else if d == 3 {
        '3'
    } else if d == 4 {
        '4'
    } else if d == 5 {
        '5'
    } else if d == 6 {
        '6'
    } else if d == 7 {
        '7'
    } else if d == 8 {
        '8'
    } else {
        '9'
    }
}

/// The `width` low decimal digits of `n`, most significant first, padded
/// with leading zeros.
pub open spec fn fixed_decimal(n: nat, width: nat) -> Seq<char>
    decreases width,
{
    if width == 0 {
        Seq::empty()
    } else {
        fixed_decimal(n / 10, (width - 1) as nat).push(digit_char(n % 10))
    }
}

/// A one-character string slice holding the decimal digit `d`.
pub(crate) fn digit_str(d: u64) -> (r: &'static str)
    requires
        d < 10,
    ensures
        r@ =~= seq![digit_char(d as nat)],
{
    proof {
        reveal_strlit("0");
        reveal_strlit("1");
        reveal_strlit("2");
        reveal_strlit("3");
        reveal_strlit("4");
        reveal_strlit("5");
        reveal_strlit("6");
        reveal_strlit("7");
        reveal_strlit("8");
        reveal_strlit("9");
    }
    if d == 0 {
        "0"
    } else if d == 1 {
        "1"
    } else if d == 2 {
        "2"
    } else if d == 3 {
        "3"
    } else if d == 4 {
        "4"
    } else if d == 5 {
        "5"
    } else if d == 6 {
        "6"
    } else if d == 7 {
        "7"
    } else if d == 8 {
        "8"
    } else {
        "9"
    }
}

/// `n` written as exactly `width` decimal digits, leading zeros kept.
fn encode_fixed(n: u64, width: u64) -> (r: String)
    ensures
        r@ == fixed_decimal(n as nat, width as nat),
    decreases width,
{
    if width == 0 {
        let r = String::new();
        proof {
            assert(r@ =~= fixed_decimal(n as nat, 0));
        }
        r
    } else {
        let mut r = encode_fixed(n / 10, width - 1);
        r.append(digit_str(n % 10));
        proof {
            assert(r@ =~= fixed_decimal(n as nat, width as nat));
        }
        r
    }
}

/// `n` written as exactly seven decimal digits, leading zeros kept.
pub fn encode_component(n: u64) -> (r: String)
    requires
        n < FRACTION_UNITS,
    ensures
        r@ == fixed_decimal(n as nat, COMPONENT_WIDTH as nat),
{
    encode_fixed(n, COMPONENT_WIDTH)
}

/// The encoded form of an identity: the seven fixed-width decimal digits of
/// the time part followed by the seven of the random part.
pub open spec fn spec_encode(id: SessionIdentity) -> Seq<char> {
    fixed_decimal(id.time_part as nat, COMPONENT_WIDTH as nat) + fixed_decimal(
        id.rand_part as nat,
        COMPONENT_WIDTH as nat,
    )
}

/// Encode an identity into the fixed-width decimal string that keys its
/// staging session. Equal identities always yield equal strings, and by
/// `lemma_encode_injective` distinct identities yield distinct strings.
pub fn encode(id: &SessionIdentity) -> (r: String)
    requires
        id.wf(),
    ensures
        r@ == spec_encode(*id),
{
    let mut s = encode_component(id.time_part);
    let t = encode_component(id.rand_part);
    s.append(t.as_str());
    s
}

/// Ten to the `w`.
pub open spec fn pow10(w: nat) -> nat
    decreases w,
{
    if w == 0 {
        1
    } else {
        10 * pow10((w - 1) as nat)
    }
}

/// A fixed-width rendering has exactly its width of digits.
pub proof fn lemma_fixed_decimal_len(n: nat, w: nat)
    ensures
        fixed_decimal(n, w).len() == w,
    decreases w,
{
    if w > 0 {
        lemma_fixed_decimal_len(n / 10, (w - 1) as nat);
    }
}

/// Distinct digits render as distinct characters.
proof fn lemma_digit_char_injective(a: nat, b: nat)
    requires
        a < 10,
        b < 10,
        digit_char(a) == digit_char(b),
    ensures
        a == b,
{
}

/// Within its width, the fixed-width decimal rendering is injective.
pub proof fn lemma_fixed_decimal_injective(a: nat, b: nat, w: nat)
    requires
        a < pow10(w),
        b < pow10(w),
        fixed_decimal(a, w) == fixed_decimal(b, w),
    ensures
        a == b,
    decreases w,
{
    if w == 0 {
        assert(a == 0 && b == 0);
    } else {
        let wp = (w - 1) as nat;
        lemma_fixed_decimal_len(a / 10, wp);
        lemma_fixed_decimal_len(b / 10, wp);
        let sa = fixed_decimal(a / 10, wp);
        let sb = fixed_decimal(b / 10, wp);
        assert(sa.push(digit_char(a % 10)) == sb.push(digit_char(b % 10)));
        assert(sa.push(digit_char(a % 10))[wp as int] == digit_char(a % 10));
        assert(sb.push(digit_char(b % 10))[wp as int] == digit_char(b % 10));
        lemma_digit_char_injective(a % 10, b % 10);
        assert forall|i: int| 0 <= i < wp implies sa[i] == sb[i] by {
            assert(sa.push(digit_char(a % 10))[i] == sb.push(digit_char(b % 10))[i]);
            assert(sa.push(digit_char(a % 10))[i] == sa[i]);
            assert(sb.push(digit_char(b % 10))[i] == sb[i]);
        }
        assert(sa =~= sb);
        assert(a / 10 < pow10(wp)) by {
            if a / 10 >= pow10(wp) {
                vstd::arithmetic::div_mod::lemma_fundamental_div_mod(a as int, 10);
                assert(10 * (a as int / 10) >= 10 * pow10(wp)) by (nonlinear_arith)
                    requires
                        a as int / 10 >= pow10(wp),
                ;
            }
        }
        assert(b / 10 < pow10(wp)) by {
            if b / 10 >= pow10(wp) {
                vstd::arithmetic::div_mod::lemma_fundamental_div_mod(b as int, 10);
                assert(10 * (b as int / 10) >= 10 * pow10(wp)) by (nonlinear_arith)
                    requires
                        b as int / 10 >= pow10(wp),
                ;
            }
        }
        lemma_fixed_decimal_injective(a / 10, b / 10, wp);
        vstd::arithmetic::div_mod::lemma_fundamental_div_mod(a as int, 10);
        vstd::arithmetic::div_mod::lemma_fundamental_div_mod(b as int, 10);
    }
}

/// Law: encoding is injective on well-formed identities — two identities
/// that encode to the same string are the same session, so distinct
/// sessions never collide on a staging directory name.
pub proof fn lemma_encode_injective(a: SessionIdentity, b: SessionIdentity)
    requires
        a.wf(),
        b.wf(),
        spec_encode(a) == spec_encode(b),
    ensures
        a == b,
{
    let w = COMPONENT_WIDTH as nat;
    let at = fixed_decimal(a.time_part as nat, w);
    let ar = fixed_decimal(a.rand_part as nat, w);
    let bt = fixed_decimal(b.time_part as nat, w);
    let br = fixed_decimal(b.rand_part as nat, w);
    lemma_fixed_decimal_len(a.time_part as nat, w);
    lemma_fixed_decimal_len(a.rand_part as nat, w);
    lemma_fixed_decimal_len(b.time_part as nat, w);
    lemma_fixed_decimal_len(b.rand_part as nat, w);
    assert(at =~= (at + ar).subrange(0, w as int));
    assert(ar =~= (at + ar).subrange(w as int, 2 * w as int));
    assert(bt =~= (bt + br).subrange(0, w as int));
    assert(br =~= (bt + br).subrange(w as int, 2 * w as int));
    assert(pow10(w) == FRACTION_UNITS) by {
        reveal_with_fuel(pow10, 8);
    }
    lemma_fixed_decimal_injective(a.time_part as nat, b.time_part as nat, w);
    lemma_fixed_decimal_injective(a.rand_part as nat, b.rand_part as nat, w);
}

/// The time-derived fraction: the fractional part, in ten-millionths, of one
/// billion divided by the second count, or zero when the clock reads zero.
pub open spec fn time_fraction(secs: u64) -> int {
    if secs == 0 {
        0
    } else {
        (10000000000000000int / (secs as int)) % (FRACTION_UNITS as int)
    }
}

/// Map a wall-clock second count to a normalized fraction in ten-millionths.
pub fn time_to_fraction(secs: u64) -> (r: u64)
    ensures
        r == time_fraction(secs),
        r < FRACTION_UNITS,
{
    if secs == 0 {
        0
    } else {
        (10000000000000000u64 / secs) % FRACTION_UNITS
    }
}

/// Relies on std::time::SystemTime::now and duration_since: seconds elapsed
/// since the Unix epoch, or zero if the clock reads earlier than the epoch.
/// Nothing is promised of the value: it depends on the machine's clock.
#[verifier::external_body]
fn now_unix_seconds() -> u64 {
    std::time::SystemTime::now()
        .duration_since(std::time::UNIX_EPOCH)
        .map(|d| d.as_secs())
        .unwrap_or(0)
}

/// Relies on rand::rngs::ThreadRng and rand::Rng::gen_range: a uniformly
/// drawn value in `0 .. n`. Beyond the range bound nothing is promised: the
/// value depends on the generator's state.
#[verifier::external_body]
pub(crate) fn random_below(n: u64) -> (r: u64)
    requires
        n >= 1,
    ensures
        r < n,
{
    rand::Rng::gen_range(&mut rand::thread_rng(), 0..n)
}

/// Derive a fresh session identity: the time part from the wall clock, the
/// random part from the process random source, both normalized fractions.
pub fn derive_identity() -> (r: SessionIdentity)
    ensures
        r.wf(),
{
    let secs = now_unix_seconds();
    let time_part = time_to_fraction(secs);
    let rand_part = random_below(FRACTION_UNITS);
    SessionIdentity { time_part, rand_part }
}

} // verus!
