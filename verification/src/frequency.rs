use vstd::prelude::*;

use crate::text::{
    all_digits, decimal, decimal_len, digits_value, lemma_all_digits_subrange,
    lemma_decimal_digits, lemma_decimal_len_bound, lemma_digits_value_concat,
    lemma_strip_trailing_zeros_split, lemma_zero_pad_value, lemma_zeros_value, pow10, push_decimal, push_range,
    push_repeated, push_str, strip_trailing_zeros, string_of, zero_pad, zeros,
};

verus! {

/// A radio frequency in whole hertz; never negative.
#[derive(Debug, Copy, Clone, PartialEq, Eq, Structural, PartialOrd, Ord, Hash)]
pub struct Frequency(i64);

/// Why a frequency could not be built.
#[derive(Debug, Copy, Clone, PartialEq, Eq, Structural)]
pub enum FrequencyError {
    NegativeHz(i64),
}

/// The hertz per display unit: the largest of GHz, MHz and kHz that the
/// frequency reaches, and plain hertz below one kilohertz.
pub open spec fn unit_factor(hz: int) -> int {
    if hz >= 1_000_000_000 {
        1_000_000_000
    } else if hz >= 1_000_000 {
        1_000_000
    } else if hz >= 1_000 {
        1_000
    } else {
        1
    }
}

/// The name of the display unit.
pub open spec fn unit_name(hz: int) -> Seq<char> {
    if hz >= 1_000_000_000 {
        seq!['G', 'H', 'z']
    } else if hz >= 1_000_000 {
        seq!['M', 'H', 'z']
    } else if hz >= 1_000 {
        seq!['k', 'H', 'z']
    } else {
        seq!['H', 'z']
    }
}

/// How many decimal places a unit has: 9, 6, 3, or 0 for hertz.
pub open spec fn unit_places(hz: int) -> nat {
    if hz >= 1_000_000_000 {
        9
    } else if hz >= 1_000_000 {
        6
    } else if hz >= 1_000 {
        3
    } else {
        0
    }
}

/// The fraction digits shown after the point: all significant digits of the
/// remainder, but never fewer than three; plain hertz show `000`.
pub open spec fn fraction_text(rem: nat, places: nat) -> Seq<char> {
    if places == 0 {
        seq!['0', '0', '0']
    } else {
        let full = zero_pad(decimal(rem), places);
        let trimmed = strip_trailing_zeros(full);
        if trimmed.len() >= 3 {
            trimmed
        } else {
            full.take(3)
        }
    }
}

/// The text of a frequency in megahertz with six decimals, such as
/// `145.600000`, as CHIRP's channel files write frequencies.
pub open spec fn mhz_text(hz: nat) -> Seq<char> {
    decimal(hz / 1_000_000) + seq!['.'] + zero_pad(decimal(hz % 1_000_000), 6)
}

/// The display text of a frequency of `hz` hertz, such as `145.700 MHz`.
pub open spec fn display_text(hz: nat) -> Seq<char> {
    let f = unit_factor(hz as int) as nat;
    decimal(hz / f) + seq!['.'] + fraction_text(hz % f, unit_places(hz as int)) + seq![' ']
        + unit_name(hz as int)
}

proof fn lemma_strip_prefix(s: Seq<char>, k: int)
    requires
        0 <= k <= s.len(),
        strip_trailing_zeros(s) == strip_trailing_zeros(s.subrange(0, k)),
        k > 0,
        s[k - 1] == '0',
    ensures
        strip_trailing_zeros(s) == strip_trailing_zeros(s.subrange(0, k - 1)),
{
    let t = s.subrange(0, k);
    assert(t.drop_last() =~= s.subrange(0, k - 1));
}

/// Appends the fraction digits of `rem` in a unit of `places` decimals.
fn push_fraction(out: &mut Vec<char>, rem: u64, places: usize)
    requires
        places == 3 || places == 6 || places == 9,
        rem < pow10(places as nat),
    ensures
        final(out)@ == old(out)@ + fraction_text(rem as nat, places as nat),
{
    let ghost start = out@;
    let len = decimal_len(rem);
    proof {
        lemma_decimal_len_bound(rem as nat, places as nat);
    }
    let mut full: Vec<char> = Vec::new();
    push_repeated(&mut full, '0', places - len);
    push_decimal(&mut full, rem);
    proof {
        if len < places {
            assert(full@ =~= zero_pad(decimal(rem as nat), places as nat));
        } else {
            assert(full@ =~= zero_pad(decimal(rem as nat), places as nat));
        }
        assert(full@.len() == places);
    }
    let mut k: usize = full.len();
    proof {
        assert(full@.subrange(0, k as int) =~= full@);
    }
    while k > 0 && full[k - 1] == '0'
        invariant
            k <= full.len(),
            strip_trailing_zeros(full@) == strip_trailing_zeros(full@.subrange(0, k as int)),
        decreases k,
    {
        proof {
            lemma_strip_prefix(full@, k as int);
        }
        k = k - 1;
    }
    proof {
        let t = full@.subrange(0, k as int);
        if k > 0 {
            assert(t.last() == full@[k - 1]);
        }
        assert(strip_trailing_zeros(t) == t);
    }
    if k >= 3 {
        push_range(out, &full, 0, k);
    } else {
        push_range(out, &full, 0, 3);
        proof {
            assert(full@.subrange(0, 3) =~= full@.take(3));
        }
    }
}

/// The name of the radio band a frequency lies in: `HF` below 30 MHz,
/// `VHF` from 30 MHz, `UHF` from 300 MHz and `SHF` from 3 GHz.
pub open spec fn band_name(hz: int) -> Seq<char> {
    if hz < 30_000_000 {
        seq!['H', 'F']
    } else if hz < 300_000_000 {
        seq!['V', 'H', 'F']
    } else if hz < 3_000_000_000 {
        seq!['U', 'H', 'F']
    } else {
        seq!['S', 'H', 'F']
    }
}

/// An integer as `Display` writes it: a minus sign when negative, then its
/// digits.
pub open spec fn signed_decimal(v: int) -> Seq<char> {
    if v < 0 {
        seq!['-'] + decimal((-v) as nat)
    } else {
        decimal(v as nat)
    }
}

/// The fraction of a display reads back as the remainder it was made from:
/// it has at most `places` digits, at least three, no trailing zero beyond
/// the third, and shifted to `places` places it is the remainder.
proof fn lemma_fraction_text_exact(rem: nat, places: nat)
    requires
        places == 3 || places == 6 || places == 9,
        rem < pow10(places),
    ensures
        ({
            let fr = fraction_text(rem, places);
            &&& all_digits(fr)
            &&& 3 <= fr.len() <= places
            &&& fr.len() > 3 ==> fr.last() != '0'
            &&& rem == digits_value(fr) * pow10((places - fr.len()) as nat)
        }),
{
    lemma_zero_pad_value(rem, places);
    let full = zero_pad(decimal(rem), places);
    assert(full.len() == places);
    let t = strip_trailing_zeros(full);
    lemma_strip_trailing_zeros_split(full);
    let k = (places - t.len()) as nat;
    lemma_zeros_value(k);
    lemma_digits_value_concat(t, zeros(k));
    assert(t =~= full.subrange(0, t.len() as int));
    lemma_all_digits_subrange(full, 0, t.len() as int);
    assert(rem == digits_value(t) * pow10(k) + 0);
    if t.len() < 3 {
        let head = full.take(3);
        let rest = full.subrange(3, places as int);
        assert(full =~= head + rest);
        assert(rest =~= zeros((places - 3) as nat)) by {
            assert forall|i: int| 0 <= i < rest.len() implies rest[i] == zeros((places - 3) as nat)[i] by {
                assert(rest[i] == full[3 + i]);
                assert(full[3 + i] == zeros(k)[3 + i - t.len()]);
            }
        }
        lemma_zeros_value((places - 3) as nat);
        lemma_digits_value_concat(head, rest);
        lemma_all_digits_subrange(full, 0, 3);
        assert(head =~= full.subrange(0, 3));
    }
}

/// A frequency's display loses no digit: its whole part and its fraction,
/// read back, give the frequency in hertz exactly; the fraction has at least
/// three digits and no trailing zero beyond the third; and the whole part is
/// below 1000 unless the unit is GHz.
pub proof fn lemma_display_is_exact(hz: nat)
    ensures
        ({
            let f = unit_factor(hz as int) as nat;
            let p = unit_places(hz as int);
            let whole = decimal(hz / f);
            let fr = fraction_text(hz % f, p);
            &&& all_digits(whole)
            &&& all_digits(fr)
            &&& fr.len() >= 3
            &&& fr.len() > 3 ==> fr.last() != '0'
            &&& p == 0 ==> f == 1 && digits_value(fr) == 0 && hz == digits_value(whole)
            &&& p > 0 ==> fr.len() <= p && hz == digits_value(whole) * f + digits_value(fr) * pow10(
                (p - fr.len()) as nat,
            )
            &&& f < 1_000_000_000 ==> hz / f < 1000
        }),
{
    let f = unit_factor(hz as int) as nat;
    let p = unit_places(hz as int);
    lemma_decimal_digits(hz / f);
    reveal_with_fuel(pow10, 10);
    if p == 0 {
        let fr = fraction_text(hz % f, p);
        assert(fr == seq!['0', '0', '0']);
        assert(all_digits(fr));
        assert(digits_value(fr) == 0) by {
            assert(fr =~= zeros(3));
            lemma_zeros_value(3);
        }
    } else {
        assert(pow10(p) == f);
        assert(hz % f < f) by (nonlinear_arith)
            requires
                f > 0,
        ;
        lemma_fraction_text_exact(hz % f, p);
        assert(hz == (hz / f) * f + hz % f) by (nonlinear_arith)
            requires
                f > 0,
        ;
    }
    if hz >= 1_000_000_000 {
    } else if hz >= 1_000_000 {
        assert(hz / 1_000_000 < 1000);
    } else if hz >= 1_000 {
        assert(hz / 1_000 < 1000);
    } else {
        assert(hz / 1 < 1000);
    }
}

/// The hertz a unit name stands for: 0 for a name that is no unit.
pub open spec fn unit_scale(name: Seq<char>) -> int {
    if name == seq!['G', 'H', 'z'] {
        1_000_000_000
    } else if name == seq!['M', 'H', 'z'] {
        1_000_000
    } else if name == seq!['k', 'H', 'z'] {
        1_000
    } else if name == seq!['H', 'z'] {
        1
    } else {
        0
    }
}

/// `10^(a + b)` is `10^a * 10^b`.
proof fn lemma_pow10_add(a: nat, b: nat)
    ensures
        pow10(a + b) == pow10(a) * pow10(b),
    decreases a,
{
    if a > 0 {
        let a1 = (a - 1) as nat;
        lemma_pow10_add(a1, b);
        let x = pow10(a1);
        let y = pow10(b);
        assert(a1 + b == (a + b - 1) as nat);
        assert(pow10(a + b) == 10 * pow10(a1 + b));
        assert(pow10(a) == 10 * x);
        assert(10 * (x * y) == (10 * x) * y) by (nonlinear_arith);
        assert(pow10(a + b) == pow10(a) * pow10(b));
    } else {
        assert(pow10(a) == 1);
        assert(a + b == b);
    }
}

/// A frequency's display text reads back as the frequency: it is a whole
/// number, a point, at least three fraction digits, a space and the name of
/// a unit, and that number times the hertz of the named unit is the
/// frequency. The unit is the largest one the frequency reaches: the whole
/// number is at least 1 unless the unit is hertz, and below 1000 unless it
/// is GHz.
pub proof fn lemma_display_reads_back(hz: nat)
    ensures
        exists|whole: Seq<char>, fr: Seq<char>, name: Seq<char>|
            #![trigger digits_value(whole), digits_value(fr), unit_scale(name)]
            {
                &&& display_text(hz) == whole + seq!['.'] + fr + seq![' '] + name
                &&& whole.len() >= 1
                &&& all_digits(whole)
                &&& all_digits(fr)
                &&& fr.len() >= 3
                &&& unit_scale(name) > 0
                &&& hz * pow10(fr.len()) == (digits_value(whole) * pow10(fr.len()) + digits_value(fr))
                    * unit_scale(name)
                &&& unit_scale(name) > 1 ==> digits_value(whole) >= 1
                &&& unit_scale(name) < 1_000_000_000 ==> digits_value(whole) < 1000
            },
{
    let f = unit_factor(hz as int) as nat;
    let p = unit_places(hz as int);
    let whole = decimal(hz / f);
    let fr = fraction_text(hz % f, p);
    let name = unit_name(hz as int);
    lemma_display_is_exact(hz);
    lemma_decimal_digits(hz / f);
    reveal_with_fuel(pow10, 10);
    assert(unit_scale(name) == f) by {
        let g = seq!['G', 'H', 'z'];
        let m = seq!['M', 'H', 'z'];
        let k = seq!['k', 'H', 'z'];
        let h = seq!['H', 'z'];
        assert(g[0] == 'G' && m[0] == 'M' && k[0] == 'k' && h.len() == 2 && g.len() == 3);
    }
    let l = fr.len();
    let w = digits_value(whole);
    let d = digits_value(fr);
    if p == 0 {
        assert(f == 1);
        assert(hz * pow10(l) == (w * pow10(l) + d) * unit_scale(name)) by (nonlinear_arith)
            requires
                hz == w,
                d == 0,
                unit_scale(name) == 1,
        ;
    } else {
        assert(pow10(p) == f);
        lemma_pow10_add((p - l) as nat, l);
        assert(hz * pow10(l) == (w * pow10(l) + d) * unit_scale(name)) by (nonlinear_arith)
            requires
                hz == w * f + d * pow10((p - l) as nat),
                pow10(p) == pow10((p - l) as nat) * pow10(l),
                pow10(p) == f,
                unit_scale(name) == f,
        ;
    }
    if f > 1 {
        assert(hz >= f);
        assert(hz / f >= 1) by (nonlinear_arith)
            requires
                hz >= f,
                f > 1,
        ;
    }
    assert(display_text(hz) == whole + seq!['.'] + fr + seq![' '] + name);
    assert(digits_value(whole) == digits_value(whole) && digits_value(fr) == digits_value(fr)
        && unit_scale(name) == unit_scale(name));
}

/// A frequency written in megahertz with six decimals loses no digit: the
/// text is the whole megahertz, a point and six digits, and read back it
/// gives the frequency in hertz exactly.
pub proof fn lemma_mhz_text_is_exact(hz: nat)
    ensures
        ({
            let whole = decimal(hz / 1_000_000);
            let frac = zero_pad(decimal(hz % 1_000_000), 6);
            &&& mhz_text(hz) == whole + seq!['.'] + frac
            &&& all_digits(whole)
            &&& all_digits(frac)
            &&& frac.len() == 6
            &&& hz == digits_value(whole) * 1_000_000 + digits_value(frac)
        }),
{
    lemma_decimal_digits(hz / 1_000_000);
    reveal_with_fuel(pow10, 7);
    lemma_zero_pad_value(hz % 1_000_000, 6);
}

impl FrequencyError {
    /// The message the error shows, such as
    /// `frequency must be >= 0 Hz, got -5`.
    pub fn to_string(&self) -> (r: String)
        ensures
            r@ == match *self {
                FrequencyError::NegativeHz(hz) => "frequency must be >= 0 Hz, got "@ + signed_decimal(
                    hz as int,
                ),
            },
    {
        match self {
            FrequencyError::NegativeHz(hz) => {
                let mut out = crate::text::chars_of("frequency must be >= 0 Hz, got ");
                let ghost prefix = out@;
                let v: i64 = *hz;
                if v < 0 {
                    out.push('-');
                    let magnitude: u64 = if v == i64::MIN {
                        9_223_372_036_854_775_808u64
                    } else {
                        (-v) as u64
                    };
                    push_decimal(&mut out, magnitude);
                    proof {
                        assert(out@ =~= prefix + signed_decimal(v as int));
                    }
                } else {
                    push_decimal(&mut out, v as u64);
                    proof {
                        assert(out@ =~= prefix + signed_decimal(v as int));
                    }
                }
                string_of(&out)
            },
        }
    }
}

impl Frequency {
    /// The frequency in hertz.
    pub closed spec fn spec_hz(self) -> int {
        self.0 as int
    }

    #[verifier::type_invariant]
    closed spec fn wf(self) -> bool {
        self.0 >= 0
    }

    /// Builds a frequency from hertz, refusing negative values.
    pub fn new_hz(hz: i64) -> (r: Result<Frequency, FrequencyError>)
        ensures
            hz < 0 ==> r == Err::<Frequency, FrequencyError>(FrequencyError::NegativeHz(hz)),
            hz >= 0 ==> (r matches Ok(f) && f.spec_hz() == hz),
    {
        if hz < 0 {
            return Err(FrequencyError::NegativeHz(hz));
        }
        Ok(Frequency(hz))
    }

    /// The frequency in hertz.
    pub fn hz(&self) -> (r: i64)
        ensures
            r == self.spec_hz(),
            r >= 0,
    {
        proof {
            use_type_invariant(self);
        }
        self.0
    }

    /// The frequency in megahertz with six decimals, such as `145.600000`.
    pub fn to_string_mhz(&self) -> (s: String)
        ensures
            s@ == mhz_text(self.spec_hz() as nat),
    {
        let hz = self.hz() as u64;
        let whole = hz / 1_000_000;
        let rem = hz % 1_000_000;
        let mut out: Vec<char> = Vec::new();
        push_decimal(&mut out, whole);
        out.push('.');
        let len = decimal_len(rem);
        proof {
            reveal_with_fuel(pow10, 7);
            lemma_decimal_len_bound(rem as nat, 6);
        }
        let ghost before = out@;
        push_repeated(&mut out, '0', 6 - len);
        push_decimal(&mut out, rem);
        proof {
            assert(out@ =~= before + zero_pad(decimal(rem as nat), 6));
            assert(out@ =~= mhz_text(hz as nat));
        }
        string_of(&out)
    }

    /// The frequency moved by `offset_hz` hertz; refused when the result
    /// would be negative or beyond `i64`.
    pub fn offset(&self, offset_hz: i64) -> (r: Result<Frequency, FrequencyError>)
        ensures
            ({
                let target = self.spec_hz() + offset_hz;
                &&& target > i64::MAX ==> r is Err
                &&& target < 0 ==> r is Err
                &&& 0 <= target <= i64::MAX ==> (r matches Ok(f) && f.spec_hz() == target)
            }),
    {
        let hz = self.hz();
        match hz.checked_add(offset_hz) {
            Some(target) => Frequency::new_hz(target),
            None => Err(FrequencyError::NegativeHz(offset_hz)),
        }
    }

    /// The band the frequency lies in, a label for a port that has none.
    pub fn band_label(&self) -> (r: &'static str)
        ensures
            r@ == band_name(self.spec_hz()),
    {
        let hz = self.hz();
        if hz < 30_000_000 {
            let r = "HF";
            proof {
                reveal_strlit("HF");
            }
            r
        } else if hz < 300_000_000 {
            let r = "VHF";
            proof {
                reveal_strlit("VHF");
            }
            r
        } else if hz < 3_000_000_000 {
            let r = "UHF";
            proof {
                reveal_strlit("UHF");
            }
            r
        } else {
            let r = "SHF";
            proof {
                reveal_strlit("SHF");
            }
            r
        }
    }

    /// Whether the frequency lies in `[from, to)` hertz.
    pub fn contained_in(&self, from: i64, to: i64) -> (r: bool)
        ensures
            r == (from <= self.spec_hz() && self.spec_hz() < to),
    {
        let hz = self.hz();
        from <= hz && hz < to
    }

    /// The frequency as people read it: the whole number of the largest unit
    /// it reaches (GHz, MHz, kHz, else Hz), a point, at least three decimals
    /// and as many more as it takes to lose no digit, a space and the unit.
    pub fn to_string(&self) -> (s: String)
        ensures
            s@ == display_text(self.spec_hz() as nat),
    {
        let hz = self.hz() as u64;
        let (factor, places, unit): (u64, usize, &str) = if hz >= 1_000_000_000 {
            (1_000_000_000, 9, "GHz")
        } else if hz >= 1_000_000 {
            (1_000_000, 6, "MHz")
        } else if hz >= 1_000 {
            (1_000, 3, "kHz")
        } else {
            (1, 0, "Hz")
        };
        proof {
            reveal_strlit("GHz");
            reveal_strlit("MHz");
            reveal_strlit("kHz");
            reveal_strlit("Hz");
            assert(unit@ == unit_name(hz as int));
            reveal_with_fuel(pow10, 10);
        }
        let whole = hz / factor;
        let rem = hz % factor;
        let mut out: Vec<char> = Vec::new();
        push_decimal(&mut out, whole);
        out.push('.');
        if places == 0 {
            out.push('0');
            out.push('0');
            out.push('0');
        } else {
            push_fraction(&mut out, rem, places);
        }
        out.push(' ');
        push_str(&mut out, unit);
        proof {
            assert(out@ =~= display_text(hz as nat));
        }
        string_of(&out)
    }
}

} // verus!
