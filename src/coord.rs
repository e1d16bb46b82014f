use vstd::prelude::*;
use vstd::string::*;

verus! {

/// Fixed precision of the seconds component: seconds are stored in units of
/// one ten-thousandth.
pub const SECONDS_PRECISION: u32 = 10_000;

/// Ticks in an arc-minute. An angle is held as a signed count of ticks, one
/// tick being a ten-thousandth of an arc-second.
pub const TICKS_PER_MINUTE: u64 = 600_000;

/// Ticks in a degree.
pub const TICKS_PER_DEGREE: u64 = 36_000_000;

/// An unsigned fraction: the form of each component of a GPS angle tag.
#[derive(Clone, Copy, Debug, PartialEq, Eq, Structural)]
pub struct Rational {
    pub numerator: u32,
    pub denominator: u32,
}

/// An exact signed number of degrees, `numerator / denominator`.
#[derive(Clone, Copy, Debug, PartialEq, Eq, Structural)]
pub struct DecimalDegrees {
    pub numerator: i128,
    pub denominator: u128,
}

/// The hemisphere letter for a value of the given sign on the given axis.
pub open spec fn hemisphere_code(negative: bool, is_longitude: bool) -> Seq<char> {
    if is_longitude {
        if negative { seq!['W'] } else { seq!['E'] }
    } else {
        if negative { seq!['S'] } else { seq!['N'] }
    }
}

/// A hemisphere reference denotes a negative value when it is `W` or `S`,
/// in either case.
pub open spec fn ref_is_negative(r: Seq<char>) -> bool {
    r.len() == 1 && (r[0] == 'W' || r[0] == 'w' || r[0] == 'S' || r[0] == 's')
}

pub open spec fn abs_ticks(value: int) -> nat {
    if value < 0 { (-value) as nat } else { value as nat }
}

/// The whole degrees of an angle fit in the numerator of a tag component.
pub open spec fn fits_triple(value: i64) -> bool {
    abs_ticks(value as int) / (TICKS_PER_DEGREE as nat) <= u32::MAX as nat
}

/// Degrees and minutes truncated, seconds kept with four decimals, of an
/// angle of `abs` ticks.
pub open spec fn dms_of(abs: nat) -> Seq<(u32, u32)> {
    seq![
        ((abs / 36_000_000) as u32, 1u32),
        (((abs % 36_000_000) / 600_000) as u32, 1u32),
        ((abs % 600_000) as u32, 10_000u32),
    ]
}

pub open spec fn rationals_view(v: Seq<Rational>) -> Seq<(u32, u32)> {
    v.map_values(|q: Rational| (q.numerator, q.denominator))
}

/// Magnitude of degrees + minutes / 60 + seconds / 3600 over the common
/// denominator of the three fractions.
pub open spec fn dms_magnitude(d: Seq<(u32, u32)>) -> int {
    d[0].0 * d[1].1 * d[2].1 * 3600 + d[1].0 * d[0].1 * d[2].1 * 60 + d[2].0 * d[0].1 * d[1].1
}

pub open spec fn dms_denominator(d: Seq<(u32, u32)>) -> int {
    d[0].1 * d[1].1 * d[2].1 * 3600
}

/// The signed value of a degree/minute/second triple as (numerator,
/// denominator); zero when fewer than three components are given.
pub open spec fn decode_dms(d: Seq<(u32, u32)>, negative: bool) -> (int, int) {
    if d.len() < 3 {
        (0, 1)
    } else {
        (if negative { -dms_magnitude(d) } else { dms_magnitude(d) }, dms_denominator(d))
    }
}

proof fn lemma_mul_le(a: int, b: int, x: int, y: int)
    requires
        0 <= a <= x,
        0 <= b <= y,
    ensures
        0 <= a * b <= x * y,
{
    assert(0 <= a * b <= x * y) by (nonlinear_arith)
        requires
            0 <= a <= x,
            0 <= b <= y,
    ;
}

fn literal(s: &str) -> (r: String)
    ensures
        r@ == s@,
{
    s.to_owned()
}

/// The hemisphere letter of a fixed-point angle and its magnitude in ticks.
pub fn get_direction_and_abs(value: i64, is_longitude: bool) -> (r: (String, u64))
    ensures
        r.0@ == hemisphere_code(value < 0, is_longitude),
        r.1 as nat == abs_ticks(value as int),
{
    let abs: u64 = if value >= 0 {
        value as u64
    } else {
        (0i128 - value as i128) as u64
    };
    let code = if is_longitude {
        if value >= 0 {
            proof { reveal_strlit("E"); }
            literal("E")
        } else {
            proof { reveal_strlit("W"); }
            literal("W")
        }
    } else {
        if value >= 0 {
            proof { reveal_strlit("N"); }
            literal("N")
        } else {
            proof { reveal_strlit("S"); }
            literal("S")
        }
    };
    (code, abs)
}

/// Seconds, already scaled by the fixed precision, as a tag component.
pub fn convert_seconds_to_rational(scaled_seconds: u32) -> (r: Rational)
    ensures
        r.numerator == scaled_seconds,
        r.denominator == SECONDS_PRECISION,
{
    Rational { numerator: scaled_seconds, denominator: SECONDS_PRECISION }
}

/// Splits a fixed-point angle into its hemisphere letter and its
/// degree/minute/second triple.
pub fn decimal_to_dms(value: i64, is_longitude: bool) -> (r: (String, Vec<Rational>))
    requires
        fits_triple(value),
    ensures
        r.0@ == hemisphere_code(value < 0, is_longitude),
        rationals_view(r.1@) == dms_of(abs_ticks(value as int)),
{
    let (direction, abs) = get_direction_and_abs(value, is_longitude);
    let degrees = abs / TICKS_PER_DEGREE;
    let within_degree = abs % TICKS_PER_DEGREE;
    let minutes = within_degree / TICKS_PER_MINUTE;
    let seconds = abs % TICKS_PER_MINUTE;
    assert(within_degree / 600_000 < 60) by (nonlinear_arith)
        requires
            within_degree < 36_000_000,
    ;
    let dms = vec![
        Rational { numerator: degrees as u32, denominator: 1 },
        Rational { numerator: minutes as u32, denominator: 1 },
        convert_seconds_to_rational(seconds as u32),
    ];
    assert(rationals_view(dms@) =~= dms_of(abs_ticks(value as int)));
    (direction, dms)
}

/// Whether a hemisphere reference is `W` or `S`, in either case.
pub fn is_negative_ref(ref_str: &str) -> (r: bool)
    ensures
        r == ref_is_negative(ref_str@),
{
    if ref_str.unicode_len() != 1 {
        return false;
    }
    let c = ref_str.get_char(0);
    c == 'W' || c == 'w' || c == 'S' || c == 's'
}

/// The exact value of a degree/minute/second triple in degrees, negated for
/// the `W` and `S` hemispheres; zero when fewer than three components are
/// given. A component with a zero denominator gives a zero denominator.
pub fn dms_to_decimal(dms: &[Rational], ref_str: &str) -> (r: DecimalDegrees)
    ensures
        (r.numerator as int, r.denominator as int) == decode_dms(
            rationals_view(dms@),
            ref_is_negative(ref_str@),
        ),
{
    if dms.len() < 3 {
        return DecimalDegrees { numerator: 0, denominator: 1 };
    }
    let ghost d = rationals_view(dms@);
    let dn = dms[0].numerator as u128;
    let dd = dms[0].denominator as u128;
    let mn = dms[1].numerator as u128;
    let md = dms[1].denominator as u128;
    let sn = dms[2].numerator as u128;
    let sd = dms[2].denominator as u128;
    let ghost m: int = u32::MAX as int;
    proof {
        lemma_mul_le(dd as int, md as int, m, m);
        lemma_mul_le(dd * md, sd as int, m * m, m);
        lemma_mul_le(dn as int, md as int, m, m);
        lemma_mul_le(dn * md, sd as int, m * m, m);
        lemma_mul_le(mn as int, dd as int, m, m);
        lemma_mul_le(mn * dd, sd as int, m * m, m);
        lemma_mul_le(sn as int, dd as int, m, m);
        lemma_mul_le(sn * dd, md as int, m * m, m);
        assert(m * m * m * 3600 * 4 < u128::MAX);
    }
    let den: u128 = dd * md * sd * 3600;
    let degrees_part: u128 = dn * md * sd * 3600;
    let minutes_part: u128 = mn * dd * sd * 60;
    let seconds_part: u128 = sn * dd * md;
    let magnitude: u128 = degrees_part + minutes_part + seconds_part;
    proof {
        assert(d[0] == (dms@[0].numerator, dms@[0].denominator));
        assert(d[1] == (dms@[1].numerator, dms@[1].denominator));
        assert(d[2] == (dms@[2].numerator, dms@[2].denominator));
        assert(magnitude as int == dms_magnitude(d)) by (nonlinear_arith)
            requires
                magnitude as int == dn * md * sd * 3600 + mn * dd * sd * 60 + sn * dd * md,
                d[0].0 == dn,
                d[0].1 == dd,
                d[1].0 == mn,
                d[1].1 == md,
                d[2].0 == sn,
                d[2].1 == sd,
        ;
        assert(den as int == dms_denominator(d)) by (nonlinear_arith)
            requires
                den as int == dd * md * sd * 3600,
                d[0].1 == dd,
                d[1].1 == md,
                d[2].1 == sd,
        ;
    }
    let value = magnitude as i128;
    if is_negative_ref(ref_str) {
        DecimalDegrees { numerator: -value, denominator: den }
    } else {
        DecimalDegrees { numerator: value, denominator: den }
    }
}

/// Encoding a fixed-point angle and decoding the triple with the hemisphere
/// letter gives back exactly the same angle: the decoded fraction equals
/// `value / TICKS_PER_DEGREE` degrees.
pub proof fn codec_round_trip(value: i64, is_longitude: bool)
    requires
        fits_triple(value),
    ensures
        ({
            let d = decode_dms(
                dms_of(abs_ticks(value as int)),
                ref_is_negative(hemisphere_code(value < 0, is_longitude)),
            );
            d.0 * (TICKS_PER_DEGREE as int) == (value as int) * d.1 && d.1 == TICKS_PER_DEGREE as int
        }),
{
    let a = abs_ticks(value as int);
    let d = dms_of(a);
    assert(ref_is_negative(hemisphere_code(value < 0, is_longitude)) == (value < 0));
    assert(a == (a / 36_000_000) * 36_000_000 + ((a % 36_000_000) / 600_000) * 600_000 + a % 600_000)
        by (nonlinear_arith);
    assert(dms_magnitude(d) == a) by (nonlinear_arith)
        requires
            d[0] == ((a / 36_000_000) as u32, 1u32),
            d[1] == (((a % 36_000_000) / 600_000) as u32, 1u32),
            d[2] == ((a % 600_000) as u32, 10_000u32),
            (a / 36_000_000) as u32 == a / 36_000_000,
            a == (a / 36_000_000) * 36_000_000 + ((a % 36_000_000) / 600_000) * 600_000 + a % 600_000,
    ;
}

} // verus!
