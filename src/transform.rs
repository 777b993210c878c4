//! Unit conversion and output policy: from the two snapshots to the line
//! that is sent each tick.

use vstd::arithmetic::div_mod::{lemma_div_is_ordered, lemma_multiply_divide_lt};
use vstd::prelude::*;

use crate::snapshot::{FlightSnapshot, SessionSnapshot};
use crate::text::{centi_text, digit_char, digits_of, push_centi};

verus! {

/// `n / d` rounded to the nearest integer, halves away from zero.
pub open spec fn round_div(n: int, d: int) -> int {
    if n >= 0 {
        (n + d / 2) / d
    } else {
        -((-n + d / 2) / d)
    }
}

/// A pass-through value, from millionths to hundredths.
pub open spec fn centi_of(micro: int) -> int {
    round_div(micro, 10_000)
}

/// Indicated airspeed in hundredths of km/h: knots times 1.852.
pub open spec fn ias_kmh_centi(f: FlightSnapshot) -> int {
    round_div(f.kias * 1852, 10_000_000)
}

/// Vertical speed in hundredths: the rate times 0.3048.
pub open spec fn vspeed_kmh_centi(f: FlightSnapshot) -> int {
    round_div(f.z_dot * 3048, 100_000_000)
}

/// Speed brake deployment in hundredths of a percent: the fraction times 100.
pub open spec fn airbrake_pct_centi(f: FlightSnapshot) -> int {
    round_div(f.speed_brake as int, 100)
}

/// The on-ground field in hundredths: 1.00 on the ground, 0.00 otherwise.
pub open spec fn on_ground_centi(s: SessionSnapshot) -> int {
    if s.on_ground {
        100
    } else {
        0
    }
}

/// The nine fields of a line with real data, in hundredths, in wire order:
/// airspeed, vertical speed, angle of attack, g-force, gear, airbrake,
/// flaps (no source: always zero), thrust, on-ground.
pub open spec fn active_fields(f: FlightSnapshot, s: SessionSnapshot) -> Seq<int> {
    seq![
        ias_kmh_centi(f),
        vspeed_kmh_centi(f),
        centi_of(f.alpha as int),
        centi_of(s.g_force as int),
        centi_of(f.gear_pos as int),
        airbrake_pct_centi(f),
        0,
        centi_of(f.rpm as int),
        on_ground_centi(s),
    ]
}

/// The nine fields of a zeroed line.
pub open spec fn zero_fields() -> Seq<int> {
    seq![0, 0, 0, 0, 0, 0, 0, 0, 0]
}

/// Each field preceded by the delimiter.
pub open spec fn fields_text(fs: Seq<int>) -> Seq<char>
    decreases fs.len(),
{
    if fs.len() == 0 {
        seq![]
    } else {
        fields_text(fs.drop_last()) + seq![';'] + centi_text(fs.last())
    }
}

/// A wire line: the tag, the fields, and a newline.
pub open spec fn line_text(fs: Seq<int>) -> Seq<char> {
    seq!['b', 'm', 's'] + fields_text(fs) + seq!['\n']
}

/// Whether the session state asks for zeroed output.
pub open spec fn is_suppressed(s: SessionSnapshot) -> bool {
    s.paused || s.ejecting || s.end_flight
}

/// The fields sent for one tick.
pub open spec fn output_fields(f: FlightSnapshot, s: SessionSnapshot) -> Seq<int> {
    if is_suppressed(s) {
        zero_fields()
    } else {
        active_fields(f, s)
    }
}

/// The line sent for one tick.
pub open spec fn output_text(f: FlightSnapshot, s: SessionSnapshot) -> Seq<char> {
    line_text(output_fields(f, s))
}

pub open spec fn as_ints(v: Seq<i64>) -> Seq<int> {
    v.map_values(|x: i64| x as int)
}

/// Whether the tick sends real or zeroed data.
#[derive(Clone, Copy, Debug, PartialEq, Eq, Structural)]
pub enum Mode {
    Suppressed,
    Active,
}

/// Suppressed when the simulator is paused, the pilot ejects, or the flight ended.
pub fn decide_mode(s: &SessionSnapshot) -> (r: Mode)
    ensures
        r == (if is_suppressed(*s) {
            Mode::Suppressed
        } else {
            Mode::Active
        }),
{
    if s.paused || s.ejecting || s.end_flight {
        Mode::Suppressed
    } else {
        Mode::Active
    }
}

proof fn lemma_round_div_bound(n: int, d: int, b: int)
    requires
        0 < d,
        -b <= n <= b,
    ensures
        -((b + d / 2) / d) <= round_div(n, d) <= (b + d / 2) / d,
{
    if n >= 0 {
        lemma_div_is_ordered(n + d / 2, b + d / 2, d);
        lemma_div_is_ordered(0, n + d / 2, d);
    } else {
        lemma_div_is_ordered(-n + d / 2, b + d / 2, d);
        lemma_div_is_ordered(0, -n + d / 2, d);
    }
}

/// `n / d` rounded to the nearest integer, halves away from zero.
fn round_div_exec(n: i128, d: i128) -> (r: i128)
    requires
        0 < d <= 1_000_000_000,
        -0x1_0000_0000_0000_0000_0000 <= n <= 0x1_0000_0000_0000_0000_0000,
    ensures
        r == round_div(n as int, d as int),
{
    if n >= 0 {
        (n + d / 2) / d
    } else {
        -((-n + d / 2) / d)
    }
}

/// Scales `x * num` down by `den` with rounding; the result fits in an `i64`
/// as long as `2 * num <= den`.
fn scale(x: i64, num: i128, den: i128) -> (r: i64)
    requires
        0 < num <= 10_000,
        0 < den <= 1_000_000_000,
        2 * num <= den,
    ensures
        r == round_div(x as int * num as int, den as int),
{
    proof {
        let xi = x as int;
        let k = num as int;
        let d = den as int;
        let b: int = 0x8000_0000_0000_0000 * k;
        assert(-b <= xi * k <= b) by (nonlinear_arith)
            requires
                b == 0x8000_0000_0000_0000 * k,
                -0x8000_0000_0000_0000 <= xi <= 0x8000_0000_0000_0000,
                0 < k,
        ;
        lemma_round_div_bound(xi * k, d, b);
        assert(b + d / 2 < d * 0x7fff_ffff_ffff_ffff) by (nonlinear_arith)
            requires
                b == 0x8000_0000_0000_0000 * k,
                2 * k <= d,
                0 < k,
        ;
        lemma_multiply_divide_lt(b + d / 2, d, 0x7fff_ffff_ffff_ffff);
    }
    let n: i128 = x as i128 * num;
    round_div_exec(n, den) as i64
}

/// The on-ground field in hundredths.
pub fn compute_is_on_ground(s: &SessionSnapshot) -> (r: i64)
    ensures
        r == on_ground_centi(*s),
{
    if s.on_ground {
        100
    } else {
        0
    }
}

/// The nine fields of a line with real data, in hundredths.
pub fn compute_actual_fields(f: &FlightSnapshot, s: &SessionSnapshot) -> (r: Vec<i64>)
    ensures
        as_ints(r@) == active_fields(*f, *s),
        r@.len() == 9,
        r@[0] == round_div(f.kias * 1852, 10_000_000),
        r@[1] == round_div(f.z_dot * 3048, 100_000_000),
        r@[5] == round_div(f.speed_brake as int, 100),
        r@[6] == 0,
        r@[8] == (if s.on_ground {
            100int
        } else {
            0
        }),
{
    let mut v: Vec<i64> = Vec::new();
    v.push(scale(f.kias, 1852, 10_000_000));
    v.push(scale(f.z_dot, 3048, 100_000_000));
    v.push(scale(f.alpha, 1, 10_000));
    v.push(scale(s.g_force, 1, 10_000));
    v.push(scale(f.gear_pos, 1, 10_000));
    v.push(scale(f.speed_brake, 1, 100));
    v.push(0);
    v.push(scale(f.rpm, 1, 10_000));
    v.push(compute_is_on_ground(s));
    assert(as_ints(v@) =~= active_fields(*f, *s));
    assert(v@[0] == as_ints(v@)[0] && v@[1] == as_ints(v@)[1] && v@[5] == as_ints(v@)[5]);
    assert(v@[8] == as_ints(v@)[8]);
    v
}

/// Writes the line for the given fields: the tag, each field after the
/// delimiter with two decimals, and a newline.
pub fn render_line(fields: &Vec<i64>) -> (r: String)
    ensures
        r@ == line_text(as_ints(fields@)),
{
    let mut out = String::from_str("bms");
    proof {
        reveal_strlit("bms");
    }
    let mut i: usize = 0;
    while i < fields.len()
        invariant
            i <= fields@.len(),
            out@ == seq!['b', 'm', 's'] + fields_text(as_ints(fields@).take(i as int)),
        decreases fields@.len() - i,
    {
        let ghost before = out@;
        out.append(";");
        proof {
            reveal_strlit(";");
        }
        push_centi(&mut out, fields[i]);
        proof {
            let t = as_ints(fields@).take(i as int + 1);
            assert(t.drop_last() =~= as_ints(fields@).take(i as int));
            assert(out@ =~= seq!['b', 'm', 's'] + fields_text(t));
        }
        i = i + 1;
    }
    assert(as_ints(fields@).take(i as int) =~= as_ints(fields@));
    out.append("\n");
    proof {
        reveal_strlit("\n");
    }
    assert(out@ =~= line_text(as_ints(fields@)));
    out
}

/// The line with real data.
pub fn compute_actual_flight_data(f: &FlightSnapshot, s: &SessionSnapshot) -> (r: String)
    ensures
        r@ == line_text(active_fields(*f, *s)),
{
    let fields = compute_actual_fields(f, s);
    render_line(&fields)
}

/// The line with every field zero.
pub fn compute_zero_data() -> (r: String)
    ensures
        r@ == line_text(zero_fields()),
{
    let fields: Vec<i64> = vec![0, 0, 0, 0, 0, 0, 0, 0, 0];
    assert(as_ints(fields@) =~= zero_fields());
    render_line(&fields)
}

/// The line to send for one tick: zeroed when the session is suppressed,
/// real data otherwise.
pub fn flight_data_line(f: &FlightSnapshot, s: &SessionSnapshot) -> (r: String)
    ensures
        r@ == output_text(*f, *s),
{
    match decide_mode(s) {
        Mode::Suppressed => compute_zero_data(),
        Mode::Active => compute_actual_flight_data(f, s),
    }
}

/// Whenever the session is paused, ejecting or ending the flight, the line
/// is the all-zero line, whatever the flight record holds.
pub proof fn lemma_suppressed_sends_zero_line(f1: FlightSnapshot, f2: FlightSnapshot, s: SessionSnapshot)
    requires
        s.paused || s.ejecting || s.end_flight,
    ensures
        output_text(f1, s) == line_text(zero_fields()),
        output_text(f1, s) == output_text(f2, s),
{
}

/// With real data, the airspeed field is the indicated airspeed times 1.852,
/// the vertical speed field the rate times 0.3048, and the airbrake field
/// the speed brake fraction times 100, each rounded to two decimals.
pub proof fn lemma_active_conversions(f: FlightSnapshot, s: SessionSnapshot)
    requires
        !(s.paused || s.ejecting || s.end_flight),
    ensures
        output_fields(f, s).len() == 9,
        output_fields(f, s)[0] == round_div(f.kias * 1852, 10_000_000),
        output_fields(f, s)[1] == round_div(f.z_dot * 3048, 100_000_000),
        output_fields(f, s)[5] == round_div(f.speed_brake as int, 100),
{
}

/// The flaps field is zero on every line.
pub proof fn lemma_flaps_always_zero(f: FlightSnapshot, s: SessionSnapshot)
    ensures
        output_fields(f, s).len() == 9,
        output_fields(f, s)[6] == 0,
        centi_text(output_fields(f, s)[6]) == "0.00"@,
{
    reveal_strlit("0123456789");
    reveal_strlit("0.00");
    assert(centi_text(0) =~= "0.00"@);
}

/// With real data, the on-ground field reads `1.00` exactly when the session
/// says the aircraft is on the ground, and `0.00` otherwise.
pub proof fn lemma_on_ground_field(f: FlightSnapshot, s: SessionSnapshot)
    requires
        !(s.paused || s.ejecting || s.end_flight),
    ensures
        output_fields(f, s).len() == 9,
        centi_text(output_fields(f, s)[8]) == (if s.on_ground {
            "1.00"@
        } else {
            "0.00"@
        }),
{
    reveal_strlit("0123456789");
    reveal_strlit("0.00");
    reveal_strlit("1.00");
    assert(centi_text(0) =~= "0.00"@);
    assert(digits_of(1) == seq![digit_char(1)]);
    assert(centi_text(100) =~= "1.00"@);
}

} // verus!
