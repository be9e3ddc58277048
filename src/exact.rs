//! Exact meaning of conversion formulas, and the laws of the conversion table.
//!
//! A number is modelled as a ratio `(numerator, denominator)` of integers and
//! pi as any positive ratio, so a law proved here holds whatever value pi
//! takes.
use vstd::prelude::*;

use crate::conversion::{conversion_table, Constant, Step};
use crate::units::Units;

verus! {

pub open spec fn pow10(n: nat) -> int
    decreases n,
{
    if n == 0 {
        1
    } else {
        10 * pow10((n - 1) as nat)
    }
}

/// The value of a constant, with `pi` standing for pi.
pub open spec fn constant_ratio(c: Constant, pi: (int, int)) -> (int, int) {
    match c {
        Constant::Decimal { digits, scale } => (digits as int, pow10(scale as nat)),
        Constant::Pi => pi,
    }
}

pub open spec fn apply_step(s: Step, x: (int, int), pi: (int, int)) -> (int, int) {
    match s {
        Step::Multiply(c) => {
            let k = constant_ratio(c, pi);
            (x.0 * k.0, x.1 * k.1)
        },
        Step::Divide(c) => {
            let k = constant_ratio(c, pi);
            (x.0 * k.1, x.1 * k.0)
        },
        Step::Add(c) => {
            let k = constant_ratio(c, pi);
            (x.0 * k.1 + k.0 * x.1, x.1 * k.1)
        },
        Step::Subtract(c) => {
            let k = constant_ratio(c, pi);
            (x.0 * k.1 - k.0 * x.1, x.1 * k.1)
        },
    }
}

/// The result of applying the steps to `x`, first to last.
pub open spec fn evaluate(steps: Seq<Step>, x: (int, int), pi: (int, int)) -> (int, int)
    decreases steps.len(),
{
    if steps.len() == 0 {
        x
    } else {
        evaluate(steps.drop_first(), apply_step(steps[0], x, pi), pi)
    }
}

/// Two ratios denote the same number.
pub open spec fn same_ratio(a: (int, int), b: (int, int)) -> bool {
    a.0 * b.1 == b.0 * a.1
}

pub open spec fn inverse_step(s: Step) -> Step {
    match s {
        Step::Multiply(c) => Step::Divide(c),
        Step::Divide(c) => Step::Multiply(c),
        Step::Add(c) => Step::Subtract(c),
        Step::Subtract(c) => Step::Add(c),
    }
}

/// The formula that undoes `steps`: the inverse steps in reverse order.
pub open spec fn inverse(steps: Seq<Step>) -> Seq<Step>
    decreases steps.len(),
{
    if steps.len() == 0 {
        steps
    } else {
        inverse(steps.drop_first()).push(inverse_step(steps[0]))
    }
}

pub open spec fn positive_constant(c: Constant) -> bool {
    match c {
        Constant::Decimal { digits, scale } => digits > 0,
        Constant::Pi => true,
    }
}

pub open spec fn step_constant(s: Step) -> Constant {
    match s {
        Step::Multiply(c) => c,
        Step::Divide(c) => c,
        Step::Add(c) => c,
        Step::Subtract(c) => c,
    }
}

pub open spec fn positive_constants(steps: Seq<Step>) -> bool {
    forall|i: int| 0 <= i < steps.len() ==> positive_constant(#[trigger] step_constant(steps[i]))
}

pub open spec fn positive_ratio(pi: (int, int)) -> bool {
    pi.0 > 0 && pi.1 > 0
}

proof fn lemma_pow10_positive(n: nat)
    ensures
        pow10(n) > 0,
    decreases n,
{
    if n > 0 {
        lemma_pow10_positive((n - 1) as nat);
    }
}

proof fn lemma_constant_positive(c: Constant, pi: (int, int))
    requires
        positive_constant(c),
        positive_ratio(pi),
    ensures
        positive_ratio(constant_ratio(c, pi)),
{
    if let Constant::Decimal { digits, scale } = c {
        lemma_pow10_positive(scale as nat);
    }
}

proof fn lemma_same_ratio_transitive(a: (int, int), b: (int, int), c: (int, int))
    requires
        same_ratio(a, b),
        same_ratio(b, c),
        b.1 > 0,
    ensures
        same_ratio(a, c),
{
    assert((a.0 * c.1 - c.0 * a.1) * b.1 == 0) by (nonlinear_arith)
        requires
            a.0 * b.1 == b.0 * a.1,
            b.0 * c.1 == c.0 * b.1,
    ;
    assert(a.0 * c.1 - c.0 * a.1 == 0) by (nonlinear_arith)
        requires
            (a.0 * c.1 - c.0 * a.1) * b.1 == 0,
            b.1 > 0,
    ;
}

proof fn lemma_offset_congruent(x0: int, x1: int, y0: int, y1: int, k0: int, k1: int)
    requires
        x0 * y1 == y0 * x1,
    ensures
        (x0 * k1 + k0 * x1) * (y1 * k1) == (y0 * k1 + k0 * y1) * (x1 * k1),
{
    assert((x0 * k1 + k0 * x1) * (y1 * k1) == (x0 * k1) * (y1 * k1) + (k0 * x1) * (y1 * k1))
        by (nonlinear_arith);
    assert((y0 * k1 + k0 * y1) * (x1 * k1) == (y0 * k1) * (x1 * k1) + (k0 * y1) * (x1 * k1))
        by (nonlinear_arith);
    assert((x0 * k1) * (y1 * k1) == (x0 * y1) * (k1 * k1)) by (nonlinear_arith);
    assert((y0 * k1) * (x1 * k1) == (y0 * x1) * (k1 * k1)) by (nonlinear_arith);
    assert((k0 * x1) * (y1 * k1) == (k0 * y1) * (x1 * k1)) by (nonlinear_arith);
}

/// A step keeps denominators positive and maps equal numbers to equal numbers.
proof fn lemma_step_congruent(s: Step, x: (int, int), y: (int, int), pi: (int, int))
    requires
        positive_constant(step_constant(s)),
        positive_ratio(pi),
        x.1 > 0,
        y.1 > 0,
        same_ratio(x, y),
    ensures
        apply_step(s, x, pi).1 > 0,
        same_ratio(apply_step(s, x, pi), apply_step(s, y, pi)),
{
    let k = constant_ratio(step_constant(s), pi);
    lemma_constant_positive(step_constant(s), pi);
    let (x0, x1, y0, y1, k0, k1) = (x.0, x.1, y.0, y.1, k.0, k.1);
    assert(x1 * k1 > 0 && x1 * k0 > 0) by (nonlinear_arith)
        requires
            x1 > 0,
            k0 > 0,
            k1 > 0,
    ;
    match s {
        Step::Multiply(c) => {
            assert((x0 * k0) * (y1 * k1) == (y0 * k0) * (x1 * k1)) by (nonlinear_arith)
                requires
                    x0 * y1 == y0 * x1,
            ;
        },
        Step::Divide(c) => {
            assert((x0 * k1) * (y1 * k0) == (y0 * k1) * (x1 * k0)) by (nonlinear_arith)
                requires
                    x0 * y1 == y0 * x1,
            ;
        },
        Step::Add(c) => {
            lemma_offset_congruent(x0, x1, y0, y1, k0, k1);
        },
        Step::Subtract(c) => {
            lemma_offset_congruent(x0, x1, y0, y1, -k0, k1);
            assert((-k0) * x1 == -(k0 * x1) && (-k0) * y1 == -(k0 * y1)) by (nonlinear_arith);
        },
    }
}

/// The inverse of a step undoes it.
proof fn lemma_step_undone(s: Step, x: (int, int), pi: (int, int))
    requires
        positive_constant(step_constant(s)),
        positive_ratio(pi),
        x.1 > 0,
    ensures
        same_ratio(apply_step(inverse_step(s), apply_step(s, x, pi), pi), x),
{
    let k = constant_ratio(step_constant(s), pi);
    lemma_constant_positive(step_constant(s), pi);
    let (x0, x1, k0, k1) = (x.0, x.1, k.0, k.1);
    match s {
        Step::Multiply(c) => {
            assert((x0 * k0 * k1) * x1 == x0 * (x1 * k1 * k0)) by (nonlinear_arith);
        },
        Step::Divide(c) => {
            assert((x0 * k1 * k0) * x1 == x0 * (x1 * k0 * k1)) by (nonlinear_arith);
        },
        Step::Add(c) => {
            assert(((x0 * k1 + k0 * x1) * k1 - k0 * (x1 * k1)) * x1 == x0 * (x1 * k1 * k1))
                by (nonlinear_arith);
        },
        Step::Subtract(c) => {
            assert(((x0 * k1 - k0 * x1) * k1 + k0 * (x1 * k1)) * x1 == x0 * (x1 * k1 * k1))
                by (nonlinear_arith);
        },
    }
}

proof fn lemma_evaluate_push(steps: Seq<Step>, s: Step, x: (int, int), pi: (int, int))
    ensures
        evaluate(steps.push(s), x, pi) == apply_step(s, evaluate(steps, x, pi), pi),
    decreases steps.len(),
{
    let q = steps.push(s);
    assert(q[0] == if steps.len() == 0 { s } else { steps[0] });
    if steps.len() == 0 {
        assert(q.drop_first() =~= steps);
        assert(evaluate(q.drop_first(), apply_step(s, x, pi), pi) == apply_step(s, x, pi));
    } else {
        assert(steps.push(s)[0] == steps[0]);
        assert(steps.push(s).drop_first() =~= steps.drop_first().push(s));
        lemma_evaluate_push(steps.drop_first(), s, apply_step(steps[0], x, pi), pi);
    }
}

proof fn lemma_rest_positive(steps: Seq<Step>)
    requires
        positive_constants(steps),
        steps.len() > 0,
    ensures
        positive_constant(step_constant(steps[0])),
        positive_constants(steps.drop_first()),
{
    let rest = steps.drop_first();
    assert forall|i: int| 0 <= i < rest.len() implies positive_constant(
        #[trigger] step_constant(rest[i]),
    ) by {
        assert(step_constant(rest[i]) == step_constant(steps[i + 1]));
    }
}

proof fn lemma_evaluate_congruent(steps: Seq<Step>, x: (int, int), y: (int, int), pi: (int, int))
    requires
        positive_constants(steps),
        positive_ratio(pi),
        x.1 > 0,
        y.1 > 0,
        same_ratio(x, y),
    ensures
        evaluate(steps, x, pi).1 > 0,
        same_ratio(evaluate(steps, x, pi), evaluate(steps, y, pi)),
    decreases steps.len(),
{
    if steps.len() > 0 {
        lemma_step_congruent(steps[0], x, y, pi);
        lemma_step_congruent(steps[0], y, x, pi);
        let rest = steps.drop_first();
        lemma_rest_positive(steps);
        lemma_evaluate_congruent(rest, apply_step(steps[0], x, pi), apply_step(steps[0], y, pi), pi);
    }
}

/// Applying a formula and then its inverse gives back the number started from.
pub proof fn lemma_inverse_undoes(steps: Seq<Step>, x: (int, int), pi: (int, int))
    requires
        positive_constants(steps),
        positive_ratio(pi),
        x.1 > 0,
    ensures
        same_ratio(evaluate(inverse(steps), evaluate(steps, x, pi), pi), x),
    decreases steps.len(),
{
    if steps.len() == 0 {
        assert(x.0 * x.1 == x.0 * x.1);
    } else {
        let t = steps[0];
        let rest = steps.drop_first();
        lemma_rest_positive(steps);
        let z = apply_step(t, x, pi);
        lemma_step_congruent(t, x, x, pi);
        let w = evaluate(rest, z, pi);
        let back = evaluate(inverse(rest), w, pi);
        lemma_inverse_undoes(rest, z, pi);
        lemma_evaluate_push(inverse(rest), inverse_step(t), w, pi);
        lemma_evaluate_congruent(rest, z, z, pi);
        lemma_evaluate_positive_inverse(rest, w, pi);
        assert(positive_constant(step_constant(inverse_step(t))));
        lemma_step_congruent(inverse_step(t), back, z, pi);
        lemma_step_undone(t, x, pi);
        lemma_step_congruent(inverse_step(t), z, z, pi);
        lemma_same_ratio_transitive(
            apply_step(inverse_step(t), back, pi),
            apply_step(inverse_step(t), z, pi),
            x,
        );
    }
}

proof fn lemma_evaluate_positive_inverse(steps: Seq<Step>, x: (int, int), pi: (int, int))
    requires
        positive_constants(steps),
        positive_ratio(pi),
        x.1 > 0,
    ensures
        positive_constants(inverse(steps)),
        evaluate(inverse(steps), x, pi).1 > 0,
{
    lemma_inverse_positive(steps);
    lemma_evaluate_congruent(inverse(steps), x, x, pi);
}

proof fn lemma_inverse_positive(steps: Seq<Step>)
    requires
        positive_constants(steps),
    ensures
        positive_constants(inverse(steps)),
        inverse(steps).len() == steps.len(),
    decreases steps.len(),
{
    if steps.len() > 0 {
        let rest = steps.drop_first();
        lemma_rest_positive(steps);
        lemma_inverse_positive(rest);
        let inv = inverse(steps);
        assert forall|i: int| 0 <= i < inv.len() implies positive_constant(
            #[trigger] step_constant(inv[i]),
        ) by {
            if i < rest.len() {
                assert(inv[i] == inverse(rest)[i]);
            } else {
                assert(step_constant(inv[i]) == step_constant(steps[0]));
            }
        }
    }
}

/// Where the table lists both directions between two units, the entry for
/// one direction is the inverse of the entry for the other, and every
/// constant in it is positive.
pub proof fn lemma_table_entries_inverse(from: Units, to: Units)
    requires
        conversion_table(from, to) is Some,
        conversion_table(to, from) is Some,
    ensures
        conversion_table(to, from)->0 == inverse(conversion_table(from, to)->0),
        positive_constants(conversion_table(from, to)->0),
{
    reveal_with_fuel(inverse, 4);
    let forward = conversion_table(from, to)->0;
    assert(conversion_table(to, from)->0 =~= inverse(forward));
}

/// Converting a value to another unit and back gives the value again,
/// exactly, for every pair of units whose table lists both directions and
/// whatever positive ratio stands for pi.
pub proof fn lemma_round_trip(from: Units, to: Units, x: (int, int), pi: (int, int))
    requires
        conversion_table(from, to) is Some,
        conversion_table(to, from) is Some,
        x.1 > 0,
        positive_ratio(pi),
    ensures
        same_ratio(
            evaluate(
                conversion_table(to, from)->0,
                evaluate(conversion_table(from, to)->0, x, pi),
                pi,
            ),
            x,
        ),
{
    lemma_table_entries_inverse(from, to);
    lemma_inverse_undoes(conversion_table(from, to)->0, x, pi);
}

/// A latitude of `degrees` degrees is held as `degrees * pi / 180` radians.
pub proof fn lemma_degrees_to_radians(degrees: int, pi: (int, int))
    ensures
        same_ratio(
            evaluate(conversion_table(Units::Degrees, Units::Radians)->0, (degrees, 1), pi),
            (degrees * pi.0, 180 * pi.1),
        ),
{
    let steps = conversion_table(Units::Degrees, Units::Radians)->0;
    reveal_with_fuel(evaluate, 3);
    assert(steps.drop_first().drop_first() =~= Seq::<Step>::empty());
    assert(evaluate(steps, (degrees, 1), pi) == (degrees * pi.0 * 1, 1 * pi.1 * 180));
    assert((degrees * pi.0 * 1) * (180 * pi.1) == (degrees * pi.0) * (1 * pi.1 * 180))
        by (nonlinear_arith);
}

/// The meters in one unit of a distance that may be recorded as a daily
/// total, as a ratio.
pub open spec fn meters_per(u: Units) -> (int, int) {
    match u {
        Units::Kilometers => (1000, 1),
        Units::Miles => (160934, 100),
        _ => (1, 1),
    }
}

/// A distance recorded as a daily total converts to a speed in meters per
/// second by expressing it in meters and dividing by the 86400 seconds of a
/// day.
pub proof fn lemma_daily_total_speed(u: Units, x: int, pi: (int, int))
    requires
        u == Units::Meters || u == Units::Kilometers || u == Units::Miles,
    ensures
        same_ratio(
            evaluate(conversion_table(u, Units::MetersPerSecond)->0, (x, 1), pi),
            (x * meters_per(u).0, meters_per(u).1 * 86400),
        ),
{
    reveal_with_fuel(evaluate, 3);
    reveal_with_fuel(pow10, 3);
    let steps = conversion_table(u, Units::MetersPerSecond)->0;
    if u == Units::Meters {
        assert(steps.drop_first() =~= Seq::<Step>::empty());
        assert(x * (1 * 86400) == (x * 1) * (1 * 86400)) by (nonlinear_arith);
    } else {
        assert(steps.drop_first().drop_first() =~= Seq::<Step>::empty());
        let m = meters_per(u);
        assert(evaluate(steps, (x, 1), pi) == (x * m.0 * 1, 1 * m.1 * 86400));
        assert((x * m.0 * 1) * (m.1 * 86400) == (x * m.0) * (1 * m.1 * 86400))
            by (nonlinear_arith);
    }
}

/// Converting a daily total of kilometers or miles straight to a speed gives
/// the same number as going through the units that the table links it with:
/// kilometers through meters, miles through kilometers.
pub proof fn lemma_daily_total_composes(x: int, pi: (int, int))
    ensures
        same_ratio(
            evaluate(
                conversion_table(Units::Kilometers, Units::MetersPerSecond)->0,
                (x, 1),
                pi,
            ),
            evaluate(
                conversion_table(Units::Meters, Units::MetersPerSecond)->0,
                evaluate(conversion_table(Units::Kilometers, Units::Meters)->0, (x, 1), pi),
                pi,
            ),
        ),
        same_ratio(
            evaluate(conversion_table(Units::Miles, Units::MetersPerSecond)->0, (x, 1), pi),
            evaluate(
                conversion_table(Units::Kilometers, Units::MetersPerSecond)->0,
                evaluate(conversion_table(Units::Miles, Units::Kilometers)->0, (x, 1), pi),
                pi,
            ),
        ),
{
    reveal_with_fuel(evaluate, 3);
    reveal_with_fuel(pow10, 6);
    let km = conversion_table(Units::Kilometers, Units::MetersPerSecond)->0;
    let mi = conversion_table(Units::Miles, Units::MetersPerSecond)->0;
    let m = conversion_table(Units::Meters, Units::MetersPerSecond)->0;
    let km_m = conversion_table(Units::Kilometers, Units::Meters)->0;
    let mi_km = conversion_table(Units::Miles, Units::Kilometers)->0;
    assert(km.drop_first().drop_first() =~= Seq::<Step>::empty());
    assert(mi.drop_first().drop_first() =~= Seq::<Step>::empty());
    assert(m.drop_first() =~= Seq::<Step>::empty());
    assert(km_m.drop_first() =~= Seq::<Step>::empty());
    assert(mi_km.drop_first() =~= Seq::<Step>::empty());
    assert(evaluate(km, (x, 1), pi) == (x * 1000 * 1, 1int * 1 * 86400));
    assert(evaluate(km_m, (x, 1), pi) == (x * 1000, 1int * 1));
    assert(evaluate(m, (x * 1000, 1int * 1), pi) == (x * 1000 * 1, 1int * 1 * 86400));
    assert(evaluate(mi, (x, 1), pi) == (x * 160934 * 1, 1int * 100 * 86400));
    assert(evaluate(mi_km, (x, 1), pi) == (x * 160934, 1int * 100000));
    assert(evaluate(km, (x * 160934, 1int * 100000), pi) == (x * 160934 * 1000 * 1, 1int * 100000
        * 1 * 86400));
    assert((x * 160934 * 1) * (1 * 100000 * 1 * 86400) == (x * 160934 * 1000 * 1) * (1 * 100
        * 86400)) by (nonlinear_arith);
}

} // verus!
