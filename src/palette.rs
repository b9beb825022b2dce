//! Chart colors: evenly spaced colors between two endpoints, and a random pick
//! from such a gradient.

use vstd::prelude::*;
use crate::text::{color_value, hex_color, hex_color_string, is_hex_color, parse_hex_color};

verus! {

/// Integer division rounding toward zero, as machine division does.
pub open spec fn trunc_div(a: int, n: int) -> int {
    if a >= 0 {
        a / n
    } else {
        -((-a) / n)
    }
}

/// The value of the `i`-th color of a gradient of `n` steps from `c1` to `c2`.
pub open spec fn step_value(c1: int, c2: int, n: int, i: int) -> int {
    c1 + i * trunc_div(c2 - c1, n)
}

/// The `n + 1` colors of a gradient from `a` to `b`: both endpoints as given, and
/// between them the colors a whole step apart, the step being the difference of
/// the endpoints divided by `n`.
pub open spec fn gradient(a: Seq<char>, b: Seq<char>, n: nat) -> Seq<Seq<char>> {
    Seq::new(
        n + 1,
        |i: int|
            if i == 0 {
                a
            } else if i == n {
                b
            } else {
                hex_color(step_value(color_value(a) as int, color_value(b) as int, n as int, i) as nat)
            },
    )
}

pub open spec fn palette_start() -> Seq<char> {
    seq!['#', '4', '1', '4', '4', '5', 'F']
}

pub open spec fn palette_end() -> Seq<char> {
    seq!['#', 'F', '9', 'B', '7', '5', '9']
}

/// The colors that chart elements may get: any color of a gradient between the
/// two palette endpoints with a number of steps that is a multiple of five,
/// from 5 to 145.
pub open spec fn is_palette_color(c: Seq<char>) -> bool {
    exists|k: nat, i: int|
        1 <= k < 30 && 0 <= i <= 5 * k && c == #[trigger] gradient(palette_start(), palette_end(), 5 * k)[i]
}

/// Returns the `count + 1` colors of the gradient from `color1` to `color2`.
pub fn get_inbetween_colors(color1: &str, color2: &str, count: usize) -> (r: Vec<String>)
    requires
        is_hex_color(color1@),
        is_hex_color(color2@),
        count > 0,
    ensures
        r@.map_values(|s: String| s@) == gradient(color1@, color2@, count as nat),
{
    let c1 = parse_hex_color(color1);
    let c2 = parse_hex_color(color2);
    let ghost g = gradient(color1@, color2@, count as nat);
    let rising = c2 >= c1;
    let span: u64 = if rising { (c2 - c1) as u64 } else { (c1 - c2) as u64 };
    let step: u64 = span / (count as u64);
    let mut array: Vec<String> = Vec::new();
    array.push(String::from_str(color1));
    let mut i: usize = 1;
    while i < count
        invariant
            1 <= i <= count,
            count > 0,
            c1 as nat == color_value(color1@),
            c2 as nat == color_value(color2@),
            c1 < 0x100_0000,
            c2 < 0x100_0000,
            rising == (c2 >= c1),
            span == if rising { c2 - c1 } else { c1 - c2 },
            step == span / (count as u64),
            g == gradient(color1@, color2@, count as nat),
            array@.len() == i,
            forall|j: int| 0 <= j < i ==> (#[trigger] array@[j])@ == g[j],
        decreases count - i,
    {
        proof {
            assert((i as u64) * step <= span) by (nonlinear_arith)
                requires
                    i < count,
                    step == span / (count as u64),
                    count > 0,
            ;
        }
        let offset: u64 = (i as u64) * step;
        let v: u32 = if rising { c1 + offset as u32 } else { c1 - offset as u32 };
        proof {
            let d = c2 as int - c1 as int;
            assert(trunc_div(d, count as int) == if rising { step as int } else { -(step as int) });
            assert(v as int == step_value(c1 as int, c2 as int, count as int, i as int)) by (nonlinear_arith)
                requires
                    trunc_div(d, count as int) == if rising { step as int } else { -(step as int) },
                    d == c2 as int - c1 as int,
                    offset == i * step,
                    v as int == if rising { c1 + offset } else { c1 - offset },
            ;
        }
        let s = hex_color_string(v);
        array.push(s);
        i = i + 1;
    }
    array.push(String::from_str(color2));
    proof {
        assert(array@.map_values(|s: String| s@) =~= g);
    }
    array
}

/// Relies on rand's `thread_rng` and `Rng::gen_range`: a value drawn from the
/// half-open range `low..high`, which must not be empty.
#[verifier::external_body]
fn random_below(low: usize, high: usize) -> (r: usize)
    requires
        low < high,
    ensures
        low <= r < high,
{
    rand::Rng::gen_range(&mut rand::thread_rng(), low..high)
}

/// The color at `index` of the palette gradient with `5 * steps` steps.
pub fn pick_color(steps: usize, index: usize) -> (r: String)
    requires
        1 <= steps < 30,
        index <= 5 * steps,
    ensures
        r@ == gradient(palette_start(), palette_end(), (5 * steps) as nat)[index as int],
{
    proof {
        reveal_strlit("#41445F");
        reveal_strlit("#F9B759");
    }
    let start = "#41445F";
    let end = "#F9B759";
    assert(start@ =~= palette_start());
    assert(end@ =~= palette_end());
    let n = 5 * steps;
    let colors = get_inbetween_colors(start, end, n);
    proof {
        let views = colors@.map_values(|s: String| s@);
        assert(views.len() == colors@.len());
        assert(colors@.len() == n + 1);
        assert(views[index as int] == colors@[index as int]@);
    }
    colors[index].clone()
}

/// A color for a chart element: a gradient of a random number of steps between
/// the palette endpoints, then a random color of it.
pub fn generate_color() -> (r: String)
    ensures
        is_palette_color(r@),
{
    let steps = random_below(1, 30);
    let index = random_below(0, steps * 5 + 1);
    let r = pick_color(steps, index);
    proof {
        let k = steps as nat;
        assert(r@ == gradient(palette_start(), palette_end(), 5 * k)[index as int]);
    }
    r
}

} // verus!
