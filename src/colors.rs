use vstd::prelude::*;

use rand::Rng;

verus! {

/// An RGBA color, one byte per channel.
#[derive(Clone, Copy, Debug, PartialEq, Eq, Structural)]
pub struct Color {
    pub r: u8,
    pub g: u8,
    pub b: u8,
    pub a: u8,
}

/// The colors players are given, in order.
pub fn player_colors() -> (r: Vec<Color>)
    ensures
        r@ == seq![
            Color { r: 44, g: 93, b: 55, a: 255 },
            Color { r: 227, g: 197, b: 21, a: 255 },
            Color { r: 238, g: 81, b: 177, a: 255 },
            Color { r: 165, g: 156, b: 211, a: 255 },
            Color { r: 75, g: 45, b: 159, a: 255 },
        ],
{
    vec![
        Color { r: 44, g: 93, b: 55, a: 255 },
        Color { r: 227, g: 197, b: 21, a: 255 },
        Color { r: 238, g: 81, b: 177, a: 255 },
        Color { r: 165, g: 156, b: 211, a: 255 },
        Color { r: 75, g: 45, b: 159, a: 255 },
    ]
}

/// The colors of `list` that `excluded` does not hold, in the order of `list`.
pub open spec fn available(excluded: Seq<Color>, list: Seq<Color>) -> Seq<Color>
    decreases list.len(),
{
    if list.len() == 0 {
        Seq::empty()
    } else {
        let rest = available(excluded, list.drop_last());
        if excluded.contains(list.last()) {
            rest
        } else {
            rest.push(list.last())
        }
    }
}

/// Whatever `available` keeps is in `list` and not in `excluded`.
pub proof fn lemma_available_members(excluded: Seq<Color>, list: Seq<Color>, c: Color)
    requires
        available(excluded, list).contains(c),
    ensures
        list.contains(c),
        !excluded.contains(c),
    decreases list.len(),
{
    if list.len() > 0 {
        let rest = available(excluded, list.drop_last());
        if rest.contains(c) {
            lemma_available_members(excluded, list.drop_last(), c);
            let i = choose|i: int| 0 <= i < list.drop_last().len() && list.drop_last()[i] == c;
            assert(list[i] == c);
        } else {
            assert(c == list.last());
            assert(list[list.len() - 1] == c);
        }
    }
}

/// `colors` holds `c`.
fn contains_color(colors: &[Color], c: Color) -> (r: bool)
    ensures
        r == colors@.contains(c),
{
    let mut i: usize = 0;
    while i < colors.len()
        invariant
            i <= colors@.len(),
            forall|j: int| 0 <= j < i ==> colors@[j] != c,
        decreases colors@.len() - i,
    {
        if colors[i] == c {
            return true;
        }
        i = i + 1;
    }
    false
}

/// The colors of `list` not in `excluded`, in order.
pub fn available_colors(excluded: &[Color], list: &[Color]) -> (r: Vec<Color>)
    ensures
        r@ == available(excluded@, list@),
{
    let mut out: Vec<Color> = Vec::new();
    let mut i: usize = 0;
    while i < list.len()
        invariant
            i <= list@.len(),
            out@ == available(excluded@, list@.subrange(0, i as int)),
        decreases list@.len() - i,
    {
        let c = list[i];
        proof {
            assert(list@.subrange(0, i as int + 1).drop_last() =~= list@.subrange(0, i as int));
        }
        if !contains_color(excluded, c) {
            out.push(c);
        }
        i = i + 1;
    }
    proof {
        assert(list@.subrange(0, list@.len() as int) =~= list@);
    }
    out
}

/// Relies on rand's `thread_rng` and `Rng::gen_range`, which returns a value of
/// the half-open range it is given and panics only on an empty range.
#[verifier::external_body]
fn random_index(n: usize) -> (r: usize)
    requires
        n > 0,
    ensures
        r < n,
{
    rand::thread_rng().gen_range(0..n)
}

/// A color of `list` that is not in `excluded`, drawn at random; `None` when
/// every color of `list` is excluded.
pub fn generate_random_color(excluded_colors: &[Color], list_colors: &[Color]) -> (r: Option<
    Color,
>)
    ensures
        r is None <==> available(excluded_colors@, list_colors@).len() == 0,
        r matches Some(c) ==> available(excluded_colors@, list_colors@).contains(c),
        r matches Some(c) ==> list_colors@.contains(c) && !excluded_colors@.contains(c),
{
    let candidates = available_colors(excluded_colors, list_colors);
    if candidates.len() == 0 {
        None
    } else {
        let k = random_index(candidates.len());
        let c = candidates[k];
        proof {
            assert(candidates@[k as int] == c);
            lemma_available_members(excluded_colors@, list_colors@, c);
        }
        Some(c)
    }
}

} // verus!
