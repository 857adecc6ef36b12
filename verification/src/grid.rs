//! Map geometry in whole numbers: grid cell names, map regions, the nearest
//! monument among those in range, and the monuments shown by the grid test.

use vstd::prelude::*;
use crate::number::{decimal, push_decimal};
use crate::text::{chars_of, contains, contains_seq, push_char};

verus! {

/// The capital letter `A` moved on by `n` places.
pub open spec fn letter(n: nat) -> char {
    (65 + n) as char
}

/// The name of grid column `col`: `A`..`Z`, then two letters from `AA` on.
/// Past `ZZ` the first letter keeps counting past `Z`, as the byte arithmetic
/// it is written with does.
pub open spec fn column_name_spec(col: nat) -> Seq<char> {
    if col < 26 {
        seq![letter(col)]
    } else {
        seq![letter(((col / 26 - 1) as nat) % 256), letter(col % 26)]
    }
}

/// The columns whose name can be written: the first letter's byte must not
/// pass 255.
pub open spec fn column_nameable(col: nat) -> bool {
    col < 26 || ((col / 26 - 1) as nat) % 256 <= 190
}

/// The name of the grid cell in column `col` and row `row`, e.g. `G15`.
pub open spec fn grid_label_spec(col: nat, row: nat) -> Seq<char> {
    column_name_spec(col) + decimal(row)
}

/// Whether column `col` can be named.
pub fn can_name_column(col: u32) -> (r: bool)
    ensures
        r == column_nameable(col as nat),
{
    col < 26 || (col / 26 - 1) % 256 <= 190
}

/// The letter `A` moved on by `n` places.
fn letter_exec(n: u32) -> (c: char)
    requires
        n <= 190,
    ensures
        c == letter(n as nat),
{
    let b: u8 = 65u8 + (n as u8);
    b as char
}

/// The name of grid column `col`.
pub fn column_name(col: u32) -> (r: String)
    requires
        column_nameable(col as nat),
    ensures
        r@ == column_name_spec(col as nat),
{
    let mut r = String::new();
    if col < 26 {
        push_char(&mut r, letter_exec(col));
    } else {
        let first = col / 26 - 1;
        push_char(&mut r, letter_exec(first % 256));
        push_char(&mut r, letter_exec(col % 26));
    }
    assert(r@ =~= column_name_spec(col as nat));
    r
}

/// The name of the grid cell in column `col` and row `row`.
pub fn grid_label(col: u32, row: u32) -> (r: String)
    requires
        column_nameable(col as nat),
    ensures
        r@ == grid_label_spec(col as nat, row as nat),
{
    let mut r = column_name(col);
    push_decimal(&mut r, row as u64);
    r
}

/// Grid notation never gives two columns the same letters, as long as the
/// first letter's byte does not wrap around (columns below 26 * 257).
pub proof fn law_column_names_distinct(a: nat, b: nat)
    requires
        column_nameable(a),
        column_nameable(b),
        a < 26 * 257,
        b < 26 * 257,
        a != b,
    ensures
        column_name_spec(a) != column_name_spec(b),
{
    if a < 26 && b < 26 {
        assert(column_name_spec(a)[0] != column_name_spec(b)[0]);
    } else if a >= 26 && b >= 26 {
        let fa = ((a / 26 - 1) as nat) % 256;
        let fb = ((b / 26 - 1) as nat) % 256;
        if fa == fb {
            assert(a % 26 != b % 26) by (nonlinear_arith)
                requires
                    26 <= a < 26 * 257,
                    26 <= b < 26 * 257,
                    a != b,
                    ((a / 26 - 1) as nat) % 256 == ((b / 26 - 1) as nat) % 256,
            {
                assert(a / 26 - 1 < 256);
                assert(b / 26 - 1 < 256);
                assert(a / 26 == b / 26);
            }
            assert(column_name_spec(a)[1] != column_name_spec(b)[1]);
        } else {
            assert(column_name_spec(a)[0] != column_name_spec(b)[0]);
        }
    } else {
        assert(column_name_spec(a).len() != column_name_spec(b).len());
    }
}

/// Which third of the map a coordinate lies in along one axis, from the low
/// end (left or bottom) to the high end (right or top).
#[derive(Clone, Copy, Debug, PartialEq, Eq)]
pub enum Third {
    Low,
    Middle,
    High,
}

/// The word for a third along the horizontal axis.
pub open spec fn horizontal_name(h: Third) -> Seq<char> {
    match h {
        Third::Low => "left"@,
        Third::Middle => "center"@,
        Third::High => "right"@,
    }
}

/// The word for a third along the vertical axis.
pub open spec fn vertical_name(v: Third) -> Seq<char> {
    match v {
        Third::Low => "bottom"@,
        Third::Middle => "middle"@,
        Third::High => "top"@,
    }
}

/// The name of the map region in the vertical third `v` and horizontal
/// third `h`.
pub open spec fn region_name_spec(v: Third, h: Third) -> Seq<char> {
    match (v, h) {
        (Third::Middle, Third::Middle) => "center"@,
        (Third::High, Third::Middle) => "top"@,
        (Third::Low, Third::Middle) => "bottom"@,
        (Third::Middle, _) => horizontal_name(h),
        _ => vertical_name(v) + " "@ + horizontal_name(h),
    }
}

/// The name of the map region in the vertical third `vertical` and the
/// horizontal third `horizontal`, such as "center", "left" or "top right".
pub fn region_name(vertical: Third, horizontal: Third) -> (r: String)
    ensures
        r@ == region_name_spec(vertical, horizontal),
{
    match (vertical, horizontal) {
        (Third::Middle, Third::Middle) => String::from_str("center"),
        (Third::High, Third::Middle) => String::from_str("top"),
        (Third::Low, Third::Middle) => String::from_str("bottom"),
        (Third::Middle, Third::Low) => String::from_str("left"),
        (Third::Middle, Third::High) => String::from_str("right"),
        (v, h) => {
            let mut r = match v {
                Third::Low => String::from_str("bottom"),
                Third::Middle => String::from_str("middle"),
                Third::High => String::from_str("top"),
            };
            r.append(" ");
            match h {
                Third::Low => r.append("left"),
                Third::Middle => r.append("center"),
                Third::High => r.append("right"),
            }
            r
        },
    }
}

/// The region names of the nine parts of the map: the middle is "center",
/// the middle of an edge is that edge's word, and a corner is the vertical
/// word, a space and the horizontal word ("top left", "bottom right").
pub proof fn law_region_names()
    ensures
        region_name_spec(Third::Middle, Third::Middle) == "center"@,
        region_name_spec(Third::High, Third::Middle) == "top"@,
        region_name_spec(Third::Low, Third::Middle) == "bottom"@,
        region_name_spec(Third::Middle, Third::Low) == "left"@,
        region_name_spec(Third::Middle, Third::High) == "right"@,
        region_name_spec(Third::High, Third::Low) == "top left"@,
        region_name_spec(Third::High, Third::High) == "top right"@,
        region_name_spec(Third::Low, Third::Low) == "bottom left"@,
        region_name_spec(Third::Low, Third::High) == "bottom right"@,
{
    reveal_strlit("top");
    reveal_strlit("bottom");
    reveal_strlit("left");
    reveal_strlit("right");
    reveal_strlit(" ");
    reveal_strlit("top left");
    reveal_strlit("top right");
    reveal_strlit("bottom left");
    reveal_strlit("bottom right");
    assert(region_name_spec(Third::High, Third::Low) =~= "top left"@);
    assert(region_name_spec(Third::High, Third::High) =~= "top right"@);
    assert(region_name_spec(Third::Low, Third::Low) =~= "bottom left"@);
    assert(region_name_spec(Third::Low, Third::High) =~= "bottom right"@);
}

/// Different parts of the map have different region names; in particular
/// the horizontal word of a corner depends on the horizontal third alone.
pub proof fn law_region_names_differ(v1: Third, h1: Third, v2: Third, h2: Third)
    requires
        (v1, h1) != (v2, h2),
    ensures
        region_name_spec(v1, h1) != region_name_spec(v2, h2),
{
    law_region_names();
    reveal_strlit("center");
    reveal_strlit("top");
    reveal_strlit("bottom");
    reveal_strlit("left");
    reveal_strlit("right");
    reveal_strlit("top left");
    reveal_strlit("top right");
    reveal_strlit("bottom left");
    reveal_strlit("bottom right");
    let a = region_name_spec(v1, h1);
    let b = region_name_spec(v2, h2);
    if a == b {
        assert(a.len() == b.len());
        assert(a[0] == b[0]);
        assert(a.len() > 4 ==> a[4] == b[4]);
    }
}

/// A monument seen from a point: whether it lies within the search radius,
/// and a key that orders monuments by distance (smaller is closer).
#[derive(Clone, Copy, Debug)]
pub struct Candidate {
    pub within: bool,
    pub distance_key: u32,
}

/// `i` is the first of the candidates in range with the least key.
pub open spec fn is_nearest(c: Seq<Candidate>, i: int) -> bool {
    &&& 0 <= i < c.len()
    &&& c[i].within
    &&& forall|j: int| 0 <= j < c.len() && c[j].within ==> c[i].distance_key <= c[j].distance_key
    &&& forall|j: int|
        0 <= j < i && c[j].within ==> c[i].distance_key < c[j].distance_key
}

/// The nearest candidate in range (the first of equally near ones), or
/// `None` when none is in range.
pub fn nearest_candidate(candidates: &Vec<Candidate>) -> (r: Option<usize>)
    ensures
        match r {
            Some(i) => is_nearest(candidates@, i as int),
            None => forall|j: int| 0 <= j < candidates@.len() ==> !candidates@[j].within,
        },
{
    let mut best: Option<usize> = None;
    let mut i: usize = 0;
    while i < candidates.len()
        invariant
            i <= candidates@.len(),
            match best {
                Some(b) => b < i && is_nearest(candidates@.take(i as int), b as int),
                None => forall|j: int| 0 <= j < i ==> !candidates@[j].within,
            },
        decreases candidates.len() - i,
    {
        let c = candidates[i];
        if c.within {
            match best {
                Some(b) => {
                    if c.distance_key < candidates[b].distance_key {
                        best = Some(i);
                    }
                },
                None => {
                    best = Some(i);
                },
            }
        }
        i = i + 1;
        proof {
            let t = candidates@.take(i as int);
            let t0 = candidates@.take(i - 1);
            assert forall|j: int| 0 <= j < i - 1 implies t[j] == t0[j] && t[j] == candidates@[j] by {
            }
            assert(t[i - 1] == candidates@[i - 1]);
        }
    }
    assert(candidates@.take(i as int) =~= candidates@);
    best
}

/// A token names a train tunnel entrance.
pub open spec fn is_tunnel(token: Seq<char>) -> bool {
    contains_seq(token, "train_tunnel"@)
}

/// The positions of the tokens in `tokens` that are not train tunnels.
pub open spec fn tunnel_free(tokens: Seq<Seq<char>>) -> Seq<int>
    decreases tokens.len(),
{
    if tokens.len() == 0 {
        Seq::empty()
    } else if is_tunnel(tokens.last()) {
        tunnel_free(tokens.drop_last())
    } else {
        tunnel_free(tokens.drop_last()).push(tokens.len() - 1)
    }
}

/// How many monuments the grid test shows at most.
pub open spec fn monument_sample_size() -> nat {
    10
}

proof fn lemma_tunnel_free_bounds(tokens: Seq<Seq<char>>)
    ensures
        tunnel_free(tokens).len() <= tokens.len(),
        forall|k: int| 0 <= k < tunnel_free(tokens).len() ==> 0 <= #[trigger] tunnel_free(tokens)[k] < tokens.len(),
    decreases tokens.len(),
{
    if tokens.len() > 0 {
        lemma_tunnel_free_bounds(tokens.drop_last());
    }
}

/// How many of `tokens` are not train tunnels.
pub fn count_tunnel_free(tokens: &Vec<String>) -> (r: usize)
    ensures
        r == tunnel_free(tokens@.map_values(|s: String| s@)).len(),
{
    let ghost views = tokens@.map_values(|s: String| s@);
    let tunnel = chars_of("train_tunnel");
    let mut n: usize = 0;
    let mut i: usize = 0;
    while i < tokens.len()
        invariant
            i <= tokens@.len(),
            n <= i,
            views == tokens@.map_values(|s: String| s@),
            tunnel@ == "train_tunnel"@,
            n == tunnel_free(views.take(i as int)).len(),
        decreases tokens.len() - i,
    {
        assert(views.take(i + 1).drop_last() =~= views.take(i as int));
        assert(views.take(i + 1).last() == tokens@[i as int]@);
        let token = chars_of(tokens[i].as_str());
        if !contains(&token, &tunnel) {
            n = n + 1;
        }
        i = i + 1;
    }
    assert(views.take(i as int) =~= views);
    n
}

/// The monuments the grid test shows: the tokens that are not train tunnels,
/// rotated left by `seed` modulo their number, at most ten of them. The
/// result holds positions in `tokens`.
pub fn pick_monuments(tokens: &Vec<String>, seed: usize) -> (r: Vec<usize>)
    requires
        tunnel_free(tokens@.map_values(|s: String| s@)).len() > 0,
    ensures
        ({
            let f = tunnel_free(tokens@.map_values(|s: String| s@));
            let k = f.len();
            &&& r@.len() == if k < monument_sample_size() {
                k
            } else {
                monument_sample_size()
            }
            &&& forall|t: int| 0 <= t < r@.len() ==> r@[t] as int == f[(seed as int % k as int + t) % k as int]
            &&& forall|t: int| 0 <= t < r@.len() ==> r@[t] < tokens@.len()
        }),
{
    let ghost views = tokens@.map_values(|s: String| s@);
    let tunnel = chars_of("train_tunnel");
    let mut kept: Vec<usize> = Vec::new();
    let mut i: usize = 0;
    while i < tokens.len()
        invariant
            i <= tokens@.len(),
            views == tokens@.map_values(|s: String| s@),
            tunnel@ == "train_tunnel"@,
            kept@.map_values(|x: usize| x as int) == tunnel_free(views.take(i as int)),
        decreases tokens.len() - i,
    {
        assert(views.take(i + 1).drop_last() =~= views.take(i as int));
        assert(views.take(i + 1).last() == tokens@[i as int]@);
        let token = chars_of(tokens[i].as_str());
        if !contains(&token, &tunnel) {
            let ghost prev = kept@;
            kept.push(i);
            assert(kept@.map_values(|x: usize| x as int) =~= prev.map_values(|x: usize| x as int).push(i as int));
        }
        i = i + 1;
    }
    assert(views.take(i as int) =~= views);
    let ghost f = tunnel_free(views);
    proof {
        lemma_tunnel_free_bounds(views);
    }
    assert(kept@.len() == f.len());
    let k = kept.len();
    let offset = seed % k;
    let count = if k < 10 { k } else { 10 };
    let mut r: Vec<usize> = Vec::new();
    let mut t: usize = 0;
    while t < count
        invariant
            t <= count,
            count <= k,
            k == kept@.len(),
            k == f.len(),
            k > 0,
            offset == seed % k,
            kept@.map_values(|x: usize| x as int) == f,
            r@.len() == t,
            forall|u: int| 0 <= u < t ==> r@[u] as int == f[(seed as int % k as int + u) % k as int],
            forall|u: int| 0 <= u < t ==> r@[u] < tokens@.len(),
            forall|q: int| 0 <= q < f.len() ==> 0 <= #[trigger] f[q] < tokens@.len(),
        decreases count - t,
    {
        let pos = if t < k - offset {
            offset + t
        } else {
            t - (k - offset)
        };
        assert(pos as int == (offset as int + t as int) % (k as int)) by (nonlinear_arith)
            requires
                offset < k,
                t < k,
                pos as int == if t < k - offset {
                    offset + t
                } else {
                    t - (k - offset)
                },
        ;
        assert(kept@.map_values(|x: usize| x as int)[pos as int] == kept@[pos as int] as int);
        r.push(kept[pos]);
        t = t + 1;
    }
    r
}

} // verus!
