use vstd::arithmetic::div_mod::{
    lemma_fundamental_div_mod, lemma_mod_multiples_vanish, lemma_small_mod,
};
use vstd::prelude::*;

verus! {

/// The value of one track at a step of its cycle: `matrix[step mod c + track * c]`,
/// with Euclidean `mod`, so steps before zero wrap to the end of the cycle.
pub open spec fn cell(m: Seq<i32>, c: int, track: int, step: int) -> i32 {
    m[step % c + track * c]
}

/// Tracks are laid out one after another, each `c` cells long.
pub open spec fn track_fits(len: int, c: int, track: int) -> bool {
    0 < c && 0 <= track && (track + 1) * c <= len
}

/// A rolling window after one step: the oldest sample leaves, and the newest
/// `depth` slots are read from the matrix, counting backward from `pos` at the end.
pub open spec fn refreshed(b: Seq<i32>, m: Seq<i32>, c: int, track: int, pos: int, depth: int) -> Seq<i32> {
    Seq::new(
        b.len(),
        |j: int|
            if j + depth >= b.len() {
                cell(m, c, track, pos - (b.len() - 1 - j))
            } else {
                b[j + 1]
            },
    )
}

/// A rolling window after one step that takes its newest sample from elsewhere.
pub open spec fn relayed(b: Seq<i32>, v: i32) -> Seq<i32> {
    b.drop_first().push(v)
}

/// The step `n` steps before `pos` on a cycle of length `c`.
pub fn step_back(pos: usize, n: usize, c: usize) -> (r: usize)
    requires
        pos < c,
    ensures
        r as int == (pos - n) % (c as int),
        r < c,
{
    let k = n % c;
    proof {
        lemma_fundamental_div_mod(n as int, c as int);
        let q = n as int / c as int;
        lemma_mod_multiples_vanish(-q, pos - k, c as int);
        assert(c * (-q) + (pos - k) == pos - n) by (nonlinear_arith)
            requires n == c * q + k;
    }
    if k <= pos {
        proof {
            lemma_small_mod((pos - k) as nat, c as nat);
        }
        pos - k
    } else {
        proof {
            lemma_mod_multiples_vanish(1, pos - k, c as int);
            lemma_small_mod((c + pos - k) as nat, c as nat);
        }
        pos + (c - k)
    }
}

proof fn lemma_cell_index(len: int, c: int, track: int, step: int)
    requires
        track_fits(len, c, track),
    ensures
        0 <= step % c + track * c < len,
{
    assert(0 <= step % c < c);
    assert(0 <= track * c) by (nonlinear_arith)
        requires 0 <= track, 0 < c;
    assert(track * c + c == (track + 1) * c) by (nonlinear_arith);
}

/// Reads the value of `track` at step `step` of its cycle.
pub fn read_cell(m: &Vec<i32>, c: usize, track: usize, step: usize) -> (r: i32)
    requires
        track_fits(m.len() as int, c as int, track as int),
        step < c,
    ensures
        r == cell(m@, c as int, track as int, step as int),
{
    proof {
        lemma_cell_index(m.len() as int, c as int, track as int, step as int);
        lemma_small_mod(step as nat, c as nat);
    }
    m[step + track * c]
}

/// Advances a rolling window by one step, reading its newest `depth` samples
/// straight from the matrix.
pub fn refresh_window(b: &Vec<i32>, m: &Vec<i32>, c: usize, track: usize, pos: usize, depth: usize) -> (r: Vec<i32>)
    requires
        track_fits(m.len() as int, c as int, track as int),
        pos < c,
        1 <= depth <= b.len(),
    ensures
        r@ == refreshed(b@, m@, c as int, track as int, pos as int, depth as int),
{
    let len = b.len();
    let mut r: Vec<i32> = Vec::new();
    let mut j: usize = 0;
    while j < len
        invariant
            len == b.len(),
            track_fits(m.len() as int, c as int, track as int),
            pos < c,
            1 <= depth <= len,
            j <= len,
            r.len() == j,
            forall|k: int| 0 <= k < j ==> r@[k] == #[trigger] refreshed(b@, m@, c as int, track as int, pos as int, depth as int)[k],
        decreases len - j,
    {
        let v = if j >= len - depth {
            let back = step_back(pos, len - 1 - j, c);
            let v = read_cell(m, c, track, back);
            proof {
                lemma_small_mod(back as nat, c as nat);
            }
            v
        } else {
            b[j + 1]
        };
        r.push(v);
        j = j + 1;
    }
    assert(r@ =~= refreshed(b@, m@, c as int, track as int, pos as int, depth as int));
    r
}

/// Advances a rolling window by one step, appending `v` as its newest sample.
pub fn relay_window(b: &Vec<i32>, v: i32) -> (r: Vec<i32>)
    requires
        b.len() >= 1,
    ensures
        r@ == relayed(b@, v),
{
    let len = b.len();
    let mut r: Vec<i32> = Vec::new();
    let mut j: usize = 1;
    while j < len
        invariant
            len == b.len(),
            1 <= j <= len,
            r@ == b@.subrange(1, j as int),
        decreases len - j,
    {
        r.push(b[j]);
        j = j + 1;
        assert(r@ =~= b@.subrange(1, j as int));
    }
    r.push(v);
    assert(r@ =~= relayed(b@, v));
    r
}

/// The window with one zero sample added before its oldest.
pub fn prepend_zero(b: &Vec<i32>) -> (r: Vec<i32>)
    ensures
        r@ == seq![0i32] + b@,
{
    let mut r: Vec<i32> = Vec::new();
    r.push(0);
    let mut j: usize = 0;
    while j < b.len()
        invariant
            r@ == seq![0i32] + b@.subrange(0, j as int),
            j <= b.len(),
        decreases b.len() - j,
    {
        r.push(b[j]);
        j = j + 1;
        assert(r@ =~= seq![0i32] + b@.subrange(0, j as int));
    }
    assert(b@.subrange(0, b.len() as int) =~= b@);
    r
}

/// The window without its oldest sample.
pub fn drop_oldest(b: &Vec<i32>) -> (r: Vec<i32>)
    requires
        b.len() >= 1,
    ensures
        r@ == b@.drop_first(),
{
    let mut r: Vec<i32> = Vec::new();
    let mut j: usize = 1;
    while j < b.len()
        invariant
            1 <= j <= b.len(),
            r@ == b@.subrange(1, j as int),
        decreases b.len() - j,
    {
        r.push(b[j]);
        j = j + 1;
        assert(r@ =~= b@.subrange(1, j as int));
    }
    assert(r@ =~= b@.drop_first());
    r
}

} // verus!
