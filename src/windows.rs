use vstd::prelude::*;

use crate::track::{drop_oldest, prepend_zero, refresh_window, refreshed, relay_window, relayed, track_fits};

verus! {

/// The contents of a set of per-track windows.
pub open spec fn contents(v: Seq<Vec<i32>>) -> Seq<Seq<i32>> {
    Seq::new(v.len(), |t: int| v[t]@)
}

/// Every window in the set holds exactly `n` samples.
pub open spec fn all_len(ws: Seq<Seq<i32>>, n: int) -> bool {
    forall|t: int| 0 <= t < ws.len() ==> (#[trigger] ws[t]).len() == n
}

pub open spec fn grown_all(ws: Seq<Seq<i32>>) -> Seq<Seq<i32>> {
    Seq::new(ws.len(), |t: int| seq![0i32] + ws[t])
}

pub open spec fn shrunk_all(ws: Seq<Seq<i32>>) -> Seq<Seq<i32>> {
    Seq::new(ws.len(), |t: int| ws[t].drop_first())
}

/// Each track's window refreshed from its own track of the matrix.
pub open spec fn refreshed_all(ws: Seq<Seq<i32>>, m: Seq<i32>, c: int, pos: int, depth: int) -> Seq<Seq<i32>> {
    Seq::new(ws.len(), |t: int| refreshed(ws[t], m, c, t, pos, depth))
}

/// Each track's window fed with the oldest sample of the same track's window in `src`.
pub open spec fn relayed_all(ws: Seq<Seq<i32>>, src: Seq<Seq<i32>>) -> Seq<Seq<i32>> {
    Seq::new(ws.len(), |t: int| relayed(ws[t], src[t][0]))
}

/// `tracks` windows of `n` zero samples each.
pub fn blank_windows(tracks: usize, n: usize) -> (r: Vec<Vec<i32>>)
    ensures
        contents(r@) == Seq::new(tracks as nat, |t: int| Seq::new(n as nat, |i: int| 0i32)),
{
    let mut r: Vec<Vec<i32>> = Vec::new();
    let mut t: usize = 0;
    while t < tracks
        invariant
            t <= tracks,
            r.len() == t,
            forall|k: int| 0 <= k < t ==> (#[trigger] r@[k])@ == Seq::new(n as nat, |i: int| 0i32),
        decreases tracks - t,
    {
        r.push(crate::matrix::zeros(n));
        t = t + 1;
    }
    assert(contents(r@) =~= Seq::new(tracks as nat, |t: int| Seq::new(n as nat, |i: int| 0i32)));
    r
}

pub fn grow_windows(ws: &Vec<Vec<i32>>) -> (r: Vec<Vec<i32>>)
    ensures
        contents(r@) == grown_all(contents(ws@)),
{
    let mut r: Vec<Vec<i32>> = Vec::new();
    let mut t: usize = 0;
    while t < ws.len()
        invariant
            t <= ws.len(),
            r.len() == t,
            forall|k: int| 0 <= k < t ==> (#[trigger] r@[k])@ == grown_all(contents(ws@))[k],
        decreases ws.len() - t,
    {
        r.push(prepend_zero(&ws[t]));
        t = t + 1;
    }
    assert(contents(r@) =~= grown_all(contents(ws@)));
    r
}

pub fn shrink_windows(ws: &Vec<Vec<i32>>) -> (r: Vec<Vec<i32>>)
    requires
        forall|t: int| 0 <= t < ws.len() ==> (#[trigger] ws@[t]).len() >= 1,
    ensures
        contents(r@) == shrunk_all(contents(ws@)),
{
    let mut r: Vec<Vec<i32>> = Vec::new();
    let mut t: usize = 0;
    while t < ws.len()
        invariant
            t <= ws.len(),
            forall|k: int| 0 <= k < ws.len() ==> (#[trigger] ws@[k]).len() >= 1,
            r.len() == t,
            forall|k: int| 0 <= k < t ==> (#[trigger] r@[k])@ == shrunk_all(contents(ws@))[k],
        decreases ws.len() - t,
    {
        r.push(drop_oldest(&ws[t]));
        t = t + 1;
    }
    assert(contents(r@) =~= shrunk_all(contents(ws@)));
    r
}

proof fn lemma_track_fits(len: int, c: int, tracks: int, t: int)
    requires
        0 < c,
        tracks * c <= len,
        0 <= t < tracks,
    ensures
        track_fits(len, c, t),
{
    assert((t + 1) * c <= tracks * c) by (nonlinear_arith)
        requires t + 1 <= tracks, 0 < c;
}

/// Refreshes every track's window from the matrix, reading `depth` samples of each.
pub fn refresh_windows(ws: &Vec<Vec<i32>>, m: &Vec<i32>, c: usize, pos: usize, depth: usize) -> (r: Vec<Vec<i32>>)
    requires
        0 < c,
        ws.len() * c <= m.len(),
        pos < c,
        1 <= depth,
        forall|t: int| 0 <= t < ws.len() ==> depth <= (#[trigger] ws@[t]).len(),
    ensures
        contents(r@) == refreshed_all(contents(ws@), m@, c as int, pos as int, depth as int),
{
    let mut r: Vec<Vec<i32>> = Vec::new();
    let mut t: usize = 0;
    while t < ws.len()
        invariant
            t <= ws.len(),
            0 < c,
            ws.len() * c <= m.len(),
            pos < c,
            1 <= depth,
            forall|k: int| 0 <= k < ws.len() ==> depth <= (#[trigger] ws@[k]).len(),
            r.len() == t,
            forall|k: int| 0 <= k < t ==> (#[trigger] r@[k])@ == refreshed_all(contents(ws@), m@, c as int, pos as int, depth as int)[k],
        decreases ws.len() - t,
    {
        proof {
            lemma_track_fits(m.len() as int, c as int, ws.len() as int, t as int);
        }
        r.push(refresh_window(&ws[t], m, c, t, pos, depth));
        t = t + 1;
    }
    assert(contents(r@) =~= refreshed_all(contents(ws@), m@, c as int, pos as int, depth as int));
    r
}

/// Feeds every track's window from the oldest sample of the same track in `src`.
pub fn relay_windows(ws: &Vec<Vec<i32>>, src: &Vec<Vec<i32>>) -> (r: Vec<Vec<i32>>)
    requires
        ws.len() <= src.len(),
        forall|t: int| 0 <= t < ws.len() ==> (#[trigger] ws@[t]).len() >= 1,
        forall|t: int| 0 <= t < src.len() ==> (#[trigger] src@[t]).len() >= 1,
    ensures
        contents(r@) == relayed_all(contents(ws@), contents(src@)),
{
    let mut r: Vec<Vec<i32>> = Vec::new();
    let mut t: usize = 0;
    while t < ws.len()
        invariant
            t <= ws.len(),
            ws.len() <= src.len(),
            forall|k: int| 0 <= k < ws.len() ==> (#[trigger] ws@[k]).len() >= 1,
            forall|k: int| 0 <= k < src.len() ==> (#[trigger] src@[k]).len() >= 1,
            r.len() == t,
            forall|k: int| 0 <= k < t ==> (#[trigger] r@[k])@ == relayed_all(contents(ws@), contents(src@))[k],
        decreases ws.len() - t,
    {
        assert(src@[t as int].len() >= 1);
        let v = src[t][0];
        r.push(relay_window(&ws[t], v));
        t = t + 1;
    }
    assert(contents(r@) =~= relayed_all(contents(ws@), contents(src@)));
    r
}

} // verus!
