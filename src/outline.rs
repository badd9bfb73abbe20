use vstd::prelude::*;

verus! {

/// One stroke of a window's outline, at a sample index: a window is drawn as a
/// square wave, high where a sample is 1 and low elsewhere.
#[derive(PartialEq, Eq, Structural, Clone, Copy, Debug)]
pub enum Stroke {
    /// A rising edge at the left of sample `i`, after a 0.
    Rise(usize),
    /// A falling edge at the left of sample `i`, after a 1.
    Fall(usize),
    /// The high level across sample `i`.
    High(usize),
    /// The low level across sample `i`.
    Low(usize),
}

/// The strokes drawn for sample `i`; the sample before the first is `start`.
pub open spec fn strokes_at(start: i32, b: Seq<i32>, i: int) -> Seq<Stroke> {
    let prev = if i == 0 { start } else { b[i - 1] };
    if b[i] == 1 {
        (if prev == 0 { seq![Stroke::Rise(i as usize)] } else { Seq::empty() }) + seq![Stroke::High(i as usize)]
    } else {
        (if prev == 1 { seq![Stroke::Fall(i as usize)] } else { Seq::empty() }) + seq![Stroke::Low(i as usize)]
    }
}

/// The strokes of a whole window, sample by sample from the oldest, drawn on
/// from a line that was last at level `start`.
pub open spec fn outline_from(start: i32, b: Seq<i32>) -> Seq<Stroke>
    decreases b.len(),
{
    if b.len() == 0 {
        Seq::empty()
    } else {
        outline_from(start, b.drop_last()) + strokes_at(start, b, b.len() - 1)
    }
}

/// Traces the outline of one window, drawn on from a line last at level `start`.
pub fn trace_from(b: &Vec<i32>, start: i32) -> (r: Vec<Stroke>)
    ensures
        r@ == outline_from(start, b@),
{
    let mut r: Vec<Stroke> = Vec::new();
    let mut i: usize = 0;
    let mut prev: i32 = start;
    while i < b.len()
        invariant
            i <= b.len(),
            r@ == outline_from(start, b@.subrange(0, i as int)),
            prev == (if i == 0 { start } else { b@[i - 1] }),
        decreases b.len() - i,
    {
        let v = b[i];
        if v == 1 {
            if prev == 0 {
                r.push(Stroke::Rise(i));
            }
            r.push(Stroke::High(i));
        } else {
            if prev == 1 {
                r.push(Stroke::Fall(i));
            }
            r.push(Stroke::Low(i));
        }
        proof {
            let s = b@.subrange(0, i + 1);
            assert(s.drop_last() =~= b@.subrange(0, i as int));
            assert(strokes_at(start, s, i as int) == strokes_at(start, b@, i as int));
            assert(r@ =~= outline_from(start, b@.subrange(0, i as int)) + strokes_at(start, b@, i as int));
        }
        prev = v;
        i = i + 1;
    }
    assert(b@.subrange(0, b.len() as int) =~= b@);
    r
}

/// Traces the outline of one window on its own, from a low line.
pub fn trace(b: &Vec<i32>) -> (r: Vec<Stroke>)
    ensures
        r@ == outline_from(0, b@),
{
    trace_from(b, 0)
}

} // verus!
