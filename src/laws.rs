use vstd::prelude::*;

use crate::clock::{lemma_step_size_positive, scroll_increment, step_size_spec, SCROLL_GAIN};
use crate::engine::{preview_depth, ModelView, MAX_STEPS, MIN_STEPS};
use crate::messages::{MatrixMessage, Messages};
use crate::track::cell;
use crate::windows::all_len;

verus! {

/// Every window keeps exactly `window_length + 1` samples across a resize,
/// whichever way it goes.
pub proof fn lemma_resize_keeps_window_lengths(v: ModelView)
    requires
        v.wf(),
    ensures
        v.grown().wf(),
        v.shrunk().wf(),
        all_len(v.grown().near, v.grown().window_length + 1),
        all_len(v.grown().mid, v.grown().window_length + 1),
        all_len(v.grown().far, v.grown().window_length + 1),
        all_len(v.shrunk().near, v.shrunk().window_length + 1),
        all_len(v.shrunk().mid, v.shrunk().window_length + 1),
        all_len(v.shrunk().far, v.shrunk().window_length + 1),
{
}

/// The state after a run of resize commands, `true` for one step more and
/// `false` for one step fewer.
pub open spec fn resized(v: ModelView, cmds: Seq<bool>) -> ModelView
    decreases cmds.len(),
{
    if cmds.len() == 0 {
        v
    } else {
        let next = if cmds[0] { v.grown() } else { v.shrunk() };
        resized(next, cmds.drop_first())
    }
}

/// Resizing clamps at the floor and the ceiling rather than wrapping, so no run
/// of resize commands takes the window length out of `[MIN_STEPS, MAX_STEPS]`.
pub proof fn lemma_window_stays_in_bounds(v: ModelView, cmds: Seq<bool>)
    requires
        v.wf(),
    ensures
        resized(v, cmds).wf(),
        MIN_STEPS <= resized(v, cmds).window_length <= MAX_STEPS,
        v.grown().window_length == if v.window_length < MAX_STEPS { v.window_length + 1 } else { MAX_STEPS as int },
        v.shrunk().window_length == if v.window_length > MIN_STEPS { v.window_length - 1 } else { MIN_STEPS as int },
    decreases cmds.len(),
{
    if cmds.len() > 0 {
        let next = if cmds[0] { v.grown() } else { v.shrunk() };
        lemma_window_stays_in_bounds(next, cmds.drop_first());
    }
}

/// A frame advances the position by exactly one step when the offset wraps and
/// leaves it alone otherwise: however long the frame, it never moves two steps.
/// This holds whatever update the frame applies first, and on any viewport. On
/// a viewport at least one pixel wide, a step fires exactly when the offset
/// wraps, and the offset stays inside the step.
pub proof fn lemma_one_step_per_frame(v: ModelView, update: Option<Messages>, viewport_width: u32, dt_micros: u64)
    requires
        v.wf(),
    ensures
        v.with_update(update).wf(),
        ({
            let u = v.with_update(update);
            let n = u.ticked(viewport_width, dt_micros);
            &&& n.position == if u.fires(viewport_width, dt_micros) {
                (u.position + 1) % u.cycle_length()
            } else {
                u.position as int
            }
            &&& viewport_width >= 1 ==> (u.fires(viewport_width, dt_micros) <==> n.sub_offset < u.sub_offset)
            &&& viewport_width >= 1 ==> n.sub_offset < step_size_spec(viewport_width, u.window_length)
        }),
{
    let u = v.with_update(update);
    u.lemma_cycle_bounds();
    if viewport_width >= 1 {
        lemma_step_size_positive(viewport_width, u.window_length);
    }
}

/// Right after a step, the preview slots of every track read the matrix forward:
/// the slot `k` places after the first preview slot holds the track's cell `k`
/// steps after the step shown there. This holds for the `preview_depth` newest
/// samples of the visible window and for every sample but the oldest of the far window.
pub proof fn lemma_preview_reads_ahead(v: ModelView, viewport_width: u32, dt_micros: u64, t: int, k: int)
    requires
        v.wf(),
        viewport_width >= 1,
        v.fires(viewport_width, dt_micros),
        0 <= t < v.num_tracks,
        0 <= k,
    ensures
        ({
            let n = v.ticked(viewport_width, dt_micros);
            let d = preview_depth(n.window_length);
            let w = n.window_length as int;
            &&& k < d ==> n.mid[t][w + 1 - d + k] == cell(n.cells, n.cycle_length(), t, n.position - (d - 1) + k)
            &&& k < w ==> n.far[t][1 + k] == cell(n.cells, n.cycle_length(), t, n.position - (w - 1) + k)
        }),
{
    v.lemma_cycle_bounds();
}

/// Applying the same matrix update twice leaves the engine as applying it once,
/// so every later frame, and every refresh in it, comes out the same. In a
/// frame, an update that carries the matrix already held changes nothing: the
/// frame ends as one with no update.
pub proof fn lemma_matrix_update_idempotent(v: ModelView, m: MatrixMessage, viewport_width: u32, dt_micros: u64)
    ensures
        v.with_matrix(m.matrix@).with_matrix(m.matrix@) == v.with_matrix(m.matrix@),
        v.with_matrix(m.matrix@).with_matrix(m.matrix@).ticked(viewport_width, dt_micros)
            == v.with_matrix(m.matrix@).ticked(viewport_width, dt_micros),
        v.cells == m.matrix@ ==> v.with_update(Some(Messages::Matrix(m))).ticked(viewport_width, dt_micros)
            == v.with_update(None).ticked(viewport_width, dt_micros),
{
    assert(v.with_matrix(m.matrix@).with_matrix(m.matrix@) =~= v.with_matrix(m.matrix@));
    if v.cells == m.matrix@ {
        assert(v.with_matrix(m.matrix@) =~= v);
    }
}

/// The state after a run of frames, each with its own duration.
pub open spec fn frames(v: ModelView, viewport_width: u32, dts: Seq<u64>) -> ModelView
    decreases dts.len(),
{
    if dts.len() == 0 {
        v
    } else {
        frames(v.ticked(viewport_width, dts[0]), viewport_width, dts.drop_first())
    }
}

/// At tempo zero the offset never moves and no step fires, however long the
/// frames: the whole view stands still.
pub proof fn lemma_zero_tempo_freezes(v: ModelView, viewport_width: u32, dts: Seq<u64>)
    requires
        v.wf(),
        v.tempo == 0,
        v.sub_offset < step_size_spec(viewport_width, v.window_length),
    ensures
        frames(v, viewport_width, dts) == v,
        forall|i: int| 0 <= i < dts.len() ==> !v.fires(viewport_width, #[trigger] dts[i]),
    decreases dts.len(),
{
    assert forall|dt: u64| !v.fires(viewport_width, dt) && v.ticked(viewport_width, dt) == v by {
        assert(v.tempo as int * SCROLL_GAIN as int * dt as int == 0) by (nonlinear_arith)
            requires v.tempo == 0;
        assert(scroll_increment(v.tempo, dt) == 0);
        vstd::arithmetic::div_mod::lemma_small_mod(
            v.sub_offset as nat,
            step_size_spec(viewport_width, v.window_length) as nat,
        );
        assert(v.ticked(viewport_width, dt) =~= v);
    }
    if dts.len() > 0 {
        lemma_zero_tempo_freezes(v, viewport_width, dts.drop_first());
    }
}

/// One step more on screen puts exactly one zero before the oldest sample of
/// every window and keeps the rest in order.
pub proof fn lemma_grow_prepends_zero(v: ModelView, t: int)
    requires
        v.wf(),
        v.window_length < MAX_STEPS,
        0 <= t < v.num_tracks,
    ensures
        v.grown().near[t] == seq![0i32] + v.near[t],
        v.grown().mid[t] == seq![0i32] + v.mid[t],
        v.grown().far[t] == seq![0i32] + v.far[t],
{
}

} // verus!
