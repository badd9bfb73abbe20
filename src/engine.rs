use vstd::prelude::*;

use crate::clock::{advance_offset, next_offset, step_size, step_size_spec};
use crate::matrix::{fit_track_count, fit_tracks, CyclicMatrix, MatrixError, MAX_TRACKS};
use crate::messages::{request_addr, MatrixRequestMessage, Messages};
use crate::outline::{outline_from, trace_from, Stroke};
use crate::windows::{
    all_len, blank_windows, contents, grow_windows, grown_all, refresh_windows, refreshed_all,
    relay_windows, relayed_all, shrink_windows, shrunk_all,
};

verus! {

/// The fewest steps shown at once.
pub const MIN_STEPS: usize = 16;

/// The most steps shown at once.
pub const MAX_STEPS: usize = 64;

/// The preview reaches one fifth of the window ahead of the newest step.
pub const FUTURE_DIVISOR: usize = 5;

/// The tempo at startup, in eighths: sixty tempo units.
pub const INITIAL_TEMPO: u32 = 480;

/// How many of the newest samples the preview window reads from the matrix.
pub open spec fn preview_depth(window_length: usize) -> int {
    window_length as int / FUTURE_DIVISOR as int
}

/// A requested window length, clamped into `[MIN_STEPS, MAX_STEPS]`.
pub open spec fn clamp_window(n: usize) -> usize {
    if n < MIN_STEPS {
        MIN_STEPS
    } else if n > MAX_STEPS {
        MAX_STEPS
    } else {
        n
    }
}

/// What the engine holds, as mathematical values.
pub struct ModelView {
    pub cells: Seq<i32>,
    pub num_tracks: usize,
    pub active_tracks: usize,
    pub position: usize,
    pub window_length: usize,
    pub sub_offset: u64,
    pub tempo: u32,
    pub blank: bool,
    /// The trailing window, fed from the oldest samples of `mid`.
    pub near: Seq<Seq<i32>>,
    /// The currently visible window, whose newest samples preview the matrix.
    pub mid: Seq<Seq<i32>>,
    /// The far preview, read from the matrix across its whole length.
    pub far: Seq<Seq<i32>>,
}

impl ModelView {
    /// The length of one track's cycle.
    pub open spec fn cycle_length(self) -> int {
        self.cells.len() as int / self.num_tracks as int
    }

    pub open spec fn wf(self) -> bool {
        &&& 1 <= self.num_tracks <= MAX_TRACKS
        &&& self.num_tracks <= self.cells.len() <= usize::MAX
        &&& 1 <= self.active_tracks <= self.num_tracks
        &&& MIN_STEPS <= self.window_length <= MAX_STEPS
        &&& self.position < self.cycle_length()
        &&& self.near.len() == self.num_tracks
        &&& self.mid.len() == self.num_tracks
        &&& self.far.len() == self.num_tracks
        &&& all_len(self.near, self.window_length + 1)
        &&& all_len(self.mid, self.window_length + 1)
        &&& all_len(self.far, self.window_length + 1)
    }

    /// Each track's cycle holds at least one step and fits in the matrix.
    pub proof fn lemma_cycle_bounds(self)
        requires
            self.wf(),
        ensures
            1 <= self.cycle_length() <= self.cells.len() <= usize::MAX,
            self.num_tracks * self.cycle_length() <= self.cells.len(),
    {
        let len = self.cells.len() as int;
        let t = self.num_tracks as int;
        assert(1 <= len / t <= len) by (nonlinear_arith)
            requires len >= t, t >= 1;
        assert(t * (len / t) <= len) by (nonlinear_arith)
            requires t >= 1, len >= 0;
    }

    /// One more step on screen: a zero sample before the oldest of every window.
    /// At the ceiling nothing changes.
    pub open spec fn grown(self) -> ModelView {
        if self.window_length < MAX_STEPS {
            ModelView {
                window_length: (self.window_length + 1) as usize,
                near: grown_all(self.near),
                mid: grown_all(self.mid),
                far: grown_all(self.far),
                ..self
            }
        } else {
            self
        }
    }

    /// One step fewer on screen: the oldest sample of every window leaves.
    /// At the floor nothing changes.
    pub open spec fn shrunk(self) -> ModelView {
        if self.window_length > MIN_STEPS {
            ModelView {
                window_length: (self.window_length - 1) as usize,
                near: shrunk_all(self.near),
                mid: shrunk_all(self.mid),
                far: shrunk_all(self.far),
                ..self
            }
        } else {
            self
        }
    }

    pub open spec fn with_matrix(self, cells: Seq<i32>) -> ModelView {
        if cells.len() == self.cells.len() {
            ModelView { cells, ..self }
        } else {
            self
        }
    }

    pub open spec fn with_active_tracks(self, n: usize) -> ModelView {
        ModelView {
            active_tracks: if n < 1 {
                1
            } else if n > self.num_tracks {
                self.num_tracks
            } else {
                n
            },
            ..self
        }
    }

    /// The state after one inbound update, if any.
    pub open spec fn with_update(self, update: Option<Messages>) -> ModelView {
        match update {
            None => self,
            Some(Messages::Matrix(m)) => self.with_matrix(m.matrix@),
            Some(Messages::Wheel(m)) => ModelView { tempo: m.value as u32, ..self },
            Some(Messages::Lines(m)) => self.with_active_tracks(m.value),
        }
    }

    /// Whether the frame of `dt_micros` on a viewport `viewport_width` pixels
    /// wide crosses a step boundary.
    pub open spec fn fires(self, viewport_width: u32, dt_micros: u64) -> bool {
        self.next_offset(viewport_width, dt_micros) < self.sub_offset
    }

    pub open spec fn next_offset(self, viewport_width: u32, dt_micros: u64) -> int {
        next_offset(self.sub_offset, step_size_spec(viewport_width, self.window_length), self.tempo, dt_micros)
    }

    /// The windows after one step, refreshed in chain order: far, then mid, then
    /// near from the refreshed mid.
    pub open spec fn stepped(self) -> ModelView {
        let c = self.cycle_length();
        let pos = (self.position + 1) % c;
        let far = refreshed_all(self.far, self.cells, c, pos, self.window_length as int);
        let mid = refreshed_all(self.mid, self.cells, c, pos, preview_depth(self.window_length));
        let near = relayed_all(self.near, mid);
        ModelView { position: pos as usize, near, mid, far, ..self }
    }

    /// The state after one frame: the offset advances and wraps, and on a wrap
    /// the position moves one step and every window is refreshed once.
    pub open spec fn ticked(self, viewport_width: u32, dt_micros: u64) -> ModelView {
        let moved = ModelView { sub_offset: self.next_offset(viewport_width, dt_micros) as u64, ..self };
        if self.fires(viewport_width, dt_micros) {
            moved.stepped()
        } else {
            moved
        }
    }
}

/// A discrete command from the user.
#[derive(PartialEq, Eq, Structural, Clone, Copy, Debug)]
pub enum Command {
    IncreaseWindow,
    DecreaseWindow,
    SetActiveTracks(usize),
    ToggleBlank,
    RequestMatrixRefresh,
}

/// One of the three vantage points the windows show the matrix from.
#[derive(PartialEq, Eq, Structural, Clone, Copy, Debug)]
pub enum Vantage {
    Near,
    Mid,
    Far,
}

impl ModelView {
    pub open spec fn windows_of(self, vantage: Vantage) -> Seq<Seq<i32>> {
        match vantage {
            Vantage::Near => self.near,
            Vantage::Mid => self.mid,
            Vantage::Far => self.far,
        }
    }
}

/// The level a track's outline starts from: the last sample of the track drawn
/// before it, or low for the first.
pub open spec fn track_start(ws: Seq<Seq<i32>>, t: int) -> i32 {
    if t == 0 {
        0
    } else {
        ws[t - 1].last()
    }
}

/// The scroll engine: the matrix, the scroll state and the rolling windows.
/// The renderer reads them each frame through the accessors; only the
/// engine's own methods, which keep `wf`, change them.
pub struct Model {
    matrix: CyclicMatrix,
    /// How many tracks the matrix is divided into.
    num_tracks: usize,
    /// How many tracks are drawn, from the first.
    active_tracks: usize,
    /// The current step of every track's cycle.
    position: usize,
    /// How many steps are on screen.
    window_length: usize,
    /// How far into the current step the view has scrolled, in offset units.
    sub_offset: u64,
    /// Scroll speed, in eighths of a tempo unit.
    tempo: u32,
    /// Whether the view is blanked.
    blank: bool,
    near: Vec<Vec<i32>>,
    mid: Vec<Vec<i32>>,
    far: Vec<Vec<i32>>,
}

impl View for Model {
    type V = ModelView;

    closed spec fn view(&self) -> ModelView {
        ModelView {
            cells: self.matrix.cells@,
            num_tracks: self.num_tracks,
            active_tracks: self.active_tracks,
            position: self.position,
            window_length: self.window_length,
            sub_offset: self.sub_offset,
            tempo: self.tempo,
            blank: self.blank,
            near: contents(self.near@),
            mid: contents(self.mid@),
            far: contents(self.far@),
        }
    }
}

impl Model {
    pub open spec fn wf(&self) -> bool {
        self@.wf()
    }

    /// An engine over a zero matrix of `matrix_len` cells, divided into
    /// `num_tracks` tracks, showing `window_length` steps (both clamped). It starts
    /// at position 0 with offset 0 and the initial tempo, with every window
    /// zero and every track shown.
    pub fn new(matrix_len: usize, num_tracks: usize, window_length: usize) -> (r: Self)
        requires
            matrix_len >= 1,
        ensures
            r.wf(),
            r@.cells == Seq::new(matrix_len as nat, |i: int| 0i32),
            r@.num_tracks == fit_tracks(matrix_len as int, num_tracks as int),
            r@.active_tracks == r@.num_tracks,
            r@.window_length == clamp_window(window_length),
            r@.position == 0,
            r@.sub_offset == 0,
            r@.tempo == INITIAL_TEMPO,
            !r@.blank,
            r@.near == Seq::new(r@.num_tracks as nat, |t: int| Seq::new((r@.window_length + 1) as nat, |i: int| 0i32)),
            r@.mid == r@.near,
            r@.far == r@.near,
    {
        let tracks = fit_track_count(matrix_len, num_tracks);
        let w = if window_length < MIN_STEPS {
            MIN_STEPS
        } else if window_length > MAX_STEPS {
            MAX_STEPS
        } else {
            window_length
        };
        proof {
            assert(matrix_len / tracks >= 1) by (nonlinear_arith)
                requires matrix_len >= tracks, tracks >= 1;
        }
        let r = Model {
            matrix: CyclicMatrix::new(matrix_len),
            num_tracks: tracks,
            active_tracks: tracks,
            position: 0,
            window_length: w,
            sub_offset: 0,
            tempo: INITIAL_TEMPO,
            blank: false,
            near: blank_windows(tracks, w + 1),
            mid: blank_windows(tracks, w + 1),
            far: blank_windows(tracks, w + 1),
        };
        r
    }

    /// The length of one track's cycle.
    pub fn cycle_length(&self) -> (r: usize)
        requires
            self.wf(),
        ensures
            r as int == self@.cycle_length(),
            r >= 1,
    {
        let len = self.matrix.cells.len();
        let t = self.num_tracks;
        proof {
            assert(len / t >= 1) by (nonlinear_arith)
                requires len >= t, t >= 1;
        }
        len / t
    }

    /// How many of the newest samples the preview window reads from the matrix.
    pub fn preview_depth(&self) -> (r: usize)
        ensures
            r as int == preview_depth(self@.window_length),
    {
        self.window_length / FUTURE_DIVISOR
    }

    /// Shows one step more, up to `MAX_STEPS`.
    pub fn increment_num_steps_on_screen(&mut self)
        requires
            old(self).wf(),
        ensures
            final(self).wf(),
            final(self)@ == old(self)@.grown(),
    {
        if self.window_length < MAX_STEPS {
            self.near = grow_windows(&self.near);
            self.mid = grow_windows(&self.mid);
            self.far = grow_windows(&self.far);
            self.window_length = self.window_length + 1;
        }
    }

    /// Shows one step fewer, down to `MIN_STEPS`.
    pub fn decrement_num_steps_on_screen(&mut self)
        requires
            old(self).wf(),
        ensures
            final(self).wf(),
            final(self)@ == old(self)@.shrunk(),
    {
        if self.window_length > MIN_STEPS {
            proof {
                assert forall|t: int| 0 <= t < self.near.len() implies (#[trigger] self.near@[t]).len() >= 1 by {
                    assert(contents(self.near@)[t] == self.near@[t]@);
                }
                assert forall|t: int| 0 <= t < self.mid.len() implies (#[trigger] self.mid@[t]).len() >= 1 by {
                    assert(contents(self.mid@)[t] == self.mid@[t]@);
                }
                assert forall|t: int| 0 <= t < self.far.len() implies (#[trigger] self.far@[t]).len() >= 1 by {
                    assert(contents(self.far@)[t] == self.far@[t]@);
                }
            }
            self.near = shrink_windows(&self.near);
            self.mid = shrink_windows(&self.mid);
            self.far = shrink_windows(&self.far);
            self.window_length = self.window_length - 1;
        }
    }

    /// Replaces the matrix, which must keep its length. The windows are left as
    /// they are: they pick up the new content on the following steps.
    pub fn set_matrix(&mut self, cells: Vec<i32>) -> (r: Result<(), MatrixError>)
        requires
            old(self).wf(),
        ensures
            final(self).wf(),
            final(self)@ == old(self)@.with_matrix(cells@),
            r is Ok <==> cells.len() == old(self)@.cells.len(),
            r is Err ==> r == Err::<(), MatrixError>(
                MatrixError::LengthMismatch { expected: old(self)@.cells.len() as usize, found: cells.len() },
            ),
    {
        let ghost cells_view = cells@;
        let r = self.matrix.set(cells);
        proof {
            if cells_view.len() == old(self)@.cells.len() {
                assert(self@ =~= old(self)@.with_matrix(cells_view));
            } else {
                assert(self@ =~= old(self)@);
            }
        }
        r
    }

    /// Sets the tempo, in eighths of a tempo unit.
    pub fn set_tempo(&mut self, value: u8)
        requires
            old(self).wf(),
        ensures
            final(self).wf(),
            final(self)@ == (ModelView { tempo: value as u32, ..old(self)@ }),
    {
        self.tempo = value as u32;
    }

    /// Sets how many tracks are shown, clamped into `[1, num_tracks]`. Every
    /// track's windows are kept up to date whether shown or not.
    pub fn set_active_tracks(&mut self, n: usize)
        requires
            old(self).wf(),
        ensures
            final(self).wf(),
            final(self)@ == old(self)@.with_active_tracks(n),
    {
        self.active_tracks = if n < 1 {
            1
        } else if n > self.num_tracks {
            self.num_tracks
        } else {
            n
        };
    }

    /// Blanks the view, or shows it again.
    pub fn toggle_blank(&mut self)
        requires
            old(self).wf(),
        ensures
            final(self).wf(),
            final(self)@ == (ModelView { blank: !old(self)@.blank, ..old(self)@ }),
    {
        self.blank = !self.blank;
    }

    /// Applies one inbound update.
    pub fn apply_message(&mut self, msg: Messages) -> (r: Result<(), MatrixError>)
        requires
            old(self).wf(),
        ensures
            final(self).wf(),
            match msg {
                Messages::Matrix(m) => {
                    &&& final(self)@ == old(self)@.with_matrix(m.matrix@)
                    &&& (r is Ok <==> m.matrix.len() == old(self)@.cells.len())
                },
                Messages::Wheel(m) => {
                    &&& final(self)@ == (ModelView { tempo: m.value as u32, ..old(self)@ })
                    &&& r is Ok
                },
                Messages::Lines(m) => {
                    &&& final(self)@ == old(self)@.with_active_tracks(m.value)
                    &&& r is Ok
                },
            },
    {
        match msg {
            Messages::Matrix(m) => self.set_matrix(m.matrix),
            Messages::Wheel(m) => {
                self.set_tempo(m.value);
                Ok(())
            },
            Messages::Lines(m) => {
                self.set_active_tracks(m.value);
                Ok(())
            },
        }
    }

    /// Runs one frame of `dt_micros` microseconds on a viewport `viewport_width`
    /// pixels wide: the offset advances by tempo times time and wraps at the step
    /// width; when it wraps the position moves one step and the windows are
    /// refreshed, once. Returns whether a step boundary was crossed.
    pub fn tick(&mut self, viewport_width: u32, dt_micros: u64) -> (fired: bool)
        requires
            old(self).wf(),
            viewport_width >= 1,
        ensures
            final(self).wf(),
            final(self)@ == old(self)@.ticked(viewport_width, dt_micros),
            fired == old(self)@.fires(viewport_width, dt_micros),
    {
        let step = step_size(viewport_width, self.window_length);
        let (offset, fired) = advance_offset(self.sub_offset, step, self.tempo, dt_micros);
        self.sub_offset = offset;
        if fired {
            let c = self.cycle_length();
            let pos = (self.position + 1) % c;
            let len = self.matrix.cells.len();
            let w = self.window_length;
            let depth = w / FUTURE_DIVISOR;
            proof {
                let t = self.num_tracks as int;
                assert(t * (len as int / t) <= len) by (nonlinear_arith)
                    requires t >= 1, len >= 0;
                assert forall|k: int| 0 <= k < self.far.len() implies w <= (#[trigger] self.far@[k]).len() by {
                    assert(contents(self.far@)[k] == self.far@[k]@);
                }
                assert forall|k: int| 0 <= k < self.mid.len() implies depth <= (#[trigger] self.mid@[k]).len() by {
                    assert(contents(self.mid@)[k] == self.mid@[k]@);
                }
                assert forall|k: int| 0 <= k < self.near.len() implies (#[trigger] self.near@[k]).len() >= 1 by {
                    assert(contents(self.near@)[k] == self.near@[k]@);
                }
            }
            let far = refresh_windows(&self.far, &self.matrix.cells, c, pos, w);
            let mid = refresh_windows(&self.mid, &self.matrix.cells, c, pos, depth);
            proof {
                assert(contents(mid@).len() == mid@.len());
                assert(contents(self.mid@).len() == self.mid@.len());
                assert(mid@.len() == self.mid@.len());
                assert forall|k: int| 0 <= k < mid.len() implies (#[trigger] mid@[k]).len() >= 1 by {
                    assert(contents(mid@)[k] == mid@[k]@);
                    assert(contents(self.mid@)[k] == self.mid@[k]@);
                    assert(mid@[k]@.len() == self.mid@[k]@.len());
                }
            }
            let near = relay_windows(&self.near, &mid);
            self.position = pos;
            self.far = far;
            self.mid = mid;
            self.near = near;
        }
        proof {
            let moved = ModelView { sub_offset: old(self)@.next_offset(viewport_width, dt_micros) as u64, ..old(self)@ };
            if fired {
                assert(self@ =~= moved.stepped());
            } else {
                assert(self@ =~= moved);
            }
        }
        fired
    }

    /// The step index, counted from the oldest sample, where the preview of the
    /// visible window begins.
    pub fn now_step(&self) -> (r: usize)
        requires
            self.wf(),
        ensures
            r as int == self@.window_length + 1 - preview_depth(self@.window_length),
    {
        self.window_length + 1 - self.window_length / FUTURE_DIVISOR
    }

    /// The outlines to draw from one vantage point: one per shown track, in track
    /// order; none while the view is blanked. The tracks are drawn as one line,
    /// so each track's first edge follows on from the last sample of the track
    /// drawn before it, and the first track's from a low line.
    pub fn outlines(&self, vantage: Vantage) -> (r: Vec<Vec<Stroke>>)
        requires
            self.wf(),
        ensures
            self@.blank ==> r.len() == 0,
            !self@.blank ==> r.len() == self@.active_tracks,
            forall|t: int| 0 <= t < r.len() ==> (#[trigger] r@[t])@ == outline_from(track_start(self@.windows_of(vantage), t), self@.windows_of(vantage)[t]),
    {
        let mut r: Vec<Vec<Stroke>> = Vec::new();
        if self.blank {
            return r;
        }
        let ws = match vantage {
            Vantage::Near => &self.near,
            Vantage::Mid => &self.mid,
            Vantage::Far => &self.far,
        };
        assert(contents(ws@) == self@.windows_of(vantage));
        let mut t: usize = 0;
        let mut start: i32 = 0;
        while t < self.active_tracks
            invariant
                self.wf(),
                contents(ws@) == self@.windows_of(vantage),
                t <= self.active_tracks,
                r.len() == t,
                forall|k: int| 0 <= k < t ==> (#[trigger] r@[k])@ == outline_from(track_start(self@.windows_of(vantage), k), self@.windows_of(vantage)[k]),
                start == track_start(self@.windows_of(vantage), t as int),
            decreases self.active_tracks - t,
        {
            assert(contents(ws@)[t as int] == ws@[t as int]@);
            let b = &ws[t];
            r.push(trace_from(b, start));
            assert(b@.len() == self.window_length + 1);
            start = b[b.len() - 1];
            t = t + 1;
        }
        r
    }

    /// Carries out one user command. A refresh request changes nothing here and
    /// hands back the message to send.
    pub fn handle_command(&mut self, cmd: Command) -> (r: Option<MatrixRequestMessage>)
        requires
            old(self).wf(),
        ensures
            final(self).wf(),
            match cmd {
                Command::IncreaseWindow => final(self)@ == old(self)@.grown() && r is None,
                Command::DecreaseWindow => final(self)@ == old(self)@.shrunk() && r is None,
                Command::SetActiveTracks(n) => final(self)@ == old(self)@.with_active_tracks(n) && r is None,
                Command::ToggleBlank => final(self)@ == (ModelView { blank: !old(self)@.blank, ..old(self)@ }) && r is None,
                Command::RequestMatrixRefresh => final(self)@ == old(self)@ && r is Some && r->Some_0.addr_spec() == request_addr(),
            },
    {
        match cmd {
            Command::IncreaseWindow => {
                self.increment_num_steps_on_screen();
                None
            },
            Command::DecreaseWindow => {
                self.decrement_num_steps_on_screen();
                None
            },
            Command::SetActiveTracks(n) => {
                self.set_active_tracks(n);
                None
            },
            Command::ToggleBlank => {
                self.toggle_blank();
                None
            },
            Command::RequestMatrixRefresh => Some(MatrixRequestMessage::new()),
        }
    }

    /// One frame, in order: apply at most one pending update, advance the clock,
    /// and on a step boundary refresh the windows. Returns whether the update was
    /// accepted and whether a step boundary was crossed.
    pub fn frame(&mut self, update: Option<Messages>, viewport_width: u32, dt_micros: u64) -> (r: (Result<(), MatrixError>, bool))
        requires
            old(self).wf(),
            viewport_width >= 1,
        ensures
            final(self).wf(),
            final(self)@ == old(self)@.with_update(update).ticked(viewport_width, dt_micros),
            r.1 == old(self)@.with_update(update).fires(viewport_width, dt_micros),
            r.0 is Err <==> (match update {
                Some(Messages::Matrix(m)) => m.matrix.len() != old(self)@.cells.len(),
                _ => false,
            }),
    {
        let applied = match update {
            Some(msg) => self.apply_message(msg),
            None => Ok(()),
        };
        let fired = self.tick(viewport_width, dt_micros);
        (applied, fired)
    }

    pub fn matrix(&self) -> (r: &Vec<i32>)
        ensures
            r@ == self@.cells,
    {
        &self.matrix.cells
    }

    pub fn num_tracks(&self) -> (r: usize)
        ensures
            r == self@.num_tracks,
    {
        self.num_tracks
    }

    pub fn active_tracks(&self) -> (r: usize)
        ensures
            r == self@.active_tracks,
    {
        self.active_tracks
    }

    pub fn position(&self) -> (r: usize)
        ensures
            r == self@.position,
    {
        self.position
    }

    pub fn window_length(&self) -> (r: usize)
        ensures
            r == self@.window_length,
    {
        self.window_length
    }

    pub fn sub_offset(&self) -> (r: u64)
        ensures
            r == self@.sub_offset,
    {
        self.sub_offset
    }

    pub fn tempo(&self) -> (r: u32)
        ensures
            r == self@.tempo,
    {
        self.tempo
    }

    pub fn blank(&self) -> (r: bool)
        ensures
            r == self@.blank,
    {
        self.blank
    }

    /// The trailing windows, one per track.
    pub fn near(&self) -> (r: &Vec<Vec<i32>>)
        ensures
            contents(r@) == self@.near,
    {
        &self.near
    }

    /// The visible windows, one per track.
    pub fn mid(&self) -> (r: &Vec<Vec<i32>>)
        ensures
            contents(r@) == self@.mid,
    {
        &self.mid
    }

    /// The far preview windows, one per track.
    pub fn far(&self) -> (r: &Vec<Vec<i32>>)
        ensures
            contents(r@) == self@.far,
    {
        &self.far
    }
}

} // verus!
