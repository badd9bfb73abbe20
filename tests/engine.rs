use step_scroll::{
    advance_offset, fit_track_count, kind_of, step_back, step_size, trace, trace_from, Command, CyclicMatrix,
    LinesMessage, MatrixError, MatrixMessage, MatrixRequestMessage, MessageKind, Messages,
    Model, Stroke, Vantage, WheelMessage, INITIAL_TEMPO, MAX_STEPS, MIN_STEPS,
};

const WIDTH: u32 = 1920;

/// Runs one frame just long enough to carry the offset past the step width.
fn force_step(e: &mut Model) -> bool {
    let rate = e.tempo() as u64 * 10;
    if e.sub_offset() <= rate {
        assert!(!e.tick(WIDTH, 2));
    }
    let step = step_size(WIDTH, e.window_length());
    let dt = (step - e.sub_offset()) / rate + 1;
    e.tick(WIDTH, dt)
}

fn pattern_matrix() -> Vec<i32> {
    let mut m = vec![0; 64];
    for i in 0..16 {
        m[i] = 1;
    }
    m
}

fn assert_lengths(e: &Model) {
    for set in [e.near(), e.mid(), e.far()] {
        assert_eq!(set.len(), e.num_tracks());
        for b in set.iter() {
            assert_eq!(b.len(), e.window_length() + 1);
        }
    }
}

#[test]
fn matrix_request_address() {
    assert_eq!(MatrixRequestMessage::new().addr(), "/get-matrix");
}

#[test]
fn routes_by_address() {
    assert_eq!(kind_of(&"/matrix".to_string()), Some(MessageKind::Matrix));
    assert_eq!(kind_of(&"/wheel".to_string()), Some(MessageKind::Wheel));
    assert_eq!(kind_of(&"/lines".to_string()), Some(MessageKind::Lines));
    assert_eq!(kind_of(&"/matrixx".to_string()), None);
    assert_eq!(kind_of(&String::new()), None);
}

#[test]
fn cycle_length_divides_and_clamps() {
    let m = CyclicMatrix::new(64);
    assert_eq!(m.len(), 64);
    assert_eq!(m.track_cycle_length(4), 16);
    assert_eq!(m.track_cycle_length(3), 21);
    assert_eq!(m.track_cycle_length(1), 64);
    assert_eq!(m.track_cycle_length(0), 64);
    assert_eq!(m.track_cycle_length(9), 16);
    let small = CyclicMatrix::new(2);
    assert_eq!(small.track_cycle_length(4), 1);
    assert_eq!(fit_track_count(0, 3), 1);
}

#[test]
fn matrix_set_checks_length() {
    let mut m = CyclicMatrix::new(4);
    assert_eq!(m.set(vec![1, 0, 1, 1]), Ok(()));
    assert_eq!(m.get(), &vec![1, 0, 1, 1]);
    assert_eq!(
        m.set(vec![1, 1]),
        Err(MatrixError::LengthMismatch { expected: 4, found: 2 })
    );
    assert_eq!(m.get(), &vec![1, 0, 1, 1]);
}

#[test]
fn step_back_wraps_euclidean() {
    assert_eq!(step_back(3, 1, 16), 2);
    assert_eq!(step_back(0, 1, 16), 15);
    assert_eq!(step_back(2, 5, 16), 13);
    assert_eq!(step_back(2, 37, 16), 13);
    assert_eq!(step_back(0, 63, 1), 0);
}

#[test]
fn step_size_is_width_over_steps() {
    assert_eq!(step_size(1920, 64), 240_000_000);
    assert_eq!(step_size(1920, 16), 960_000_000);
    assert_eq!(step_size(0, 16), 0);
}

#[test]
fn offset_advances_and_wraps() {
    // 480 eighths is 60 tempo units: 600 px/s, so 16667 us is 10.0002 px.
    assert_eq!(advance_offset(0, 240_000_000, 480, 16_667), (80_001_600, false));
    assert_eq!(advance_offset(200_000_000, 240_000_000, 480, 16_667), (40_001_600, true));
    assert_eq!(advance_offset(5, 240_000_000, 0, 1_000_000), (5, false));
    // a whole number of steps in one frame lands on the same offset: no step fires
    assert_eq!(advance_offset(0, 240_000_000, 480, 10_000_000), (0, false));
}

#[test]
fn new_engine_is_blank_and_clamped() {
    let e = Model::new(64, 4, 64);
    assert_eq!(e.num_tracks(), 4);
    assert_eq!(e.active_tracks(), 4);
    assert_eq!(e.window_length(), 64);
    assert_eq!(e.tempo(), INITIAL_TEMPO);
    assert_eq!(e.position(), 0);
    assert_eq!(e.sub_offset(), 0);
    assert_lengths(&e);
    assert!(e.mid().iter().all(|b| b.iter().all(|v| *v == 0)));
    let low = Model::new(64, 9, 3);
    assert_eq!(low.window_length(), MIN_STEPS);
    assert_eq!(low.num_tracks(), 4);
    let high = Model::new(2, 4, 500);
    assert_eq!(high.window_length(), MAX_STEPS);
    assert_eq!(high.num_tracks(), 2);
    assert_eq!(high.cycle_length(), 1);
}

#[test]
fn resize_keeps_window_lengths() {
    let mut e = Model::new(64, 4, 16);
    for _ in 0..60 {
        e.increment_num_steps_on_screen();
        assert_lengths(&e);
    }
    assert_eq!(e.window_length(), MAX_STEPS);
    for _ in 0..70 {
        e.decrement_num_steps_on_screen();
        assert_lengths(&e);
    }
    assert_eq!(e.window_length(), MIN_STEPS);
}

#[test]
fn window_length_clamps_not_wraps() {
    let mut e = Model::new(64, 4, 16);
    e.decrement_num_steps_on_screen();
    assert_eq!(e.window_length(), 16);
    for _ in 0..48 {
        e.increment_num_steps_on_screen();
    }
    assert_eq!(e.window_length(), 64);
    e.increment_num_steps_on_screen();
    assert_eq!(e.window_length(), 64);
    assert_eq!(e.far()[0].len(), 65);
}

#[test]
fn grow_prepends_one_zero() {
    let mut e = Model::new(64, 4, 16);
    e.set_matrix(pattern_matrix()).unwrap();
    for _ in 0..5 {
        force_step(&mut e);
    }
    let before = (e.near().clone(), e.mid().clone(), e.far().clone());
    e.increment_num_steps_on_screen();
    assert_eq!(e.window_length(), 17);
    for (new, old) in [(&e.near(), &before.0), (&e.mid(), &before.1), (&e.far(), &before.2)] {
        for t in 0..4 {
            let mut expected = vec![0];
            expected.extend_from_slice(&old[t]);
            assert_eq!(new[t], expected);
        }
    }
}

#[test]
fn shrink_drops_oldest() {
    let mut e = Model::new(64, 4, 17);
    e.set_matrix(pattern_matrix()).unwrap();
    force_step(&mut e);
    let old = e.far()[0].clone();
    e.decrement_num_steps_on_screen();
    assert_eq!(e.window_length(), 16);
    assert_eq!(e.far()[0], old[1..].to_vec());
}

#[test]
fn one_step_per_wrapping_frame() {
    let mut e = Model::new(64, 4, 16);
    assert!(!e.tick(WIDTH, 16_667));
    assert_eq!(e.position(), 0);
    assert_eq!(e.sub_offset(), 80_001_600);
    assert!(force_step(&mut e));
    assert_eq!(e.position(), 1);
    assert_eq!(e.sub_offset(), 4800);
    // a frame of over two minutes still moves one step at most
    assert!(e.tick(WIDTH, 123_399_999));
    assert_eq!(e.position(), 2);
    assert_eq!(e.sub_offset(), 0);
}

#[test]
fn preview_reads_matrix_ahead() {
    let mut e = Model::new(64, 4, 16);
    let mut m = vec![0; 64];
    let track0 = [1, 0, 0, 1, 1, 0, 1, 0, 0, 0, 1, 1, 1, 0, 1, 0];
    for i in 0..16 {
        m[i] = track0[i];
        m[16 + i] = 1 - track0[i];
    }
    e.set_matrix(m).unwrap();
    assert!(force_step(&mut e));
    let pos = e.position() as i64;
    let d = e.preview_depth();
    assert_eq!(d, 3);
    assert_eq!(e.now_step(), 14);
    for t in 0..2usize {
        for k in 0..d {
            let step = (pos - (d as i64 - 1) + k as i64).rem_euclid(16) as usize;
            let expected = if t == 0 { track0[step] } else { 1 - track0[step] };
            assert_eq!(e.mid()[t][14 + k], expected);
        }
        for k in 0..16usize {
            let step = (pos - 15 + k as i64).rem_euclid(16) as usize;
            let expected = if t == 0 { track0[step] } else { 1 - track0[step] };
            assert_eq!(e.far()[t][1 + k], expected);
        }
    }
    // the untouched part of the visible window still holds the old zeros
    assert!(e.mid()[0][..14].iter().all(|v| *v == 0));
}

#[test]
fn same_matrix_twice_changes_nothing() {
    let mut a = Model::new(64, 4, 16);
    let mut b = Model::new(64, 4, 16);
    a.set_matrix(pattern_matrix()).unwrap();
    b.set_matrix(pattern_matrix()).unwrap();
    b.set_matrix(pattern_matrix()).unwrap();
    for _ in 0..3 {
        force_step(&mut a);
        force_step(&mut b);
    }
    assert_eq!(a.matrix(), b.matrix());
    assert_eq!(a.near(), b.near());
    assert_eq!(a.mid(), b.mid());
    assert_eq!(a.far(), b.far());
    assert_eq!(a.position(), b.position());
}

#[test]
fn sixteen_steps_fill_visible_window() {
    let mut e = Model::new(64, 4, 16);
    e.set_matrix(pattern_matrix()).unwrap();
    e.set_active_tracks(1);
    assert_eq!(e.cycle_length(), 16);
    for _ in 0..16 {
        assert!(force_step(&mut e));
    }
    assert_eq!(e.position(), 0);
    assert!(e.mid()[0][1..].iter().all(|v| *v == 1));
    assert!(force_step(&mut e));
    assert!(e.mid()[0].iter().all(|v| *v == 1));
    for t in 1..4 {
        assert!(e.mid()[t].iter().all(|v| *v == 0));
    }
}

#[test]
fn zero_tempo_freezes() {
    let mut e = Model::new(64, 4, 16);
    assert!(!e.tick(WIDTH, 16_667));
    e.set_tempo(0);
    for dt in [1u64, 16_667, 1_000_000, u64::MAX] {
        assert!(!e.tick(WIDTH, dt));
        assert_eq!(e.sub_offset(), 80_001_600);
        assert_eq!(e.position(), 0);
    }
}

#[test]
fn near_window_relays_from_mid() {
    let mut e = Model::new(64, 4, 16);
    e.set_matrix(pattern_matrix()).unwrap();
    for _ in 0..20 {
        let mid_before = e.mid()[0].clone();
        let near_before = e.near()[0].clone();
        force_step(&mut e);
        assert_eq!(e.mid()[0][0], mid_before[1]);
        let mut expected = near_before[1..].to_vec();
        expected.push(e.mid()[0][0]);
        assert_eq!(e.near()[0], expected);
    }
    assert!(e.near()[0].iter().any(|v| *v == 1));
}

#[test]
fn messages_apply_updates() {
    let mut e = Model::new(64, 4, 16);
    let r = e.apply_message(Messages::Wheel(WheelMessage { addr: "/wheel".to_string(), value: 17 }));
    assert_eq!(r, Ok(()));
    assert_eq!(e.tempo(), 17);
    e.apply_message(Messages::Lines(LinesMessage { addr: "/lines".to_string(), value: 2 })).unwrap();
    assert_eq!(e.active_tracks(), 2);
    e.apply_message(Messages::Lines(LinesMessage { addr: "/lines".to_string(), value: 7 })).unwrap();
    assert_eq!(e.active_tracks(), 4);
    e.apply_message(Messages::Lines(LinesMessage { addr: "/lines".to_string(), value: 0 })).unwrap();
    assert_eq!(e.active_tracks(), 1);
    let bad = e.apply_message(Messages::Matrix(MatrixMessage { addr: "/matrix".to_string(), matrix: vec![1; 63] }));
    assert_eq!(bad, Err(MatrixError::LengthMismatch { expected: 64, found: 63 }));
    assert!(e.matrix().iter().all(|v| *v == 0));
    e.apply_message(Messages::Matrix(MatrixMessage { addr: "/matrix".to_string(), matrix: vec![1; 64] })).unwrap();
    assert!(e.matrix().iter().all(|v| *v == 1));
}

#[test]
fn trace_draws_square_wave() {
    assert_eq!(
        trace(&vec![0, 1, 1, 0]),
        vec![
            Stroke::Low(0),
            Stroke::Rise(1),
            Stroke::High(1),
            Stroke::High(2),
            Stroke::Fall(3),
            Stroke::Low(3)
        ]
    );
    assert_eq!(trace(&vec![1]), vec![Stroke::Rise(0), Stroke::High(0)]);
    assert_eq!(trace(&vec![]), vec![]);
}

#[test]
fn outlines_follow_active_tracks_and_blank() {
    let mut e = Model::new(64, 4, 16);
    e.set_active_tracks(3);
    assert_eq!(e.outlines(Vantage::Far).len(), 3);
    assert_eq!(e.outlines(Vantage::Near)[0].len(), 17);
    e.toggle_blank();
    assert!(e.blank());
    assert!(e.outlines(Vantage::Mid).is_empty());
    e.toggle_blank();
    assert_eq!(e.outlines(Vantage::Mid).len(), 3);
}

#[test]
fn commands_map_to_mutations() {
    let mut e = Model::new(64, 4, 16);
    assert!(e.handle_command(Command::IncreaseWindow).is_none());
    assert_eq!(e.window_length(), 17);
    assert!(e.handle_command(Command::DecreaseWindow).is_none());
    assert_eq!(e.window_length(), 16);
    assert!(e.handle_command(Command::SetActiveTracks(2)).is_none());
    assert_eq!(e.active_tracks(), 2);
    assert!(e.handle_command(Command::ToggleBlank).is_none());
    assert!(e.blank());
    let request = e.handle_command(Command::RequestMatrixRefresh).unwrap();
    assert_eq!(request.addr(), "/get-matrix");
    assert_eq!(e.window_length(), 16);
}

#[test]
fn frame_applies_update_then_ticks() {
    let mut e = Model::new(64, 4, 16);
    let (applied, fired) = e.frame(None, WIDTH, 16_667);
    assert_eq!(applied, Ok(()));
    assert!(!fired);
    assert_eq!(e.sub_offset(), 80_001_600);
    let update = Messages::Matrix(MatrixMessage { addr: "/matrix".to_string(), matrix: pattern_matrix() });
    let (applied, fired) = e.frame(Some(update), WIDTH, 183_334);
    assert_eq!(applied, Ok(()));
    assert!(fired);
    assert_eq!(e.position(), 1);
    assert_eq!(e.mid()[0][16], 1);
    assert_eq!(e.far()[1][16], 0);
    let short = Messages::Matrix(MatrixMessage { addr: "/matrix".to_string(), matrix: vec![1; 3] });
    let (applied, fired) = e.frame(Some(short), WIDTH, 1);
    assert_eq!(applied, Err(MatrixError::LengthMismatch { expected: 64, found: 3 }));
    assert!(!fired);
    let stop = Messages::Wheel(WheelMessage { addr: "/wheel".to_string(), value: 0 });
    let before = e.sub_offset();
    let (_, fired) = e.frame(Some(stop), WIDTH, 5_000_000);
    assert!(!fired);
    assert_eq!(e.sub_offset(), before);
}

#[test]
fn trace_from_continues_a_line() {
    assert_eq!(
        trace_from(&vec![0, 1], 1),
        vec![Stroke::Fall(0), Stroke::Low(0), Stroke::Rise(1), Stroke::High(1)]
    );
    assert_eq!(trace_from(&vec![1], 1), vec![Stroke::High(0)]);
    assert_eq!(trace_from(&vec![0], 0), vec![Stroke::Low(0)]);
}

#[test]
fn outlines_carry_level_between_tracks() {
    let mut e = Model::new(64, 4, 16);
    e.set_matrix(pattern_matrix()).unwrap();
    assert!(force_step(&mut e));
    assert!(force_step(&mut e));
    assert!(e.far()[0].iter().all(|v| *v == 1));
    assert!(e.far()[1].iter().all(|v| *v == 0));
    let lines = e.outlines(Vantage::Far);
    assert_eq!(lines[0][..2], [Stroke::Rise(0), Stroke::High(0)]);
    // track 0 ended high, so track 1 opens with a fall
    assert_eq!(lines[1][..2], [Stroke::Fall(0), Stroke::Low(0)]);
    // track 1 ended low, so track 2 opens with no edge
    assert_eq!(lines[2][0], Stroke::Low(0));

    let mut ones = Model::new(64, 4, 16);
    ones.set_matrix(vec![1; 64]).unwrap();
    assert!(force_step(&mut ones));
    assert!(force_step(&mut ones));
    let lines = ones.outlines(Vantage::Far);
    assert_eq!(lines[0][0], Stroke::Rise(0));
    for t in 1..4 {
        assert_eq!(lines[t][0], Stroke::High(0));
        assert_eq!(lines[t].len(), 17);
    }
}
