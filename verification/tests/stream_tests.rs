use rmatrix::stream::TextStream;

#[test]
fn new_stream_starts_at_top() {
    let s = TextStream::new(7, 12);
    assert_eq!(s.x, 7);
    assert_eq!(s.y, 0);
    assert_eq!(s.len, 12);
    assert!(s.alive);
}

#[test]
fn advance_moves_leader_one_row() {
    let mut s = TextStream::new(3, 5);
    for frame in 0..10usize {
        assert_eq!(s.y, frame);
        let step = s.advance(24, 'a', 0, true);
        assert!(step.is_some());
        assert_eq!(s.y, frame + 1);
        assert_eq!(s.x, 3);
        assert_eq!(s.len, 5);
    }
}

#[test]
fn first_step_has_no_cell_above_the_top_row() {
    let mut s = TextStream::new(3, 5);
    let step = s.advance(24, 'z', 0, true).unwrap();
    assert_eq!(step.x, 3);
    assert_eq!(step.leader_y, 0);
    assert_eq!(step.glyph, 'z');
    assert_eq!(step.above, None);
    assert_eq!(step.clear_y, None);
}

#[test]
fn second_step_restyles_the_top_row() {
    let mut s = TextStream::new(3, 5);
    s.advance(24, 'z', 0, true);
    let step = s.advance(24, 'w', 0, true).unwrap();
    assert_eq!(step.leader_y, 1);
    let restyle = step.above.unwrap();
    assert_eq!(restyle.y, 0);
    assert!(restyle.bold);
}

#[test]
fn grown_trail_clears_behind() {
    let mut s = TextStream::new(0, 3);
    for _ in 0..5 {
        s.advance(24, 'a', 100, true);
    }
    // leader now at row 5, trail length 3: the step clears row 2.
    let step = s.advance(24, 'b', 100, true).unwrap();
    assert_eq!(step.leader_y, 5);
    let restyle = step.above.unwrap();
    assert_eq!(restyle.y, 4);
    assert!(!restyle.bold);
    assert_eq!(step.clear_y, Some(2));
}

#[test]
fn bold_follows_roll_and_flag() {
    let mut s = TextStream::new(0, 5);
    s.advance(24, 'a', 0, true);
    let step = s.advance(24, 'a', 59, true).unwrap();
    assert!(step.above.unwrap().bold);
    let step = s.advance(24, 'a', 60, true).unwrap();
    assert!(!step.above.unwrap().bold);
    let step = s.advance(24, 'a', 0, false).unwrap();
    assert!(!step.above.unwrap().bold);
}

#[test]
fn dies_exactly_when_tail_passes_bottom() {
    // Trail length 5 on a 24-row terminal: the stream must die on the frame
    // that brings the leading edge to row 24 + 5 + 1 = 30, and not before.
    let mut s = TextStream::new(2, 5);
    for frame in 1..=30usize {
        assert!(s.alive);
        let step = s.advance(24, 'a', 0, true);
        assert!(step.is_some());
        assert_eq!(s.y, frame);
        if frame <= 29 {
            assert!(s.alive, "died too early at row {}", frame);
        } else {
            assert!(!s.alive, "still alive at row {}", frame);
        }
    }
    assert_eq!(s.y, 30);
}

#[test]
fn dead_stream_never_renders() {
    let mut s = TextStream::new(2, 0);
    for _ in 0..30 {
        s.advance(4, 'a', 0, true);
    }
    assert!(!s.alive);
    let before = s;
    let step = s.advance(4, 'a', 0, true);
    assert!(step.is_none());
    assert_eq!(s, before);
}
