use krilla::content::{coalesce, Batch, LayoutError, Operator, Paint, StyledGlyph, Surface};

fn glyph(id: u32, advance: i32, style: u32) -> StyledGlyph {
    StyledGlyph {
        glyph_id: id,
        advance,
        x_offset: 0,
        y_offset: 0,
        style_index: style,
        text_start: id as usize,
        text_end: id as usize + 1,
    }
}

const BLACK: Paint = Paint { red: 0, green: 0, blue: 0 };
const RED: Paint = Paint { red: 255, green: 0, blue: 0 };

#[test]
fn coalesce_empty_run() {
    let (batches, cursor) = coalesce(&vec![], 17).unwrap();
    assert!(batches.is_empty());
    assert_eq!(cursor, 17);
}

#[test]
fn coalesce_single_glyph() {
    let (batches, cursor) = coalesce(&vec![glyph(1, 5, 9)], -3).unwrap();
    assert_eq!(batches, vec![Batch { style: 9, start: 0, end: 1, x: -3 }]);
    assert_eq!(cursor, 2);
}

#[test]
fn coalesce_ten_glyphs_in_three_blocks() {
    let styles = [0u32, 0, 0, 0, 1, 1, 1, 0, 0, 0];
    let glyphs: Vec<StyledGlyph> =
        styles.iter().enumerate().map(|(i, s)| glyph(i as u32, 10 + i as i32, *s)).collect();
    let (batches, cursor) = coalesce(&glyphs, 100).unwrap();
    assert_eq!(
        batches,
        vec![
            Batch { style: 0, start: 0, end: 4, x: 100 },
            Batch { style: 1, start: 4, end: 7, x: 100 + 10 + 11 + 12 + 13 },
            Batch { style: 0, start: 7, end: 10, x: 100 + 10 + 11 + 12 + 13 + 14 + 15 + 16 },
        ]
    );
    assert_eq!(cursor, 100 + (10..20).sum::<i64>());
    for b in &batches {
        let before: i64 = glyphs[..b.start].iter().map(|g| g.advance as i64).sum();
        assert_eq!(b.x, 100 + before);
    }
}

#[test]
fn coalesce_negative_advances() {
    let glyphs = vec![glyph(0, -4, 1), glyph(1, -6, 2)];
    let (batches, cursor) = coalesce(&glyphs, 0).unwrap();
    assert_eq!(
        batches,
        vec![Batch { style: 1, start: 0, end: 1, x: 0 }, Batch { style: 2, start: 1, end: 2, x: -4 }]
    );
    assert_eq!(cursor, -10);
}

#[test]
fn coalesce_reports_cursor_overflow() {
    let glyphs = vec![glyph(0, 1, 0), glyph(1, 1, 0)];
    assert_eq!(coalesce(&glyphs, i64::MAX - 1), Err(LayoutError::CursorOverflow));
    assert!(coalesce(&glyphs, i64::MAX - 2).is_ok());
    let back = vec![glyph(0, -1, 0)];
    assert_eq!(coalesce(&back, i64::MIN), Err(LayoutError::CursorOverflow));
}

#[test]
fn draw_run_emits_one_fill_and_one_show_per_block() {
    let styles = vec![BLACK, RED];
    let order = [0u32, 0, 0, 0, 1, 1, 1, 0, 0, 0];
    let glyphs: Vec<StyledGlyph> =
        order.iter().enumerate().map(|(i, s)| glyph(i as u32, 7, *s)).collect();
    let mut surface = Surface::new();
    let cursor = surface.draw_run(0, 50, &glyphs, &styles, 2, 16).unwrap();
    assert_eq!(cursor, 70);
    let stream = surface.finish();
    assert_eq!(
        stream.ops(),
        &vec![
            Operator::SetFill { paint: BLACK },
            Operator::ShowGlyphs { x: 0, y: 50, font: 2, font_size: 16, start: 0, end: 4 },
            Operator::SetFill { paint: RED },
            Operator::ShowGlyphs { x: 28, y: 50, font: 2, font_size: 16, start: 4, end: 7 },
            Operator::SetFill { paint: BLACK },
            Operator::ShowGlyphs { x: 49, y: 50, font: 2, font_size: 16, start: 7, end: 10 },
        ]
    );
    assert_eq!(stream.glyphs(), &glyphs);
    let shows = stream.ops().iter().filter(|op| matches!(op, Operator::ShowGlyphs { .. })).count();
    let fills = stream.ops().iter().filter(|op| matches!(op, Operator::SetFill { .. })).count();
    assert_eq!(shows, 3);
    assert!(fills <= 3);
}

#[test]
fn draw_run_after_other_content_offsets_the_glyph_ranges() {
    let styles = vec![BLACK, RED];
    let mut surface = Surface::new();
    surface.set_fill(RED);
    surface.draw_glyphs(1, 2, &[glyph(40, 3, 1), glyph(41, 3, 1)], 0, 12);
    let run = vec![glyph(0, 5, 1), glyph(1, 5, 0)];
    let cursor = surface.draw_run(10, 20, &run, &styles, 1, 12).unwrap();
    assert_eq!(cursor, 20);
    let stream = surface.finish();
    assert_eq!(
        stream.ops(),
        &vec![
            Operator::SetFill { paint: RED },
            Operator::ShowGlyphs { x: 1, y: 2, font: 0, font_size: 12, start: 0, end: 2 },
            Operator::SetFill { paint: RED },
            Operator::ShowGlyphs { x: 10, y: 20, font: 1, font_size: 12, start: 2, end: 3 },
            Operator::SetFill { paint: BLACK },
            Operator::ShowGlyphs { x: 15, y: 20, font: 1, font_size: 12, start: 3, end: 4 },
        ]
    );
    assert_eq!(stream.glyphs().len(), 4);
    assert_eq!(stream.glyphs()[2], run[0]);
    assert_eq!(stream.glyphs()[3], run[1]);
}

#[test]
fn draw_run_that_overflows_draws_nothing() {
    let styles = vec![BLACK];
    let mut surface = Surface::new();
    surface.set_fill(RED);
    let run = vec![glyph(0, i32::MAX, 0), glyph(1, 1, 0)];
    assert_eq!(
        surface.draw_run(i64::MAX - i32::MAX as i64, 0, &run, &styles, 0, 10),
        Err(LayoutError::CursorOverflow)
    );
    let stream = surface.finish();
    assert_eq!(stream.ops(), &vec![Operator::SetFill { paint: RED }]);
    assert!(stream.glyphs().is_empty());
}

#[test]
fn draw_run_of_no_glyphs_emits_nothing() {
    let mut surface = Surface::new();
    assert_eq!(surface.draw_run(5, 5, &vec![], &vec![], 0, 10), Ok(5));
    let stream = surface.finish();
    assert!(stream.ops().is_empty());
    assert!(stream.glyphs().is_empty());
}

#[test]
fn draw_glyph_range_shows_the_chosen_glyphs() {
    let glyphs = vec![glyph(0, 1, 0), glyph(1, 1, 0), glyph(2, 1, 0), glyph(3, 1, 0)];
    let mut surface = Surface::new();
    surface.draw_glyph_range(9, 8, &glyphs, 1, 3, 7, 11);
    let stream = surface.finish();
    assert_eq!(
        stream.ops(),
        &vec![Operator::ShowGlyphs { x: 9, y: 8, font: 7, font_size: 11, start: 0, end: 2 }]
    );
    assert_eq!(stream.glyphs(), &glyphs[1..3].to_vec());
}
