use term_clock::layout::{compute_layout, glyph_block_width, Layout, LayoutError};

#[test]
fn width_of_hours_and_minutes() {
    assert_eq!(glyph_block_width(&vec![1, 4, 10, 0, 5]), Some(35));
}

#[test]
fn width_of_hours_minutes_seconds() {
    assert_eq!(glyph_block_width(&vec![0, 0, 10, 0, 0, 10, 0, 0]), Some(55));
}

#[test]
fn width_of_single_symbols_and_none() {
    assert_eq!(glyph_block_width(&vec![]), Some(0));
    assert_eq!(glyph_block_width(&vec![10]), Some(3));
    assert_eq!(glyph_block_width(&vec![8]), Some(7));
}

#[test]
fn width_ignores_the_order() {
    let a = glyph_block_width(&vec![1, 4, 10, 0, 5]);
    let b = glyph_block_width(&vec![10, 5, 0, 4, 1]);
    assert_eq!(a, b);
}

#[test]
fn width_beyond_a_column_number() {
    assert_eq!(glyph_block_width(&vec![10; 16384]), Some(65535));
    assert_eq!(glyph_block_width(&vec![10; 16385]), None);
    assert_eq!(glyph_block_width(&vec![1; 8192]), Some(65535));
    assert_eq!(glyph_block_width(&vec![1; 8193]), None);
    assert_eq!(glyph_block_width(&vec![1; 20000]), None);
}

#[test]
fn corner_layout() {
    let layout = compute_layout(&vec![1, 4, 10, 0, 5], 10, false, 80, 24).unwrap();
    assert_eq!(
        layout,
        Layout { block_width: 35, anchor_x: 1, anchor_y: 1, label_anchor_x: 12, label_anchor_y: 7 }
    );
}

#[test]
fn centered_layout() {
    let layout = compute_layout(&vec![1, 4, 10, 0, 5], 10, true, 80, 24).unwrap();
    assert_eq!(
        layout,
        Layout {
            block_width: 35,
            anchor_x: 23,
            anchor_y: 10,
            label_anchor_x: 35,
            label_anchor_y: 16
        }
    );
    assert_eq!(layout.anchor_x + layout.block_width / 2, 80 / 2);
}

#[test]
fn centered_block_meets_the_middle_for_odd_sizes() {
    let layout = compute_layout(&vec![1, 2, 10, 3, 4, 10, 5, 6], 3, true, 81, 25).unwrap();
    assert_eq!(layout.block_width, 55);
    assert_eq!(layout.anchor_x + 27, 40);
    assert_eq!(layout.anchor_y, 10);
    assert_eq!(layout.label_anchor_x, 39);
    assert_eq!(layout.label_anchor_y, 16);
}

#[test]
fn block_too_wide_for_the_terminal() {
    assert_eq!(
        compute_layout(&vec![1, 4, 10, 0, 5], 10, true, 33, 24),
        Err(LayoutError::BlockTooWide)
    );
    assert!(compute_layout(&vec![1, 4, 10, 0, 5], 10, true, 34, 24).is_ok());
    assert_eq!(compute_layout(&vec![1; 9000], 0, false, 80, 24), Err(LayoutError::BlockTooWide));
}

#[test]
fn label_too_wide() {
    assert_eq!(
        compute_layout(&vec![1, 4, 10, 0, 5], 36, false, 80, 24),
        Err(LayoutError::LabelTooWide)
    );
    assert!(compute_layout(&vec![1, 4, 10, 0, 5], 35, false, 80, 24).is_ok());
    assert_eq!(
        compute_layout(&vec![1, 4, 10, 0, 5], 82, true, 80, 24),
        Err(LayoutError::LabelTooWide)
    );
    assert_eq!(
        compute_layout(&vec![1, 4, 10, 0, 5], 70000, true, 80, 24),
        Err(LayoutError::LabelTooWide)
    );
}

#[test]
fn terminal_too_short() {
    assert_eq!(
        compute_layout(&vec![1, 4, 10, 0, 5], 10, true, 80, 3),
        Err(LayoutError::TerminalTooShort)
    );
    let layout = compute_layout(&vec![1, 4, 10, 0, 5], 10, true, 80, 4).unwrap();
    assert_eq!(layout.anchor_y, 0);
    assert!(compute_layout(&vec![1, 4, 10, 0, 5], 10, false, 80, 0).is_ok());
}
