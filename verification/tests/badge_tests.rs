use codex_gauge::badge::{fill_circle, icon_with_update_badge};

#[test]
fn draws_mint_update_badge_without_changing_canvas_size() {
    let badged = icon_with_update_badge(vec![0; 32 * 32 * 4], 32, 32);

    assert_eq!(badged.len(), 32 * 32 * 4);
    assert!(badged
        .chunks_exact(4)
        .any(|pixel| pixel == [112, 235, 198, 255]));
}

#[test]
fn badge_sits_in_the_top_right_corner() {
    let badged = icon_with_update_badge(vec![0; 32 * 32 * 4], 32, 32);
    let pixel = |x: usize, y: usize| &badged[(y * 32 + x) * 4..(y * 32 + x) * 4 + 4];
    assert_eq!(pixel(27, 5), &[112, 235, 198, 255]);
    assert_eq!(pixel(27, 9), &[24, 32, 40, 242]);
    assert_eq!(pixel(0, 0), &[0, 0, 0, 0]);
    assert_eq!(pixel(27, 11), &[0, 0, 0, 0]);
    assert!(icon_with_update_badge(Vec::new(), 0, 7).is_empty());
}

#[test]
fn circle_is_clipped_to_the_image() {
    let mut rgba = vec![9u8; 4 * 4 * 4];
    fill_circle(&mut rgba, 4, 4, 0, 0, 1, [1, 2, 3, 4]);
    let painted: Vec<usize> = (0..16).filter(|p| rgba[p * 4] == 1).collect();
    assert_eq!(painted, vec![0, 1, 4]);
    let mut untouched = vec![9u8; 4 * 4 * 4];
    fill_circle(&mut untouched, 4, 4, 2, 2, -1, [1, 2, 3, 4]);
    assert!(untouched.iter().all(|b| *b == 9));
}
