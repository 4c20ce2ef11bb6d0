use remycord::error::LoadError;
use remycord::pixels::ProcessedImage;
use remycord::transform::mask::circle_mask;
use remycord::transform::sizing::{AttachmentSizing, TargetSize, MAX_TARGET};
use remycord::transform::{
    can_resample, decode, encode, resize_exact, resize_for_attachment, resize_for_avatar,
    AVATAR_SIZE,
};

fn solid(width: u32, height: u32, value: u8) -> ProcessedImage {
    ProcessedImage::from_rgba(width, height, vec![value; (4 * width * height) as usize]).unwrap()
}

fn alpha(img: &ProcessedImage, x: u32, y: u32) -> u8 {
    img.pixels()[(4 * (y * img.width() + x) + 3) as usize]
}

fn sizing() -> AttachmentSizing {
    AttachmentSizing {
        min_cols: 20,
        min_rows: 5,
        max_cols: 40,
        max_rows: 20,
        cell_width: 8,
        cell_height: 16,
    }
}

#[test]
fn image_needs_matching_buffer() {
    assert!(ProcessedImage::from_rgba(2, 2, vec![0; 16]).is_some());
    assert!(ProcessedImage::from_rgba(2, 2, vec![0; 15]).is_none());
    assert!(ProcessedImage::from_rgba(2, 2, vec![0; 17]).is_none());
    assert!(ProcessedImage::from_rgba(0, 2, vec![]).is_none());
    assert!(ProcessedImage::from_rgba(2, 0, vec![]).is_none());
    assert!(ProcessedImage::from_rgba(16_385, 1, vec![0; 4 * 16_385]).is_some());
    assert!(ProcessedImage::from_rgba(16_385, 1, vec![0; 4 * 16_384]).is_none());
    assert!(ProcessedImage::from_rgba(u32::MAX, u32::MAX, vec![0; 16]).is_none());
    let img = ProcessedImage::from_rgba(3, 1, vec![9; 12]).unwrap();
    assert_eq!(img.width(), 3);
    assert_eq!(img.height(), 1);
    assert_eq!(img.pixels(), &vec![9u8; 12]);
    let copy = img.duplicate();
    assert_eq!(copy.into_parts(), (3, 1, vec![9u8; 12]));
}

#[test]
fn mask_clears_corners_and_keeps_centre() {
    let masked = circle_mask(solid(8, 8, 255));
    assert_eq!(masked.width(), 8);
    assert_eq!(masked.height(), 8);
    assert_eq!(alpha(&masked, 0, 0), 0);
    assert_eq!(alpha(&masked, 7, 0), 0);
    assert_eq!(alpha(&masked, 0, 7), 0);
    assert_eq!(alpha(&masked, 7, 7), 0);
    assert_eq!(alpha(&masked, 4, 4), 255);
    assert_eq!(alpha(&masked, 4, 0), 255);
    assert_eq!(alpha(&masked, 0, 4), 255);
    assert_eq!(alpha(&masked, 1, 1), 0);
    assert_eq!(alpha(&masked, 2, 1), 255);
    for i in 0..(8 * 8) {
        assert_eq!(masked.pixels()[4 * i], 255);
        assert_eq!(masked.pixels()[4 * i + 1], 255);
        assert_eq!(masked.pixels()[4 * i + 2], 255);
    }
}

#[test]
fn mask_matches_distance_rule_everywhere() {
    let (w, h) = (13u32, 7u32);
    let masked = circle_mask(solid(w, h, 200));
    let d = w.min(h) as i64;
    for y in 0..h {
        for x in 0..w {
            let dx = 2 * x as i64 - w as i64;
            let dy = 2 * y as i64 - h as i64;
            let outside = dx * dx + dy * dy > d * d;
            assert_eq!(alpha(&masked, x, y), if outside { 0 } else { 200 });
        }
    }
}

#[test]
fn mask_is_idempotent() {
    let once = circle_mask(solid(9, 9, 77));
    let twice = circle_mask(once.duplicate());
    assert_eq!(once.pixels(), twice.pixels());
}

#[test]
fn decode_reads_what_encode_wrote() {
    let mut pixels = Vec::new();
    for i in 0..(5 * 4) {
        pixels.extend_from_slice(&[i as u8, (2 * i) as u8, (3 * i) as u8, 255]);
    }
    let img = ProcessedImage::from_rgba(5, 4, pixels.clone()).unwrap();
    let png = encode(&img).unwrap();
    assert_ne!(png, pixels);
    assert_eq!(&png[1..4], b"PNG");
    let back = decode(&png).unwrap();
    assert_eq!(back.width(), 5);
    assert_eq!(back.height(), 4);
    assert_eq!(back.pixels(), &pixels);
}

#[test]
fn decode_rejects_what_is_no_image() {
    assert_eq!(decode(b"definitely not an image").err(), Some(LoadError::Decode));
    assert_eq!(decode(&[]).err(), Some(LoadError::Decode));
    let png = encode(&solid(4, 4, 1)).unwrap();
    assert_eq!(decode(&png[0..20]).err(), Some(LoadError::Decode));
}

#[test]
fn resize_exact_gives_the_size_asked_for() {
    let img = solid(10, 6, 128);
    let out = resize_exact(&img, 3, 17);
    assert_eq!((out.width(), out.height()), (3, 17));
    assert_eq!(out.pixels().len(), 4 * 3 * 17);
    let same = resize_exact(&img, 10, 6);
    assert_eq!(same.pixels(), img.pixels());
}

#[test]
fn avatar_is_square_and_round() {
    let out = resize_for_avatar(&solid(40, 25, 255));
    assert_eq!(out.width(), AVATAR_SIZE);
    assert_eq!(out.height(), AVATAR_SIZE);
    assert_eq!(alpha(&out, 0, 0), 0);
    assert_eq!(alpha(&out, 127, 127), 0);
    assert_eq!(alpha(&out, 64, 64), 255);
    assert_eq!(alpha(&out, 64, 1), 255);
}

#[test]
fn large_attachment_is_scaled_down_into_the_box() {
    let s = sizing();
    assert_eq!(
        s.target_size(1000, 500),
        TargetSize { width: 320, height: 160, cols: 40, rows: 10 }
    );
    assert_eq!(
        s.target_size(500, 1000),
        TargetSize { width: 160, height: 320, cols: 20, rows: 20 }
    );
    assert_eq!(
        s.target_size(333, 1000),
        TargetSize { width: 106, height: 320, cols: 14, rows: 20 }
    );
}

#[test]
fn attachment_within_the_box_is_left_alone() {
    let s = sizing();
    assert_eq!(
        s.target_size(200, 100),
        TargetSize { width: 200, height: 100, cols: 25, rows: 7 }
    );
    assert_eq!(
        s.target_size(160, 80),
        TargetSize { width: 160, height: 80, cols: 20, rows: 5 }
    );
    assert_eq!(
        s.target_size(320, 320),
        TargetSize { width: 320, height: 320, cols: 40, rows: 20 }
    );
}

#[test]
fn small_attachment_is_scaled_up_to_the_minimum() {
    let s = sizing();
    assert_eq!(
        s.target_size(80, 80),
        TargetSize { width: 160, height: 160, cols: 20, rows: 10 }
    );
    assert_eq!(
        s.target_size(100, 40),
        TargetSize { width: 200, height: 80, cols: 25, rows: 5 }
    );
}

#[test]
fn upscaling_is_bounded() {
    let s = sizing();
    assert_eq!(s.target_size(10, 10), TargetSize { width: 40, height: 40, cols: 5, rows: 3 });
    assert_eq!(s.target_size(1, 1), TargetSize { width: 4, height: 4, cols: 1, rows: 1 });
}

#[test]
fn scaled_up_attachment_is_cut_to_the_box() {
    let s = sizing();
    assert_eq!(
        s.target_size(2000, 40),
        TargetSize { width: 320, height: 80, cols: 40, rows: 5 }
    );
}

#[test]
fn attachment_without_size_fills_the_box() {
    let s = sizing();
    assert_eq!(s.target_size(0, 0), TargetSize { width: 320, height: 320, cols: 40, rows: 20 });
    assert_eq!(s.target_size(0, 50), TargetSize { width: 320, height: 320, cols: 40, rows: 20 });
    assert_eq!(s.declared_footprint(None, None), (40, 20));
    assert_eq!(s.declared_footprint(Some(100), None), (40, 20));
    assert_eq!(s.declared_footprint(Some(0), Some(10)), (40, 20));
    assert_eq!(s.declared_footprint(Some(1000), Some(500)), (40, 10));
}

#[test]
fn target_never_exceeds_the_box_or_the_limit() {
    let s = sizing();
    for (w, h) in [(1u32, 1u32), (5, 4000), (4000, 5), (16384, 16384), (321, 1), (u32::MAX, u32::MAX), (u32::MAX, 1)] {
        let t = s.target_size(w, h);
        assert!(t.width >= 1 && t.width <= 320);
        assert!(t.height >= 1 && t.height <= 320);
        assert!(t.cols >= 1 && t.cols <= 40);
        assert!(t.rows >= 1 && t.rows <= 20);
    }
    let huge = AttachmentSizing {
        min_cols: 0,
        min_rows: 0,
        max_cols: u16::MAX,
        max_rows: u16::MAX,
        cell_width: u16::MAX,
        cell_height: u16::MAX,
    };
    let t = huge.target_size(16384, 16384);
    assert_eq!((t.width, t.height, t.cols, t.rows), (16384, 16384, 1, 1));
    let t = huge.target_size(0, 0);
    assert_eq!((t.width, t.height), (MAX_TARGET, MAX_TARGET));
}

#[test]
fn large_attachment_within_its_box_is_left_alone() {
    let wide = AttachmentSizing {
        min_cols: 20,
        min_rows: 5,
        max_cols: 1000,
        max_rows: 20,
        cell_width: 8,
        cell_height: 16,
    };
    assert_eq!(
        wide.target_size(5000, 100),
        TargetSize { width: 5000, height: 100, cols: 625, rows: 7 }
    );
    assert_eq!(
        wide.target_size(8000, 320),
        TargetSize { width: 8000, height: 320, cols: 1000, rows: 20 }
    );
    let kept = resize_for_attachment(solid(5000, 100, 7), &wide);
    assert_eq!((kept.image.width(), kept.image.height()), (5000, 100));
    assert_eq!(kept.image.pixels(), &vec![7u8; 4 * 5000 * 100]);
    assert_eq!((kept.terminal_width, kept.terminal_height), (625, 7));
    assert_eq!(
        wide.target_size(8001, 320),
        TargetSize { width: 4096, height: 163, cols: 512, rows: 11 }
    );
    assert_eq!(
        wide.target_size(5000, 400),
        TargetSize { width: 4000, height: 320, cols: 500, rows: 20 }
    );
}

#[test]
fn picture_of_avatar_size_is_only_masked() {
    let mut pixels = Vec::new();
    for i in 0..(128 * 128) {
        pixels.extend_from_slice(&[(i % 251) as u8, (i % 7) as u8, 9, 255]);
    }
    let img = ProcessedImage::from_rgba(128, 128, pixels).unwrap();
    let out = resize_for_avatar(&img);
    let expected = circle_mask(img.duplicate());
    assert_eq!(out.pixels(), expected.pixels());
    assert_ne!(out.pixels(), img.pixels());
}

#[test]
fn aspect_is_kept_unless_scaled_up() {
    let s = sizing();
    for (w, h) in [(1000u32, 500u32), (500, 1000), (333, 1000), (1920, 1080), (161, 4000), (4000, 81)] {
        let t = s.target_size(w, h);
        let cross = t.width as i64 * h as i64 - t.height as i64 * w as i64;
        let longer = w.max(h) as i64;
        assert!(cross.abs() < longer);
    }
}

#[test]
fn cell_height_follows_correction() {
    let s = AttachmentSizing::new((20, 5), (40, 20), 8, 200);
    assert_eq!(s.cell_width, 8);
    assert_eq!(s.cell_height, 16);
    assert_eq!((s.min_cols, s.min_rows, s.max_cols, s.max_rows), (20, 5, 40, 20));
    assert_eq!(AttachmentSizing::new((1, 1), (2, 2), 10, 150).cell_height, 15);
    assert_eq!(AttachmentSizing::new((1, 1), (2, 2), 10, 0).cell_height, 1);
    assert_eq!(AttachmentSizing::new((1, 1), (2, 2), 0, 200).cell_height, 1);
    assert_eq!(AttachmentSizing::new((1, 1), (2, 2), u16::MAX, u16::MAX).cell_height, u16::MAX);
    assert_eq!(AttachmentSizing::new((1, 1), (2, 2), 7, 199).cell_height, 13);
}

#[test]
fn zero_cell_counts_as_one_pixel() {
    let s = AttachmentSizing {
        min_cols: 1,
        min_rows: 1,
        max_cols: 10,
        max_rows: 10,
        cell_width: 0,
        cell_height: 0,
    };
    assert_eq!(s.target_size(100, 50), TargetSize { width: 10, height: 5, cols: 10, rows: 5 });
}

#[test]
fn attachment_is_resized_to_its_target() {
    let s = sizing();
    let out = resize_for_attachment(solid(1000, 500, 90), &s);
    assert_eq!((out.image.width(), out.image.height()), (320, 160));
    assert_eq!((out.terminal_width, out.terminal_height), (40, 10));
    let kept = resize_for_attachment(solid(200, 100, 90), &s);
    assert_eq!((kept.image.width(), kept.image.height()), (200, 100));
    assert_eq!(kept.image.pixels(), &vec![90u8; 4 * 200 * 100]);
    assert_eq!((kept.terminal_width, kept.terminal_height), (25, 7));
}

#[test]
fn wide_image_is_held_and_processed() {
    let wide = solid(20_000, 2, 200);
    let back = decode(&encode(&wide).unwrap()).unwrap();
    assert_eq!((back.width(), back.height()), (20_000, 2));
    assert_eq!(back.pixels(), wide.pixels());

    assert!(can_resample(20_000, AVATAR_SIZE));
    let avatar = resize_for_avatar(&wide);
    assert_eq!((avatar.width(), avatar.height()), (AVATAR_SIZE, AVATAR_SIZE));

    let target = sizing().target_size(20_000, 2);
    assert_eq!((target.width, target.height), (320, 8));
    assert!(can_resample(20_000, target.height));
    let shown = resize_for_attachment(wide.duplicate(), &sizing());
    assert_eq!((shown.image.width(), shown.image.height()), (320, 8));
    assert_eq!((shown.terminal_width, shown.terminal_height), (40, 1));

    let masked = circle_mask(wide);
    assert_eq!((masked.width(), masked.height()), (20_000, 2));
    assert_eq!(alpha(&masked, 0, 0), 0);
    assert_eq!(alpha(&masked, 9_998, 0), 0);
    assert_eq!(alpha(&masked, 9_999, 0), 0);
    assert_eq!(alpha(&masked, 9_999, 1), 200);
    assert_eq!(alpha(&masked, 10_000, 1), 200);
    assert_eq!(alpha(&masked, 10_001, 1), 200);
    assert_eq!(alpha(&masked, 10_002, 1), 0);
}

#[test]
fn resampling_is_bounded_by_the_machine() {
    assert!(can_resample(1, 1));
    assert!(can_resample(16_384, 4_096));
    assert!(can_resample(32_767, 4_096));
    assert_eq!(can_resample(u32::MAX, 4_096), usize::BITS >= 64);
    assert!(!can_resample(u32::MAX, u32::MAX));
}

#[test]
fn cells_cover_what_is_shown_as_it_is() {
    let s = sizing();
    assert_eq!(s.cover_size(200, 100), (25, 7));
    assert_eq!(s.cover_size(320, 40), (40, 3));
    assert_eq!(s.cover_size(1, 1), (1, 1));
    assert_eq!(s.cover_size(8, 16), (1, 1));
    assert_eq!(s.cover_size(9, 17), (2, 2));
    assert_eq!(s.cover_size(0, 0), (1, 1));
    assert_eq!(s.cover_size(u32::MAX, 65_535 * 16), (65_535, 65_535));
    assert_eq!(s.cover_size(400, 65_535 * 16 + 1), (50, 65_535));
    for (w, h) in [(1u32, 1u32), (10_000, 10), (200, 100), (5, 4_000), (4_000, 5), (0, 7)] {
        let t = s.target_size(w, h);
        assert_eq!(s.cover_size(t.width, t.height), (t.cols, t.rows));
    }
}
