use remycord::decimal::{format_decimal, parse_decimal};
use remycord::disk_cache::clear::{clear_plan, ClearScope};
use remycord::disk_cache::entry::{get, put};
use remycord::disk_cache::listing::{stats, CacheStats, FileEntry};
use remycord::disk_cache::names::{is_avatar_file, is_sidecar_file, CacheKey};
use remycord::disk_cache::sidecar::{format_sidecar, read_sidecar};
use remycord::error::LoadError;
use remycord::pixels::ProcessedImage;

fn file(name: &str, size: u64) -> FileEntry {
    FileEntry { name: name.to_string(), size, is_file: true }
}

fn dir(name: &str) -> FileEntry {
    FileEntry { name: name.to_string(), size: 4096, is_file: false }
}

fn sample_listing() -> Vec<FileEntry> {
    vec![
        file("avatar_1.png", 1000),
        file("avatar_1.meta", 7),
        file("555.png", 20000),
        file("555.meta", 7),
        file("avatar_2.png", 3000),
        dir("avatar_dir"),
        file("notes.txt", 50),
    ]
}

#[test]
fn decimal_writes_shortest_form() {
    assert_eq!(format_decimal(0), b"0".to_vec());
    assert_eq!(format_decimal(7), b"7".to_vec());
    assert_eq!(format_decimal(10), b"10".to_vec());
    assert_eq!(format_decimal(128), b"128".to_vec());
    assert_eq!(format_decimal(u64::MAX), b"18446744073709551615".to_vec());
}

#[test]
fn decimal_reads_fields() {
    let text = b"12,0034,x,4294967295,4294967296,".to_vec();
    assert_eq!(parse_decimal(&text, 0, 2), Some(12));
    assert_eq!(parse_decimal(&text, 3, 7), Some(34));
    assert_eq!(parse_decimal(&text, 8, 9), None);
    assert_eq!(parse_decimal(&text, 10, 20), Some(u32::MAX));
    assert_eq!(parse_decimal(&text, 21, 31), None);
    assert_eq!(parse_decimal(&text, 5, 5), None);
    assert_eq!(parse_decimal(&text, 0, 3), None);
}

#[test]
fn decimal_round_trip_on_values() {
    for n in [0u32, 1, 9, 10, 99, 100, 128, 65535, 1_000_000, u32::MAX] {
        let text = format_decimal(n as u64);
        assert_eq!(parse_decimal(&text, 0, text.len()), Some(n));
    }
}

#[test]
fn sidecar_is_width_comma_height() {
    assert_eq!(format_sidecar(128, 128), b"128,128".to_vec());
    assert_eq!(format_sidecar(0, 7), b"0,7".to_vec());
    assert_eq!(format_sidecar(u32::MAX, 1), b"4294967295,1".to_vec());
}

#[test]
fn sidecar_reads_what_was_written() {
    for (w, h) in [(1u32, 1u32), (128, 128), (320, 200), (0, 0), (u32::MAX, u32::MAX)] {
        assert_eq!(read_sidecar(&format_sidecar(w, h)), Some((w, h)));
    }
}

#[test]
fn sidecar_rejects_anything_else() {
    assert_eq!(read_sidecar(&b"".to_vec()), None);
    assert_eq!(read_sidecar(&b"128".to_vec()), None);
    assert_eq!(read_sidecar(&b",128".to_vec()), None);
    assert_eq!(read_sidecar(&b"128,".to_vec()), None);
    assert_eq!(read_sidecar(&b"128,128,".to_vec()), None);
    assert_eq!(read_sidecar(&b"1,2,3".to_vec()), None);
    assert_eq!(read_sidecar(&b"128x128".to_vec()), None);
    assert_eq!(read_sidecar(&b"128,128\n".to_vec()), None);
    assert_eq!(read_sidecar(&b" 128,128".to_vec()), None);
    assert_eq!(read_sidecar(&b"-1,5".to_vec()), None);
    assert_eq!(read_sidecar(&b"4294967296,5".to_vec()), None);
    assert_eq!(read_sidecar(&b"12a,5".to_vec()), None);
}

#[test]
fn sidecar_accepts_leading_zeros() {
    assert_eq!(read_sidecar(&b"0128,007".to_vec()), Some((128, 7)));
}

#[test]
fn key_file_names() {
    let avatar = CacheKey::Avatar("42".to_string());
    assert!(avatar.is_avatar());
    assert_eq!(avatar.stem(), "avatar_42");
    assert_eq!(avatar.image_file_name(), "avatar_42.png");
    assert_eq!(avatar.sidecar_file_name(), "avatar_42.meta");
    let attachment = CacheKey::Attachment("987654321".to_string());
    assert!(!attachment.is_avatar());
    assert_eq!(attachment.stem(), "987654321");
    assert_eq!(attachment.image_file_name(), "987654321.png");
    assert_eq!(attachment.sidecar_file_name(), "987654321.meta");
}

#[test]
fn names_tell_kinds_apart() {
    assert!(is_avatar_file("avatar_42.png"));
    assert!(is_avatar_file("avatar_42.meta"));
    assert!(is_avatar_file("avatar_"));
    assert!(!is_avatar_file("avatar"));
    assert!(!is_avatar_file("Avatar_42.png"));
    assert!(!is_avatar_file("42.png"));
    assert!(!is_avatar_file(""));
    assert!(is_sidecar_file("42.meta"));
    assert!(is_sidecar_file(".meta"));
    assert!(!is_sidecar_file("42.png"));
    assert!(!is_sidecar_file("meta"));
    assert!(!is_sidecar_file("42.meta.png"));
}

#[test]
fn stats_count_images_not_sidecars() {
    let listing = sample_listing();
    let s: CacheStats = stats(&listing, "/tmp/cache");
    assert_eq!(s.total_files, 4);
    assert_eq!(s.avatar_files, 2);
    assert_eq!(s.attachment_files, 2);
    assert_eq!(s.total_size_bytes, 1000 + 20000 + 3000 + 50);
    assert_eq!(s.cache_path, "/tmp/cache");
}

#[test]
fn stats_of_empty_directory() {
    let s = stats(&Vec::new(), "x");
    assert_eq!(s.total_files, 0);
    assert_eq!(s.avatar_files, 0);
    assert_eq!(s.attachment_files, 0);
    assert_eq!(s.total_size_bytes, 0);
    let e = CacheStats::empty("x");
    assert_eq!(e.total_files, 0);
    assert_eq!(e.total_size_bytes, 0);
    assert_eq!(e.cache_path, "x");
}

#[test]
fn stats_total_is_capped() {
    let listing = vec![file("a.png", u64::MAX), file("b.png", 5)];
    let s = stats(&listing, "x");
    assert_eq!(s.total_size_bytes, u64::MAX);
    assert_eq!(s.total_files, 2);
}

#[test]
fn stats_whole_mebibytes() {
    let listing = vec![file("a.png", 3 * 1_048_576 + 17)];
    assert_eq!(stats(&listing, "x").total_size_mb(), 3);
    let small = vec![file("a.png", 1_048_575)];
    assert_eq!(stats(&small, "x").total_size_mb(), 0);
}

#[test]
fn clearing_avatars_leaves_attachments() {
    let listing = sample_listing();
    let names = clear_plan(&listing, ClearScope::Avatars);
    assert_eq!(names, vec!["avatar_1.png", "avatar_1.meta", "avatar_2.png"]);
    let left: Vec<FileEntry> =
        listing.iter().filter(|e| !names.contains(&e.name)).cloned().collect();
    let s = stats(&left, "x");
    assert_eq!(s.avatar_files, 0);
    assert_eq!(s.attachment_files, 2);
}

#[test]
fn clearing_attachments_leaves_avatars() {
    let listing = sample_listing();
    let names = clear_plan(&listing, ClearScope::Attachments);
    assert_eq!(names, vec!["555.png", "555.meta", "notes.txt"]);
    let left: Vec<FileEntry> =
        listing.iter().filter(|e| !names.contains(&e.name)).cloned().collect();
    let s = stats(&left, "x");
    assert_eq!(s.avatar_files, 2);
    assert_eq!(s.attachment_files, 0);
}

#[test]
fn clearing_all_names_everything() {
    let listing = sample_listing();
    let names = clear_plan(&listing, ClearScope::All);
    assert_eq!(names.len(), listing.len());
    assert_eq!(names[5], "avatar_dir");
}

#[test]
fn entry_needs_both_files() {
    assert!(get(None, None).is_none());
    assert!(get(Some(vec![1, 2, 3]), None).is_none());
    assert!(get(None, Some(b"1,1".to_vec())).is_none());
    assert!(get(Some(vec![1, 2, 3]), Some(b"oops".to_vec())).is_none());
    let hit = get(Some(vec![1, 2, 3]), Some(b"10,20".to_vec())).unwrap();
    assert_eq!(hit.bytes, vec![1, 2, 3]);
    assert_eq!(hit.width, 10);
    assert_eq!(hit.height, 20);
}

#[test]
fn put_then_get_reports_recorded_size() {
    let image = ProcessedImage::from_rgba(3, 2, vec![200u8; 24]).unwrap();
    let key = CacheKey::Attachment("77".to_string());
    let plan = put(&key, &image).unwrap();
    assert_eq!(plan.image_file, "77.png");
    assert_eq!(plan.sidecar_file, "77.meta");
    assert_eq!(plan.sidecar_bytes, b"3,2".to_vec());
    assert_eq!(&plan.image_bytes[0..8], &[0x89, b'P', b'N', b'G', 0x0d, 0x0a, 0x1a, 0x0a]);
    let stored = get(Some(plan.image_bytes.clone()), Some(plan.sidecar_bytes.clone())).unwrap();
    assert_eq!((stored.width, stored.height), (3, 2));
    assert_eq!(stored.bytes, plan.image_bytes);
}

#[test]
fn load_error_descriptions() {
    assert_eq!(LoadError::Network.describe(), "image could not be fetched");
    assert_eq!(LoadError::Decode.describe(), "image could not be decoded");
    assert_eq!(LoadError::Io.describe(), "image cache could not be accessed");
    assert_eq!(LoadError::UnsupportedProtocol.describe(), "terminal cannot display images");
}
