use downloads_backend::descriptor::{build_descriptor, build_descriptors, RawEntry};
use downloads_backend::encode::{encode_bytes, encode_read_result};
use downloads_backend::classify::{is_image_path, mime_for_path};
use downloads_backend::finder::plan_reveal;

fn entry(name: &str, path: &str, size: u64) -> RawEntry {
    RawEntry {
        name: name.to_string(),
        path: path.to_string(),
        size,
        created_at: None,
        modified_at: None,
    }
}

#[test]
fn classify_mixed_extensions() {
    // Five image entries among eight, with an uppercase extension counted
    // and a dotfile not: enumeration marks exactly the image entries.
    let entries = vec![
        entry("a.png", "/d/a.png", 1),
        entry("b.TXT", "/d/b.TXT", 2),
        entry("c.JPG", "/d/c.JPG", 3),
        entry("noext", "/d/noext", 4),
        entry(".gif", "/d/.gif", 5),
        entry("e.webp", "/d/e.webp", 6),
        entry("f.jpeg", "/d/f.jpeg", 7),
        entry("g.gif", "/d/g.gif", 8),
    ];
    let ds = build_descriptors(entries);
    assert_eq!(ds.len(), 8);
    let flags: Vec<bool> = ds.iter().map(|d| d.is_image).collect();
    assert_eq!(flags, vec![true, false, true, false, false, true, true, true]);
    assert_eq!(ds.iter().filter(|d| d.is_image).count(), 5);
}

#[test]
fn enumeration_idempotent() {
    let make = || {
        vec![
            entry("a.png", "/d/a.png", 10),
            entry("b.txt", "/d/b.txt", 20),
            entry("c", "/d/c", 30),
        ]
    };
    let first = build_descriptors(make());
    let second = build_descriptors(make());
    assert_eq!(first.len(), second.len());
    for (x, y) in first.iter().zip(second.iter()) {
        assert_eq!(x.path, y.path);
        assert_eq!(x.size, y.size);
        assert_eq!(x.is_image, y.is_image);
        assert_eq!(x.name, y.name);
    }
}

#[test]
fn descriptor_preserves_entry_fields() {
    let e = RawEntry {
        name: "photo.JPG".to_string(),
        path: "/home/u/Downloads/photo.JPG".to_string(),
        size: 123456,
        created_at: Some("2024-01-02T03:04:05+01:00".to_string()),
        modified_at: Some("2024-02-03T04:05:06+01:00".to_string()),
    };
    let d = build_descriptor(e);
    assert_eq!(d.name, "photo.JPG");
    assert_eq!(d.path, "/home/u/Downloads/photo.JPG");
    assert_eq!(d.size, 123456);
    assert_eq!(d.created_at, Some("2024-01-02T03:04:05+01:00".to_string()));
    assert_eq!(d.modified_at, Some("2024-02-03T04:05:06+01:00".to_string()));
    assert!(d.is_image);
}

#[test]
fn encode_png_exact() {
    let uri = encode_bytes("a.png", &[0x89, 0x50, 0x4E, 0x47]);
    assert_eq!(uri, "data:image/png;base64,iVBORw==");
}

#[test]
fn encode_txt_prefix() {
    let uri = encode_bytes("/tmp/note.txt", b"hello");
    assert!(uri.starts_with("data:application/octet-stream;base64,"));
}

#[test]
fn encode_empty_file() {
    let uri = encode_bytes("/d/empty.gif", &[]);
    assert_eq!(uri, "data:image/gif;base64,");
}

#[test]
fn encode_read_failure_keeps_message() {
    let r = encode_read_result(
        "/nowhere/missing.png",
        Err("No such file or directory (os error 2)".to_string()),
    );
    let msg = r.unwrap_err();
    assert!(!msg.is_empty());
    assert_eq!(msg, "No such file or directory (os error 2)");
}

#[test]
fn encode_read_success() {
    let r = encode_read_result("a.png", Ok(vec![0x89, 0x50, 0x4E, 0x47]));
    assert_eq!(r.unwrap(), "data:image/png;base64,iVBORw==");
}

#[test]
fn mime_mapping() {
    assert_eq!(mime_for_path("a.png"), "image/png");
    assert_eq!(mime_for_path("b.jpg"), "image/jpeg");
    assert_eq!(mime_for_path("c.jpeg"), "image/jpeg");
    assert_eq!(mime_for_path("d.gif"), "image/gif");
    assert_eq!(mime_for_path("e.webp"), "image/webp");
    assert_eq!(mime_for_path("f.pdf"), "application/octet-stream");
    assert_eq!(mime_for_path("noext"), "application/octet-stream");
    assert_eq!(mime_for_path("g.PnG"), "image/png");
    assert_eq!(mime_for_path("/x/.webp"), "application/octet-stream");
}

#[test]
fn image_classification_cases() {
    assert!(is_image_path("/d/a.png"));
    assert!(is_image_path("/d/a.PNG"));
    assert!(is_image_path("a.JpEg"));
    assert!(!is_image_path("/d/a.txt"));
    assert!(!is_image_path("/d/a"));
    assert!(!is_image_path("/d/.png"));
    assert!(!is_image_path(""));
    assert!(!is_image_path("/d/a.png/"));
    assert!(is_image_path("dir.d/a.gif"));
    assert!(!is_image_path("dir.png/a"));
}

#[test]
fn reveal_missing_path_is_refused() {
    let r = plan_reveal("/nowhere/at/all", false);
    assert_eq!(r.unwrap_err(), "Path does not exist");
}

#[test]
fn reveal_existing_path_plans_both_scripts() {
    let plan = plan_reveal("/tmp/x.png", true).unwrap();
    assert_eq!(
        plan.reveal_arg,
        "tell application \"Finder\" to reveal POSIX file \"/tmp/x.png\""
    );
    assert_eq!(plan.activate_arg, "tell application \"Finder\" to activate");
}
