use re_fast::clipboard::{
    add_clipboard_item, after_remove_attempt, delete_clipboard_item, enforce_max_items,
    favorite_mark, get_all_clipboard_items, image_file_is_unused, toggle_favorite_clipboard_item,
    update_clipboard_item, ClipboardItem, ClipboardMonitor, ClipboardRow, ClipboardWrite,
    RemoveRetry,
};
use re_fast::clipboard_image::{append_hex, clipboard_image_name, dib_to_rgba, save_png, DibHeader};
use re_fast::text::{like_pattern, to_unsigned};

fn row(id: &str, created_at: i64, is_favorite: i64) -> ClipboardRow {
    ClipboardRow {
        id: id.to_string(),
        content: format!("content of {}", id),
        content_type: "text".to_string(),
        created_at,
        is_favorite,
    }
}

fn stored(id: &str, favorite: bool) -> ClipboardItem {
    ClipboardItem {
        id: id.to_string(),
        content: "old".to_string(),
        content_type: "text".to_string(),
        created_at: 7,
        is_favorite: favorite,
    }
}

#[test]
fn rows_become_items_in_the_same_order() {
    let items = get_all_clipboard_items(vec![row("a", 30, 0), row("b", 20, 1), row("c", -1, 5)]);
    assert_eq!(items.len(), 3);
    assert_eq!(items[0].id, "a");
    assert_eq!(items[0].content, "content of a");
    assert_eq!(items[0].content_type, "text");
    assert_eq!(items[0].created_at, 30);
    assert!(!items[0].is_favorite);
    assert_eq!(items[1].id, "b");
    assert!(items[1].is_favorite);
    assert_eq!(items[2].id, "c");
    assert_eq!(items[2].created_at, u64::MAX);
    assert!(items[2].is_favorite);
    assert!(get_all_clipboard_items(Vec::new()).is_empty());
}

#[test]
fn stored_seconds_wrap_like_a_cast() {
    for raw in [0i64, 1, i64::MAX, -1, i64::MIN, -123_456] {
        assert_eq!(to_unsigned(raw), raw as u64);
    }
}

#[test]
fn new_content_gets_an_id_from_the_time() {
    let (item, write) = add_clipboard_item("hello".to_string(), "text".to_string(), 1_700_000_000, None);
    assert_eq!(item.id, "clipboard-1700000000");
    assert_eq!(item.content, "hello");
    assert_eq!(item.content_type, "text");
    assert_eq!(item.created_at, 1_700_000_000);
    assert!(!item.is_favorite);
    assert_eq!(write, ClipboardWrite::Insert);
}

#[test]
fn known_content_keeps_its_id() {
    let (item, write) =
        add_clipboard_item("hello".to_string(), "text".to_string(), 99, Some("clipboard-5".to_string()));
    assert_eq!(item.id, "clipboard-5");
    assert_eq!(item.created_at, 99);
    assert!(!item.is_favorite);
    assert_eq!(write, ClipboardWrite::Touch);
}

#[test]
fn surplus_is_what_exceeds_the_limit() {
    assert_eq!(enforce_max_items(0, 5_000), 0);
    assert_eq!(enforce_max_items(100, 99), 0);
    assert_eq!(enforce_max_items(100, 100), 0);
    assert_eq!(enforce_max_items(100, 101), 1);
    assert_eq!(enforce_max_items(100, 250), 150);
    assert_eq!(enforce_max_items(100, -3), 0);
    assert_eq!(enforce_max_items(u32::MAX, i64::MAX), i64::MAX - u32::MAX as i64);
}

#[test]
fn image_files_go_when_nothing_else_holds_them() {
    assert!(image_file_is_unused("image", 1, 1));
    assert!(image_file_is_unused("image", 0, 1));
    assert!(!image_file_is_unused("image", 2, 1));
    assert!(image_file_is_unused("image", 0, 0));
    assert!(!image_file_is_unused("image", 1, 0));
    assert!(!image_file_is_unused("text", 0, 0));
}

#[test]
fn removal_is_tried_three_times() {
    assert_eq!(after_remove_attempt(1, true), RemoveRetry::Removed);
    assert_eq!(after_remove_attempt(1, false), RemoveRetry::RetryAfter(100));
    assert_eq!(after_remove_attempt(2, false), RemoveRetry::RetryAfter(100));
    assert_eq!(after_remove_attempt(3, false), RemoveRetry::GiveUp);
    assert_eq!(after_remove_attempt(3, true), RemoveRetry::Removed);
}

#[test]
fn update_replaces_the_content() {
    let updated = update_clipboard_item("id-1".to_string(), "new".to_string(), Some(stored("id-1", true))).unwrap();
    assert_eq!(updated.id, "id-1");
    assert_eq!(updated.content, "new");
    assert_eq!(updated.content_type, "text");
    assert_eq!(updated.created_at, 7);
    assert!(updated.is_favorite);
    let missing = update_clipboard_item("id-2".to_string(), "new".to_string(), None);
    assert_eq!(missing.unwrap_err(), "Clipboard item id-2 not found");
}

#[test]
fn toggle_flips_the_favourite_mark() {
    let on = toggle_favorite_clipboard_item("id-1".to_string(), Some(stored("id-1", false))).unwrap();
    assert!(on.is_favorite);
    assert_eq!(on.content, "old");
    let off = toggle_favorite_clipboard_item("id-1".to_string(), Some(on)).unwrap();
    assert!(!off.is_favorite);
    let missing = toggle_favorite_clipboard_item("id-9".to_string(), None);
    assert_eq!(missing.unwrap_err(), "Clipboard item id-9 not found");
    assert_eq!(favorite_mark(true), 1);
    assert_eq!(favorite_mark(false), 0);
}

#[test]
fn delete_needs_a_removed_row() {
    assert_eq!(delete_clipboard_item(0), Err("Clipboard item not found".to_string()));
    assert_eq!(delete_clipboard_item(1), Ok(()));
}

#[test]
fn monitor_passes_new_content_once() {
    let mut monitor = ClipboardMonitor::new();
    assert!(!monitor.observe_text(""));
    assert!(monitor.observe_text("a"));
    assert!(!monitor.observe_text("a"));
    assert!(monitor.observe_text("b"));
    assert!(monitor.observe_text("a"));
    assert!(!monitor.observe_image(""));
    assert!(monitor.observe_image("img/1.png"));
    assert!(!monitor.observe_image("img/1.png"));
    assert_eq!(monitor.last_text, "a");
    assert_eq!(monitor.last_image, "img/1.png");
}

#[test]
fn search_pattern_is_lower_case_between_percent_signs() {
    assert_eq!(like_pattern("HeLLo"), "%hello%");
    assert_eq!(like_pattern(""), "%%");
}

#[test]
fn bitmap_rows_are_flipped_and_colours_swapped() {
    let header = DibHeader { width: 2, height: 2, bit_count: 24 };
    let pixels = [
        1, 2, 3, 4, 5, 6, 0, 0, // bottom row: two pixels and two bytes of padding
        7, 8, 9, 10, 11, 12, 0, 0, // top row
    ];
    let rgba = dib_to_rgba(&header, &pixels).unwrap();
    assert_eq!(rgba, vec![9, 8, 7, 255, 12, 11, 10, 255, 3, 2, 1, 255, 6, 5, 4, 255]);
}

#[test]
fn bitmap_with_four_bytes_per_pixel_and_negative_height() {
    let header = DibHeader { width: 1, height: -2, bit_count: 32 };
    let pixels = [1, 2, 3, 99, 4, 5, 6, 99];
    assert_eq!(dib_to_rgba(&header, &pixels).unwrap(), vec![6, 5, 4, 255, 3, 2, 1, 255]);
}

#[test]
fn pixels_beyond_the_data_are_left_out() {
    let header = DibHeader { width: 2, height: 2, bit_count: 24 };
    let pixels = [1, 2, 3, 4, 5, 6, 0, 0, 7, 8, 9, 10];
    assert_eq!(dib_to_rgba(&header, &pixels).unwrap(), vec![9, 8, 7, 255, 3, 2, 1, 255, 6, 5, 4, 255]);
    assert_eq!(dib_to_rgba(&header, &[]).unwrap(), Vec::<u8>::new());
    let empty = DibHeader { width: 0, height: 5, bit_count: 24 };
    assert_eq!(dib_to_rgba(&empty, &pixels).unwrap(), Vec::<u8>::new());
}

#[test]
fn unusable_bitmaps_are_turned_away() {
    let pixels = [0u8; 64];
    assert_eq!(dib_to_rgba(&DibHeader { width: -1, height: 1, bit_count: 24 }, &pixels), None);
    assert_eq!(dib_to_rgba(&DibHeader { width: 1, height: i32::MIN, bit_count: 24 }, &pixels), None);
    assert_eq!(dib_to_rgba(&DibHeader { width: 1, height: 1, bit_count: 16 }, &pixels), None);
    assert_eq!(dib_to_rgba(&DibHeader { width: 1, height: 1, bit_count: 23 }, &pixels), None);
    assert_eq!(dib_to_rgba(&DibHeader { width: i32::MAX, height: 1, bit_count: 24 }, &pixels), None);
    assert_eq!(dib_to_rgba(&DibHeader { width: 30_000, height: 20_000, bit_count: 24 }, &pixels), None);
    assert!(dib_to_rgba(&DibHeader { width: 1, height: 1, bit_count: 24 }, &pixels).is_some());
}

#[test]
fn hex_is_lower_case_two_digits_a_byte() {
    let mut text = String::from("x");
    append_hex(&mut text, &[0x00, 0x0f, 0xa5, 0xff, 0x10], 4);
    assert_eq!(text, "x000fa5ff");
    append_hex(&mut text, &[0x12], 0);
    assert_eq!(text, "x000fa5ff");
}

#[test]
fn image_name_is_the_start_of_the_digest() {
    assert_eq!(clipboard_image_name(b"hello world"), "clipboard_b94d27b9934d3e08.png");
    assert_eq!(clipboard_image_name(b""), "clipboard_e3b0c44298fc1c14.png");
}

#[test]
fn png_file_is_written_for_matching_data() {
    let rgba = [255u8, 0, 0, 255, 0, 255, 0, 255];
    let file = save_png(&rgba, 2, 1).unwrap();
    assert_eq!(&file[..8], &[137, 80, 78, 71, 13, 10, 26, 10]);
    assert_eq!(&file[12..16], b"IHDR");
    assert_eq!(&file[16..24], &[0, 0, 0, 2, 0, 0, 0, 1]);
    assert_eq!(&file[24..26], &[8, 6]);
    assert_eq!(&file[file.len() - 8..file.len() - 4], b"IEND");
    let decoder = png::Decoder::new(std::io::Cursor::new(file));
    let mut reader = decoder.read_info().unwrap();
    let mut buffer = vec![0; reader.output_buffer_size()];
    let info = reader.next_frame(&mut buffer).unwrap();
    assert_eq!((info.width, info.height), (2, 1));
    assert_eq!(&buffer[..info.buffer_size()], &rgba);
}

#[test]
fn png_needs_pixels_and_matching_data() {
    assert_eq!(save_png(&[], 0, 1), Err("Failed to write PNG header".to_string()));
    assert_eq!(save_png(&[], 1, 0), Err("Failed to write PNG header".to_string()));
    assert_eq!(save_png(&[1, 2, 3], 1, 1), Err("Failed to write PNG data".to_string()));
    assert_eq!(save_png(&[1, 2, 3, 4, 5], 1, 1), Err("Failed to write PNG data".to_string()));
}

#[test]
fn png_sizes_are_checked_before_encoding() {
    assert_eq!(save_png(&[], 0x8000_0000, 0x8000_0000), Err("Failed to write PNG data".to_string()));
    assert_eq!(save_png(&[], u32::MAX, u32::MAX), Err("Failed to write PNG data".to_string()));
    assert_eq!(save_png(&[0; 4], 0x4000_0000, 4), Err("Failed to write PNG data".to_string()));
    assert_eq!(save_png(&[0; 8], 1, 1), Err("Failed to write PNG data".to_string()));
    assert!(save_png(&[0; 8], 1, 2).is_ok());
}
