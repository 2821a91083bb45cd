use yt_dlp_gui::app::search::{SearchResultRow, SortColumn, SortDirection};
use yt_dlp_gui::app::search_order::{compare_formats, result_rows_in_order, sorted_result_indices, SortableFormat};

fn blank() -> SortableFormat {
    SortableFormat {
        format_id: None,
        format_note: None,
        extension: None,
        resolution: None,
        width: None,
        height: None,
        bitrate_rank: None,
        filesize: None,
        filesize_approx: None,
        video_codec: None,
        audio_codec: None,
    }
}

fn with_size(exact: Option<u64>, approx: Option<u64>) -> SortableFormat {
    SortableFormat { filesize: exact, filesize_approx: approx, ..blank() }
}

fn with_id(id: &str) -> SortableFormat {
    SortableFormat { format_id: Some(id.to_owned()), ..blank() }
}

fn row(id: &str) -> SearchResultRow {
    SearchResultRow {
        format_id: id.to_owned(),
        format_note: String::new(),
        extension: "mp4".to_owned(),
        resolution: String::new(),
        bitrate: String::new(),
        file_size: String::new(),
        video_codec: String::new(),
        audio_codec: String::new(),
    }
}

#[test]
fn without_a_sort_the_listed_order_is_kept() {
    let keys = vec![with_id("b"), with_id("a"), with_id("c")];
    assert_eq!(sorted_result_indices(&keys, None, SortDirection::Ascending), vec![0, 1, 2]);
    assert_eq!(sorted_result_indices(&keys, Some(SortColumn::FormatId), SortDirection::Reset), vec![0, 1, 2]);
}

#[test]
fn file_size_uses_the_estimate_and_puts_missing_sizes_last() {
    let keys = vec![
        with_size(Some(30), None),
        with_size(None, None),
        with_size(Some(10), Some(99)),
        with_size(None, Some(20)),
    ];
    assert_eq!(sorted_result_indices(&keys, Some(SortColumn::FileSize), SortDirection::Ascending), vec![2, 3, 0, 1]);
    assert_eq!(sorted_result_indices(&keys, Some(SortColumn::FileSize), SortDirection::Descending), vec![0, 3, 2, 1]);
}

#[test]
fn numeric_format_ids_sort_as_numbers() {
    let keys = vec![with_id("10"), with_id("9"), with_id("137")];
    assert_eq!(sorted_result_indices(&keys, Some(SortColumn::FormatId), SortDirection::Ascending), vec![1, 0, 2]);
}

#[test]
fn text_columns_ignore_case_and_keep_ties_in_listed_order() {
    let codec = |value: &str| SortableFormat { video_codec: Some(value.to_owned()), ..blank() };
    let keys = vec![codec("b"), codec("A"), codec("a")];
    assert_eq!(sorted_result_indices(&keys, Some(SortColumn::VideoCodec), SortDirection::Ascending), vec![1, 2, 0]);
    assert_eq!(sorted_result_indices(&keys, Some(SortColumn::VideoCodec), SortDirection::Descending), vec![0, 1, 2]);
}

#[test]
fn resolution_sorts_by_height_then_width() {
    let size = |width: u64, height: u64| SortableFormat { width: Some(width), height: Some(height), ..blank() };
    let keys = vec![size(1920, 1080), size(640, 360), size(1280, 1080), blank()];
    assert_eq!(sorted_result_indices(&keys, Some(SortColumn::Resolution), SortDirection::Ascending), vec![1, 2, 0, 3]);
}

#[test]
fn bitrate_ranks_order_the_bitrate_column() {
    let rank = |value: u64| SortableFormat { bitrate_rank: Some(value), ..blank() };
    let keys = vec![rank(2), blank(), rank(0), rank(1)];
    assert_eq!(sorted_result_indices(&keys, Some(SortColumn::Bitrate), SortDirection::Descending), vec![0, 3, 2, 1]);
    assert_eq!(
        compare_formats(&keys[1], &keys[0], SortColumn::Bitrate),
        std::cmp::Ordering::Greater
    );
}

#[test]
fn rows_follow_the_order_and_skip_unknown_positions() {
    let rows = vec![row("a"), row("b"), row("c")];
    let ordered = result_rows_in_order(&rows, &[2, 7, 0]);
    assert_eq!(ordered, vec![row("c"), row("a")]);
}
