use libsnatch::download::RangeBytes;
use libsnatch::download::aggregate_verdict;
use libsnatch::download::check_chunk_response;
use libsnatch::download::chunk_succeeded;
use libsnatch::download::compute_chunk_stride;
use libsnatch::download::finish_chunk;
use libsnatch::download::get_chunk_length;
use libsnatch::download::get_header_from_index;
use libsnatch::download::plan_ranges;
use libsnatch::download::ChunkError;
use libsnatch::download::ChunkProgress;
use libsnatch::headers::Headers;
use libsnatch::http_version::HttpVersion;
use libsnatch::response::Response;

#[test]
fn wrong_content_length_parameter_should_return_none() {
    assert_eq!(None, get_chunk_length(0, 15, 0));
}

#[test]
fn wrong_global_chunk_length_parameter_should_return_none() {
    assert_eq!(None, get_chunk_length(0, 0, 15));
}

#[test]
fn wrong_length_parameters_should_return_none() {
    assert_eq!(None, get_chunk_length(0, 0, 0));
}

#[test]
fn get_the_first_range_in_chunk() {
    assert_eq!(Some(RangeBytes(0, 249)), get_chunk_length(0, 1000, 250));
}

#[test]
fn get_the_last_range_in_chunk() {
    assert_eq!(Some(RangeBytes(750, 999)), get_chunk_length(3, 1000, 250));
}

#[test]
fn get_the_last_range_in_shorten_chunk() {
    assert_eq!(Some(RangeBytes(750, 997)), get_chunk_length(3, 998, 250));
}

#[test]
fn wrong_index_parameter_should_return_none() {
    assert_eq!(None, get_chunk_length(4, 1000, 250));
}

#[test]
fn wrong_chunk_length_should_return_none() {
    assert!(get_header_from_index(0, 0, 0).is_none());
}

#[test]
fn good_chunk_length_should_return_a_good_header() {
    let (header, range) = get_header_from_index(3, 998, 250).unwrap();
    assert_eq!(header, b"bytes=750-997".to_vec());
    assert_eq!(range, RangeBytes(750, 247));
}

#[test]
fn stride_splits_the_remainder_over_the_chunks() {
    assert_eq!(251, compute_chunk_stride(1000, 4));
    assert_eq!(1001, compute_chunk_stride(1000, 1));
}

#[test]
fn planned_ranges_cover_the_content_without_gaps_or_overlaps() {
    let ranges = plan_ranges(1000, 4);
    assert_eq!(
        ranges,
        vec![
            RangeBytes(0, 250),
            RangeBytes(251, 501),
            RangeBytes(502, 752),
            RangeBytes(753, 999),
        ]
    );
    let mut next_start: u64 = 0;
    for r in &ranges {
        assert_eq!(r.0, next_start);
        assert!(r.0 <= r.1);
        next_start = r.1 + 1;
    }
    assert_eq!(next_start, 1000);
}

#[test]
fn small_content_produces_fewer_ranges_than_requested() {
    let ranges = plan_ranges(5, 16);
    assert!(ranges.len() < 16);
    for r in &ranges {
        assert!(r.1 <= 4);
    }
}

#[test]
fn single_range_plan_covers_everything() {
    let ranges = plan_ranges(1000, 1);
    assert_eq!(ranges, vec![RangeBytes(0, 999)]);
}

fn plain_response(status: u16) -> Response {
    Response {
        version: HttpVersion::Http11,
        status: status,
        headers: Headers {
            www_authenticate: None,
            content_length: None,
            accept_ranges: false,
        },
    }
}

#[test]
fn ignored_range_request_fails_the_chunk() {
    assert_eq!(
        Err(ChunkError::PartialContentNotHonored),
        check_chunk_response(true, &plain_response(200))
    );
    assert_eq!(Ok(()), check_chunk_response(true, &plain_response(206)));
    assert_eq!(Ok(()), check_chunk_response(false, &plain_response(200)));
}

#[test]
fn empty_transfer_is_a_failed_chunk() {
    assert_eq!(Err(ChunkError::EmptyChunk), finish_chunk(0));
    assert_eq!(Ok(7), finish_chunk(7));
}

#[test]
fn chunk_outcomes_reduce_to_one_verdict() {
    assert!(chunk_succeeded(&Ok(1)));
    assert!(!chunk_succeeded(&Ok(0)));
    assert!(!chunk_succeeded(&Err(ChunkError::Transport)));
    assert!(!chunk_succeeded(&Err(ChunkError::PartialContentNotHonored)));

    assert!(aggregate_verdict(&vec![]));
    assert!(aggregate_verdict(&vec![true, true, true]));
    assert!(!aggregate_verdict(&vec![true, false, true]));
}

#[test]
fn forced_single_range_verdict_follows_the_transfer() {
    // A degraded, single-range download: the verdict is true exactly when
    // the one transfer moved at least one byte.
    let full: Vec<bool> = vec![chunk_succeeded(&finish_chunk(1000))];
    assert!(aggregate_verdict(&full));
    let empty: Vec<bool> = vec![chunk_succeeded(&finish_chunk(0))];
    assert!(!aggregate_verdict(&empty));
}

#[test]
fn progress_accounting_reports_each_byte_once() {
    let mut progress = ChunkProgress::new();
    assert_eq!(0, progress.transferred);
    progress.advance(100);
    progress.advance(28);
    assert_eq!(128, progress.transferred);
    assert_eq!(128, progress.take_unreported());
    assert_eq!(0, progress.take_unreported());
    progress.advance(72);
    assert_eq!(72, progress.take_unreported());
    assert_eq!(200, progress.transferred);
}
