use dco3::errors::{DracoonClientError, DracoonErrorResponse};
use dco3::upload::{
    calculate_s3_url_count, upload_mode, FileMeta, PresignedUrl, PublicUploadShare,
    S3ShareUploadStatus, S3UploadStatus, UploadAction, UploadEvent, UploadPhase, UploadState,
    CHUNK_SIZE, MAX_POLLING_DELAY,
};

const MIB: u64 = 1024 * 1024;

fn meta(name: &str, size: u64) -> FileMeta {
    FileMeta {
        name: name.to_string(),
        size,
        timestamp_creation: Some(1_700_000_000),
        timestamp_modification: None,
    }
}

fn url(u: &str, part: u32) -> UploadEvent {
    UploadEvent::UrlsIssued(vec![PresignedUrl { url: u.to_string(), part_number: part }])
}

fn status(s: S3UploadStatus, name: &str) -> UploadEvent {
    UploadEvent::Status(S3ShareUploadStatus {
        status: s,
        file_name: name.to_string(),
        error_details: None,
    })
}

/// Opens the channel and returns the state ready to read the first part.
fn opened(size: u64, chunk: Option<u64>) -> (UploadState, UploadAction) {
    let (mut st, action) = UploadState::new("KEY".to_string(), meta("x.txt", size), chunk, None).unwrap();
    match action {
        UploadAction::CreateChannel { path, request } => {
            assert_eq!(path, "api/v4/public/shares/uploads/KEY");
            assert_eq!(request.name, "x.txt");
            assert_eq!(request.size, Some(size));
            assert_eq!(request.timestamp_creation, Some(1_700_000_000));
            assert_eq!(request.direct_s3_upload, Some(true));
        }
        _ => panic!("expected channel creation"),
    }
    let next = st.step(UploadEvent::ChannelCreated("U".to_string()));
    (st, next)
}

/// Runs one part: read, URL request, PUT. Returns the action after the ETag.
fn run_part(st: &mut UploadState, first: UploadAction, part: u32, len: u64, etag: &str) -> UploadAction {
    match first {
        UploadAction::ReadChunk { len: l } => assert_eq!(l, len),
        _ => panic!("expected a read"),
    }
    match st.step(UploadEvent::ChunkRead(len)) {
        UploadAction::RequestUrls { path, request } => {
            assert_eq!(path, "api/v4/public/shares/uploads/KEY/s3_urls");
            assert_eq!(request.size, len);
            assert_eq!(request.first_part_number, part);
            assert_eq!(request.last_part_number, part);
        }
        _ => panic!("expected a URL request"),
    }
    match st.step(url("https://s3/p", part)) {
        UploadAction::PutChunk { url, part_number, len: l, .. } => {
            assert_eq!(url, "https://s3/p");
            assert_eq!(part_number, part);
            assert_eq!(l, len);
        }
        _ => panic!("expected a PUT"),
    }
    st.step(UploadEvent::PartUploaded(etag.to_string()))
}

#[test]
fn plan_boundaries() {
    assert_eq!(calculate_s3_url_count(0, CHUNK_SIZE), (1, 0));
    assert_eq!(calculate_s3_url_count(CHUNK_SIZE, CHUNK_SIZE), (1, CHUNK_SIZE));
    assert_eq!(calculate_s3_url_count(CHUNK_SIZE + 1, CHUNK_SIZE), (2, 1));
    assert_eq!(calculate_s3_url_count(10, 32 * MIB), (1, 10));
    assert_eq!(calculate_s3_url_count(32 * MIB + 5, 32 * MIB), (2, 5));
    assert_eq!(calculate_s3_url_count(100, 7), (15, 2));
}

#[test]
fn plan_covers_every_size() {
    for chunk in 1u64..9 {
        for size in 1u64..60 {
            let (count, last) = calculate_s3_url_count(size, chunk);
            assert_eq!((count as u64 - 1) * chunk + last, size);
            assert!(1 <= last && last <= chunk);
        }
    }
}

#[test]
fn small_unencrypted_upload() {
    let (mut st, first) = opened(10, None);
    let fin = run_part(&mut st, first, 1, 10, "e1");
    match fin {
        UploadAction::Finalize { path, request } => {
            assert_eq!(path, "api/v4/public/shares/uploads/KEY/s3");
            assert_eq!(request.parts.len(), 1);
            assert_eq!(request.parts[0].part_number, 1);
            assert_eq!(request.parts[0].part_etag, "e1");
            assert!(request.user_file_keys.is_none());
        }
        _ => panic!("expected finalize"),
    }
    match st.step(UploadEvent::Finalized) {
        UploadAction::PollStatus { path, delay_ms } => {
            assert_eq!(path, "api/v4/public/shares/uploads/KEY/U");
            assert_eq!(delay_ms, 0);
        }
        _ => panic!("expected a poll"),
    }
    match st.step(status(S3UploadStatus::Transferring, "")) {
        UploadAction::PollStatus { delay_ms, .. } => assert_eq!(delay_ms, 300),
        _ => panic!("expected a poll"),
    }
    match st.step(status(S3UploadStatus::Done, "x.txt")) {
        UploadAction::Finish(name) => assert_eq!(name, "x.txt"),
        _ => panic!("expected the end"),
    }
    assert_eq!(st.phase(), UploadPhase::Done);
}

#[test]
fn two_chunk_upload() {
    let (mut st, first) = opened(32 * MIB + 5, Some(32 * MIB));
    let second = run_part(&mut st, first, 1, 32 * MIB, "e1");
    assert_eq!(st.bytes_transferred(), 32 * MIB);
    let fin = run_part(&mut st, second, 2, 5, "e2");
    match fin {
        UploadAction::Finalize { request, .. } => {
            let numbers: Vec<u32> = request.parts.iter().map(|p| p.part_number).collect();
            let etags: Vec<&str> = request.parts.iter().map(|p| p.part_etag.as_str()).collect();
            assert_eq!(numbers, vec![1, 2]);
            assert_eq!(etags, vec!["e1", "e2"]);
        }
        _ => panic!("expected finalize"),
    }
}

#[test]
fn put_offsets_follow_parts() {
    let (mut st, _) = opened(25, Some(10));
    let mut offsets = Vec::new();
    for (part, len) in [(1u32, 10u64), (2, 10), (3, 5)] {
        st.step(UploadEvent::ChunkRead(len));
        match st.step(url("u", part)) {
            UploadAction::PutChunk { offset, .. } => offsets.push(offset),
            _ => panic!("expected a PUT"),
        }
        st.step(UploadEvent::PartUploaded(format!("e{}", part)));
    }
    assert_eq!(offsets, vec![0, 10, 20]);
    assert_eq!(st.phase(), UploadPhase::Finalizing);
    assert_eq!(st.bytes_transferred(), 25);
}

#[test]
fn zero_byte_upload_sends_one_empty_part() {
    let (mut st, first) = opened(0, None);
    let fin = run_part(&mut st, first, 1, 0, "empty");
    match fin {
        UploadAction::Finalize { request, .. } => {
            assert_eq!(request.parts.len(), 1);
            assert_eq!(request.parts[0].part_number, 1);
        }
        _ => panic!("expected finalize"),
    }
}

#[test]
fn exact_chunk_upload_has_one_full_part() {
    let (mut st, first) = opened(16, Some(16));
    let fin = run_part(&mut st, first, 1, 16, "e1");
    assert!(matches!(fin, UploadAction::Finalize { .. }));
}

#[test]
fn chunk_plus_one_upload_has_two_parts() {
    let (mut st, first) = opened(17, Some(16));
    let second = run_part(&mut st, first, 1, 16, "e1");
    let fin = run_part(&mut st, second, 2, 1, "e2");
    match fin {
        UploadAction::Finalize { request, .. } => assert_eq!(request.parts.len(), 2),
        _ => panic!("expected finalize"),
    }
}

#[test]
fn short_read_is_io_error() {
    let (mut st, _) = opened(20, Some(16));
    match st.step(UploadEvent::ChunkRead(3)) {
        UploadAction::Fail(e) => assert_eq!(e, DracoonClientError::IoError),
        _ => panic!("expected failure"),
    }
    assert_eq!(st.phase(), UploadPhase::Failed);
}

#[test]
fn missing_url_is_invalid_response() {
    let (mut st, _) = opened(5, None);
    st.step(UploadEvent::ChunkRead(5));
    match st.step(UploadEvent::UrlsIssued(Vec::new())) {
        UploadAction::Fail(e) => assert_eq!(e, DracoonClientError::InvalidResponse),
        _ => panic!("expected failure"),
    }
}

#[test]
fn unexpected_event_is_invalid_response() {
    let (mut st, _) = opened(5, None);
    match st.step(UploadEvent::Finalized) {
        UploadAction::Fail(e) => assert_eq!(e, DracoonClientError::InvalidResponse),
        _ => panic!("expected failure"),
    }
}

#[test]
fn reported_failure_ends_upload() {
    let (mut st, _) = opened(5, None);
    match st.step(UploadEvent::Failed(DracoonClientError::IoError)) {
        UploadAction::Fail(e) => assert_eq!(e, DracoonClientError::IoError),
        _ => panic!("expected failure"),
    }
    assert_eq!(st.phase(), UploadPhase::Failed);
}

fn finalized(size: u64) -> UploadState {
    let (mut st, first) = opened(size, None);
    run_part(&mut st, first, 1, size, "e1");
    st.step(UploadEvent::Finalized);
    st
}

#[test]
fn error_status_gives_http_error() {
    let mut st = finalized(4);
    let details = DracoonErrorResponse { status: 500, code: Some(-1), message: "boom".to_string() };
    let action = st.step(UploadEvent::Status(S3ShareUploadStatus {
        status: S3UploadStatus::Error,
        file_name: String::new(),
        error_details: Some(details.clone()),
    }));
    match action {
        UploadAction::Fail(e) => assert_eq!(e, DracoonClientError::Http(details)),
        _ => panic!("expected failure"),
    }
}

#[test]
fn error_status_without_details_is_invalid_response() {
    let mut st = finalized(4);
    match st.step(status(S3UploadStatus::Error, "")) {
        UploadAction::Fail(e) => assert_eq!(e, DracoonClientError::InvalidResponse),
        _ => panic!("expected failure"),
    }
}

#[test]
fn polling_backs_off_up_to_cap() {
    let mut st = finalized(4);
    let mut delays = Vec::new();
    for _ in 0..12 {
        match st.step(status(S3UploadStatus::Finishing, "")) {
            UploadAction::PollStatus { delay_ms, .. } => delays.push(delay_ms),
            _ => panic!("expected a poll"),
        }
    }
    assert_eq!(delays[..8].to_vec(), vec![300, 600, 1200, 2400, 4800, 9600, 19200, 30000]);
    assert!(delays.iter().all(|d| *d <= MAX_POLLING_DELAY));
    assert_eq!(delays[11], MAX_POLLING_DELAY);
}

#[test]
fn invalid_chunk_sizes_are_rejected() {
    let err = UploadState::new("K".to_string(), meta("a", 10), Some(0), None).err().unwrap();
    assert_eq!(err, DracoonClientError::InvalidChunkSize);
    let err = UploadState::new("K".to_string(), meta("a", 10), Some(6 * 1024 * MIB), None)
        .err()
        .unwrap();
    assert_eq!(err, DracoonClientError::InvalidChunkSize);
    let err = UploadState::new("K".to_string(), meta("a", 1 << 33), Some(1), None).err().unwrap();
    assert_eq!(err, DracoonClientError::InvalidChunkSize);
    assert!(UploadState::new("K".to_string(), meta("a", 1 << 33), Some(4), None).is_ok());
}

#[test]
fn upload_mode_follows_storage_and_share() {
    let plain = PublicUploadShare { is_encrypted: None, user_user_public_key_list: None };
    assert_eq!(upload_mode(false, &plain), Err(DracoonClientError::UnsupportedStorageMode));
    assert_eq!(upload_mode(true, &plain), Ok(false));
    let encrypted = PublicUploadShare { is_encrypted: Some(true), user_user_public_key_list: None };
    assert_eq!(upload_mode(true, &encrypted), Ok(true));
}

#[test]
fn polling_stops_at_limit() {
    let mut st = finalized(4);
    st.set_poll_limit(Some(2));
    assert!(matches!(st.step(status(S3UploadStatus::Transferring, "")), UploadAction::PollStatus { .. }));
    assert!(matches!(st.step(status(S3UploadStatus::Finishing, "")), UploadAction::PollStatus { .. }));
    match st.step(status(S3UploadStatus::Transferring, "")) {
        UploadAction::Fail(e) => assert_eq!(e, DracoonClientError::UploadTimeout),
        _ => panic!("expected a timeout"),
    }
    assert_eq!(st.phase(), UploadPhase::Failed);
}
