//! Chunked uploads to object storage through presigned URLs.
use vstd::prelude::*;
use vstd::string::*;

use crate::crypto::{
    encrypt_payload, file_key_owners, recipient_ids, wrap_file_keys, EncryptedUpload, UserFileKey,
    UserUserPublicKey,
};
use crate::errors::{DracoonClientError, DracoonErrorResponse};

verus! {

/// Delay before the second status poll, in milliseconds.
pub const POLLING_START_DELAY: u64 = 300;

/// The longest delay between two status polls, in milliseconds.
pub const MAX_POLLING_DELAY: u64 = 30000;

/// Default size of one uploaded part: 32 MiB.
pub const CHUNK_SIZE: u64 = 33554432;

/// Largest part the object store accepts: 5 GiB.
pub const MAX_CHUNK_SIZE: u64 = 5368709120;

/// The chunk plan of a file: how many presigned URLs it needs and the size of
/// the final part.
pub open spec fn plan_spec(size: nat, chunk: nat) -> (nat, nat)
    recommends
        chunk > 0,
{
    if size == 0 {
        (1, 0)
    } else {
        let count = ((size + chunk - 1) as nat / chunk) as nat;
        (count, (size - (count - 1) * chunk) as nat)
    }
}

/// Number of parts `size` bytes take in parts of `chunk` bytes.
pub open spec fn plan_count(size: nat, chunk: nat) -> nat
    recommends
        chunk > 0,
{
    plan_spec(size, chunk).0
}

/// Number of parts of `chunk_size` bytes that `total_size` bytes take; at least one.
fn url_count(total_size: u64, chunk_size: u64) -> (r: u64)
    requires
        chunk_size > 0,
    ensures
        r as nat == plan_count(total_size as nat, chunk_size as nat),
        r >= 1,
        total_size > 0 ==> (r - 1) * chunk_size <= total_size,
{
    if total_size == 0 {
        return 1;
    }
    let full = total_size / chunk_size;
    let rest = total_size % chunk_size;
    proof {
        let s = total_size as int;
        let c = chunk_size as int;
        assert(s == (s / c) * c + s % c) by (nonlinear_arith)
            requires
                c > 0,
        ;
        assert(s % c != 0 ==> s / c < s) by (nonlinear_arith)
            requires
                c > 0,
                s > 0,
                s == (s / c) * c + s % c,
                0 <= s % c < c,
        ;
        assert(s % c == 0 ==> s / c >= 1) by (nonlinear_arith)
            requires
                c > 0,
                s > 0,
                s == (s / c) * c + s % c,
        ;
    }
    let count: u64 = if rest == 0 {
        full
    } else {
        full + 1
    };
    proof {
        let s = total_size as int;
        let c = chunk_size as int;
        assert((s + c - 1) / c == if s % c == 0 {
            s / c
        } else {
            s / c + 1
        }) by (nonlinear_arith)
            requires
                c > 0,
                s > 0,
                s == (s / c) * c + s % c,
                0 <= s % c < c,
        ;
        assert((count - 1) * c <= s) by (nonlinear_arith)
            requires
                c > 0,
                s == (s / c) * c + s % c,
                0 <= s % c < c,
                count == if s % c == 0 {
                    s / c
                } else {
                    s / c + 1
                },
                s > 0,
        ;
    }
    count
}

/// Computes `(count_urls, last_chunk_size)` for a file of `total_size` bytes
/// cut into parts of `chunk_size` bytes. An empty file still takes one (empty) part.
pub fn calculate_s3_url_count(total_size: u64, chunk_size: u64) -> (r: (u32, u64))
    requires
        chunk_size > 0,
        plan_count(total_size as nat, chunk_size as nat) <= u32::MAX,
    ensures
        (r.0 as nat, r.1 as nat) == plan_spec(total_size as nat, chunk_size as nat),
{
    let count = url_count(total_size, chunk_size);
    if total_size == 0 {
        return (1, 0);
    }
    let last = total_size - (count - 1) * chunk_size;
    (count as u32, last)
}

/// A non-empty file is covered exactly by its plan: every part but the last
/// holds a whole chunk, and the last one holds at least one byte and at most a chunk.
pub proof fn lemma_plan_covers_file(size: nat, chunk: nat)
    requires
        size > 0,
        chunk > 0,
    ensures
        plan_spec(size, chunk).0 >= 1,
        (plan_spec(size, chunk).0 - 1) * chunk + plan_spec(size, chunk).1 == size,
        1 <= plan_spec(size, chunk).1 <= chunk,
{
    let s = size as int;
    let c = chunk as int;
    let count = (s + c - 1) / c;
    assert(count >= 1 && (count - 1) * c < s && s <= count * c) by (nonlinear_arith)
        requires
            c > 0,
            s > 0,
            count == (s + c - 1) / c,
    ;
    assert((count - 1) * c + c == count * c) by (nonlinear_arith);
}

/// The upload share as the server describes it.
pub struct PublicUploadShare {
    pub is_encrypted: Option<bool>,
    pub user_user_public_key_list: Option<Vec<UserUserPublicKey>>,
}

/// Name, size and timestamps (seconds since the Unix epoch) of the uploaded file.
pub struct FileMeta {
    pub name: String,
    pub size: u64,
    pub timestamp_creation: Option<i64>,
    pub timestamp_modification: Option<i64>,
}

pub struct CreateShareUploadChannelRequest {
    pub name: String,
    pub size: Option<u64>,
    pub timestamp_creation: Option<i64>,
    pub timestamp_modification: Option<i64>,
    pub direct_s3_upload: Option<bool>,
}

pub struct GeneratePresignedUrlsRequest {
    pub size: u64,
    pub first_part_number: u32,
    pub last_part_number: u32,
}

pub struct PresignedUrl {
    pub url: String,
    pub part_number: u32,
}

pub struct S3FileUploadPart {
    pub part_number: u32,
    pub part_etag: String,
}

pub struct CompleteS3ShareUploadRequest {
    pub parts: Vec<S3FileUploadPart>,
    pub user_file_keys: Option<Vec<UserFileKey>>,
}

#[derive(Debug, Clone, Copy, PartialEq, Eq, Structural)]
pub enum S3UploadStatus {
    Transferring,
    Finishing,
    Done,
    Error,
}

pub struct S3ShareUploadStatus {
    pub status: S3UploadStatus,
    pub file_name: String,
    pub error_details: Option<DracoonErrorResponse>,
}

/// Relative path of an upload share's channel endpoint.
pub open spec fn share_upload_path(access_key: Seq<char>) -> Seq<char> {
    "api/v4/public/shares/uploads/"@ + access_key
}

pub open spec fn s3_urls_path(access_key: Seq<char>) -> Seq<char> {
    share_upload_path(access_key) + "/s3_urls"@
}

pub open spec fn s3_complete_path(access_key: Seq<char>) -> Seq<char> {
    share_upload_path(access_key) + "/s3"@
}

pub open spec fn upload_status_path(access_key: Seq<char>, upload_id: Seq<char>) -> Seq<char> {
    share_upload_path(access_key) + "/"@ + upload_id
}

/// The delay that follows `delay` between two status polls: twice as long,
/// but never above the cap.
pub open spec fn next_poll_delay(delay: u64) -> u64 {
    if 2 * delay > MAX_POLLING_DELAY {
        MAX_POLLING_DELAY
    } else {
        (2 * delay) as u64
    }
}

/// The parts carry the numbers 1, 2, ... in order.
pub open spec fn numbered_in_order(parts: Seq<S3FileUploadPart>) -> bool {
    forall|i: int| 0 <= i < parts.len() ==> (#[trigger] parts[i]).part_number == i + 1
}

fn channel_path(access_key: &str) -> (r: String)
    ensures
        r@ == share_upload_path(access_key@),
{
    let mut path = String::from_str("api/v4/public/shares/uploads/");
    path.append(access_key);
    path
}

fn path_under_channel(access_key: &str, rest: &str) -> (r: String)
    ensures
        r@ == share_upload_path(access_key@) + rest@,
{
    let mut path = channel_path(access_key);
    path.append(rest);
    path
}

/// Whether a chunk size can be used: above zero, within the per-part limit,
/// and giving a plan whose part numbers fit a `u32`.
pub open spec fn valid_chunk_size(size: u64, chunk: u64) -> bool {
    0 < chunk <= MAX_CHUNK_SIZE && plan_count(size as nat, chunk as nat) <= u32::MAX
}

#[derive(Debug, Clone, Copy, PartialEq, Eq, Structural)]
pub enum UploadPhase {
    CreatingChannel,
    ReadingChunk,
    RequestingUrl,
    Uploading,
    Finalizing,
    Polling,
    Done,
    Failed,
}

/// What the caller reports back after doing what the last action asked.
pub enum UploadEvent {
    ChannelCreated(String),
    ChunkRead(u64),
    UrlsIssued(Vec<PresignedUrl>),
    PartUploaded(String),
    Finalized,
    Status(S3ShareUploadStatus),
    Failed(DracoonClientError),
}

/// The next thing to do: a request to send, bytes to read, a delay, or the end.
pub enum UploadAction {
    CreateChannel { path: String, request: CreateShareUploadChannelRequest },
    /// Read exactly `len` bytes of the file for the current part.
    ReadChunk { len: u64 },
    RequestUrls { path: String, request: GeneratePresignedUrlsRequest },
    /// PUT the bytes just read, which start at `offset` in the file, to `url`.
    PutChunk { url: String, part_number: u32, offset: u64, len: u64 },
    Finalize { path: String, request: CompleteS3ShareUploadRequest },
    /// Wait `delay_ms`, then ask for the upload's status.
    PollStatus { path: String, delay_ms: u64 },
    Finish(String),
    Fail(DracoonClientError),
}

/// One upload in progress: the chunk plan, the parts sent so far and the phase
/// of the protocol.
pub struct UploadState {
    access_key: String,
    size: u64,
    chunk_size: u64,
    count_urls: u32,
    last_chunk_size: u64,
    upload_id: String,
    part: u32,
    part_len: u64,
    parts: Vec<S3FileUploadPart>,
    user_file_keys: Option<Vec<UserFileKey>>,
    poll_delay: u64,
    polls_left: Option<u32>,
    phase: UploadPhase,
}

impl UploadState {
    pub closed spec fn spec_phase(&self) -> UploadPhase {
        self.phase
    }

    pub closed spec fn spec_access_key(&self) -> Seq<char> {
        self.access_key@
    }

    pub closed spec fn spec_upload_id(&self) -> Seq<char> {
        self.upload_id@
    }

    pub closed spec fn spec_size(&self) -> u64 {
        self.size
    }

    pub closed spec fn spec_chunk_size(&self) -> u64 {
        self.chunk_size
    }

    pub closed spec fn spec_count_urls(&self) -> u32 {
        self.count_urls
    }

    pub closed spec fn spec_last_chunk_size(&self) -> u64 {
        self.last_chunk_size
    }

    /// The part being read, requested or uploaded (1-based).
    pub closed spec fn spec_part(&self) -> u32 {
        self.part
    }

    /// Bytes read for the current part.
    pub closed spec fn spec_part_len(&self) -> u64 {
        self.part_len
    }

    /// Parts uploaded so far, with their ETags.
    pub closed spec fn spec_parts(&self) -> Seq<S3FileUploadPart> {
        self.parts@
    }

    pub closed spec fn spec_user_file_keys(&self) -> Option<Vec<UserFileKey>> {
        self.user_file_keys
    }

    pub closed spec fn spec_poll_delay(&self) -> u64 {
        self.poll_delay
    }

    /// How many more polls may follow a status that is not final; `None`
    /// for no limit.
    pub closed spec fn spec_polls_left(&self) -> Option<u32> {
        self.polls_left
    }

    /// Size of the current part: a whole chunk, or the remainder for the last part.
    pub open spec fn expected_len(&self) -> u64 {
        if self.spec_part() < self.spec_count_urls() {
            self.spec_chunk_size()
        } else {
            self.spec_last_chunk_size()
        }
    }

    pub closed spec fn wf(&self) -> bool {
        &&& valid_chunk_size(self.size, self.chunk_size)
        &&& (self.count_urls as nat, self.last_chunk_size as nat) == plan_spec(
            self.size as nat,
            self.chunk_size as nat,
        )
        &&& 1 <= self.part <= self.count_urls
        &&& numbered_in_order(self.parts@)
        &&& self.poll_delay <= MAX_POLLING_DELAY
        &&& self.phase == UploadPhase::CreatingChannel ==> self.part == 1
        &&& (self.phase == UploadPhase::CreatingChannel || self.phase == UploadPhase::ReadingChunk
            || self.phase == UploadPhase::RequestingUrl || self.phase == UploadPhase::Uploading)
            ==> self.parts@.len() == self.part - 1
        &&& (self.phase == UploadPhase::RequestingUrl || self.phase == UploadPhase::Uploading)
            ==> self.part_len == self.expected_len()
    }

    /// Starts an upload of `file_meta.size` bytes in parts of `chunk_size`
    /// bytes (32 MiB when not given). Gives the request that opens the upload
    /// channel; `user_file_keys` travel with the final request.
    pub fn new(
        access_key: String,
        file_meta: FileMeta,
        chunk_size: Option<u64>,
        user_file_keys: Option<Vec<UserFileKey>>,
    ) -> (r: Result<(UploadState, UploadAction), DracoonClientError>)
        ensures
            ({
                let chunk = match chunk_size {
                    Some(c) => c,
                    None => CHUNK_SIZE,
                };
                &&& r is Err <==> !valid_chunk_size(file_meta.size, chunk)
                &&& r is Err ==> r == Err::<(UploadState, UploadAction), DracoonClientError>(
                    DracoonClientError::InvalidChunkSize,
                )
                &&& r is Ok ==> {
                    let (st, action) = r->Ok_0;
                    &&& st.wf()
                    &&& st.spec_phase() == UploadPhase::CreatingChannel
                    &&& st.spec_access_key() == access_key@
                    &&& st.spec_size() == file_meta.size
                    &&& st.spec_chunk_size() == chunk
                    &&& (st.spec_count_urls() as nat, st.spec_last_chunk_size() as nat)
                        == plan_spec(file_meta.size as nat, chunk as nat)
                    &&& st.spec_parts().len() == 0
                    &&& st.spec_user_file_keys() == user_file_keys
                    &&& st.spec_polls_left() is None
                    &&& action matches UploadAction::CreateChannel { path, request }
                    &&& path@ == share_upload_path(access_key@)
                    &&& request == (CreateShareUploadChannelRequest {
                        name: file_meta.name,
                        size: Some(file_meta.size),
                        timestamp_creation: file_meta.timestamp_creation,
                        timestamp_modification: file_meta.timestamp_modification,
                        direct_s3_upload: Some(true),
                    })
                }
            }),
    {
        let chunk = match chunk_size {
            Some(c) => c,
            None => CHUNK_SIZE,
        };
        if chunk == 0 || chunk > MAX_CHUNK_SIZE {
            return Err(DracoonClientError::InvalidChunkSize);
        }
        let count = url_count(file_meta.size, chunk);
        if count > u32::MAX as u64 {
            return Err(DracoonClientError::InvalidChunkSize);
        }
        let (count_urls, last_chunk_size) = calculate_s3_url_count(file_meta.size, chunk);
        let path = channel_path(access_key.as_str());
        let request = CreateShareUploadChannelRequest {
            name: file_meta.name,
            size: Some(file_meta.size),
            timestamp_creation: file_meta.timestamp_creation,
            timestamp_modification: file_meta.timestamp_modification,
            direct_s3_upload: Some(true),
        };
        let state = UploadState {
            access_key,
            size: file_meta.size,
            chunk_size: chunk,
            count_urls,
            last_chunk_size,
            upload_id: String::new(),
            part: 1,
            part_len: 0,
            parts: Vec::new(),
            user_file_keys,
            poll_delay: POLLING_START_DELAY,
            polls_left: None,
            phase: UploadPhase::CreatingChannel,
        };
        Ok((state, UploadAction::CreateChannel { path, request }))
    }

    fn fail(&mut self, err: DracoonClientError) -> (action: UploadAction)
        requires
            old(self).wf(),
        ensures
            final(self).wf(),
            final(self).spec_phase() == UploadPhase::Failed,
            final(self).spec_access_key() == old(self).spec_access_key(),
            final(self).spec_size() == old(self).spec_size(),
            final(self).spec_chunk_size() == old(self).spec_chunk_size(),
            final(self).spec_count_urls() == old(self).spec_count_urls(),
            final(self).spec_last_chunk_size() == old(self).spec_last_chunk_size(),
            final(self).spec_upload_id() == old(self).spec_upload_id(),
            final(self).spec_user_file_keys() == old(self).spec_user_file_keys(),
            final(self).spec_polls_left() == old(self).spec_polls_left(),
            final(self).spec_poll_delay() == old(self).spec_poll_delay(),
            action == UploadAction::Fail(err),
    {
        self.phase = UploadPhase::Failed;
        UploadAction::Fail(err)
    }

    /// Limits how many more times the status is polled after an answer
    /// that is not final; past that the upload fails with `UploadTimeout`.
    pub fn set_poll_limit(&mut self, max_polls: Option<u32>)
        requires
            old(self).wf(),
        ensures
            final(self).wf(),
            final(self).spec_polls_left() == max_polls,
            final(self).spec_phase() == old(self).spec_phase(),
            final(self).spec_access_key() == old(self).spec_access_key(),
            final(self).spec_upload_id() == old(self).spec_upload_id(),
            final(self).spec_size() == old(self).spec_size(),
            final(self).spec_chunk_size() == old(self).spec_chunk_size(),
            final(self).spec_count_urls() == old(self).spec_count_urls(),
            final(self).spec_last_chunk_size() == old(self).spec_last_chunk_size(),
            final(self).spec_part() == old(self).spec_part(),
            final(self).spec_part_len() == old(self).spec_part_len(),
            final(self).spec_parts() == old(self).spec_parts(),
            final(self).spec_user_file_keys() == old(self).spec_user_file_keys(),
            final(self).spec_poll_delay() == old(self).spec_poll_delay(),
    {
        self.polls_left = max_polls;
    }

    /// The phase the upload is in.
    pub fn phase(&self) -> (r: UploadPhase)
        ensures
            r == self.spec_phase(),
    {
        self.phase
    }

    /// Size of the file in bytes.
    pub fn size(&self) -> (r: u64)
        ensures
            r == self.spec_size(),
    {
        self.size
    }

    /// Bytes of the file sent in the parts uploaded so far: all of them once
    /// the last part is sent.
    pub fn bytes_transferred(&self) -> (r: u64)
        requires
            self.wf(),
        ensures
            r as int == if self.spec_phase() == UploadPhase::Finalizing || self.spec_phase()
                == UploadPhase::Polling || self.spec_phase() == UploadPhase::Done
                || self.spec_parts().len() >= self.spec_count_urls() {
                self.spec_size() as int
            } else {
                self.spec_parts().len() * self.spec_chunk_size()
            },
    {
        match self.phase {
            UploadPhase::Finalizing | UploadPhase::Polling | UploadPhase::Done => {
                return self.size;
            },
            _ => {},
        }
        let done = self.parts.len() as u64;
        if done < self.count_urls as u64 {
            proof {
                lemma_plan_prefix_fits(self.size as nat, self.chunk_size as nat, done as nat);
            }
            done * self.chunk_size
        } else {
            self.size
        }
    }

    /// Takes the upload one step further: records what the caller reports and
    /// says what to do next. An event that the current phase does not expect
    /// ends the upload with `InvalidResponse`.
    pub fn step(&mut self, event: UploadEvent) -> (action: UploadAction)
        requires
            old(self).wf(),
        ensures
            final(self).wf(),
            final(self).spec_access_key() == old(self).spec_access_key(),
            final(self).spec_size() == old(self).spec_size(),
            final(self).spec_chunk_size() == old(self).spec_chunk_size(),
            final(self).spec_count_urls() == old(self).spec_count_urls(),
            final(self).spec_last_chunk_size() == old(self).spec_last_chunk_size(),
            !(event is ChannelCreated) ==> final(self).spec_upload_id() == old(self).spec_upload_id(),
            !(event is PartUploaded && action is Finalize) ==> final(self).spec_user_file_keys()
                == old(self).spec_user_file_keys(),
            !(event is Status) ==> final(self).spec_polls_left() == old(self).spec_polls_left(),
            !(event is Finalized || event is Status) ==> final(self).spec_poll_delay() == old(
                self,
            ).spec_poll_delay(),
            // every finalize request lists the parts 1..=count_urls, in order
            action matches UploadAction::Finalize { request, .. } ==> {
                &&& request.parts@.len() == old(self).spec_count_urls()
                &&& numbered_in_order(request.parts@)
                &&& request.user_file_keys == old(self).spec_user_file_keys()
            },
            ({
                let o = *old(self);
                let f = *final(self);
                match event {
                    UploadEvent::ChannelCreated(id) => if o.spec_phase() == UploadPhase::CreatingChannel {
                        &&& f.spec_phase() == UploadPhase::ReadingChunk
                        &&& f.spec_upload_id() == id@
                        &&& f.spec_part() == 1
                        &&& f.spec_parts().len() == 0
                        &&& action == (UploadAction::ReadChunk { len: f.expected_len() })
                    } else {
                        f.spec_phase() == UploadPhase::Failed && action == UploadAction::Fail(
                            DracoonClientError::InvalidResponse,
                        )
                    },
                    UploadEvent::ChunkRead(n) => if o.spec_phase() != UploadPhase::ReadingChunk {
                        f.spec_phase() == UploadPhase::Failed && action == UploadAction::Fail(
                            DracoonClientError::InvalidResponse,
                        )
                    } else if n != o.expected_len() {
                        f.spec_phase() == UploadPhase::Failed && action == UploadAction::Fail(
                            DracoonClientError::IoError,
                        )
                    } else {
                        &&& f.spec_phase() == UploadPhase::RequestingUrl
                        &&& f.spec_part() == o.spec_part()
                        &&& f.spec_part_len() == n
                        &&& f.spec_parts() == o.spec_parts()
                        &&& action matches UploadAction::RequestUrls { path, request }
                        &&& path@ == s3_urls_path(o.spec_access_key())
                        &&& request == (GeneratePresignedUrlsRequest {
                            size: n,
                            first_part_number: o.spec_part(),
                            last_part_number: o.spec_part(),
                        })
                    },
                    UploadEvent::UrlsIssued(urls) => if o.spec_phase() != UploadPhase::RequestingUrl
                        || urls@.len() == 0 {
                        f.spec_phase() == UploadPhase::Failed && action == UploadAction::Fail(
                            DracoonClientError::InvalidResponse,
                        )
                    } else {
                        &&& f.spec_phase() == UploadPhase::Uploading
                        &&& f.spec_part() == o.spec_part()
                        &&& f.spec_parts() == o.spec_parts()
                        &&& action == (UploadAction::PutChunk {
                            url: urls@[0].url,
                            part_number: o.spec_part(),
                            offset: ((o.spec_part() - 1) * o.spec_chunk_size()) as u64,
                            len: o.spec_part_len(),
                        })
                    },
                    UploadEvent::PartUploaded(etag) => if o.spec_phase() != UploadPhase::Uploading {
                        f.spec_phase() == UploadPhase::Failed && action == UploadAction::Fail(
                            DracoonClientError::InvalidResponse,
                        )
                    } else {
                        let parts = o.spec_parts().push(
                            S3FileUploadPart { part_number: o.spec_part(), part_etag: etag },
                        );
                        if o.spec_part() < o.spec_count_urls() {
                            &&& f.spec_phase() == UploadPhase::ReadingChunk
                            &&& f.spec_part() == o.spec_part() + 1
                            &&& f.spec_parts() == parts
                            &&& action == (UploadAction::ReadChunk { len: f.expected_len() })
                        } else {
                            &&& f.spec_phase() == UploadPhase::Finalizing
                            &&& action matches UploadAction::Finalize { path, request }
                            &&& path@ == s3_complete_path(o.spec_access_key())
                            &&& request.parts@ == parts
                        }
                    },
                    UploadEvent::Finalized => if o.spec_phase() == UploadPhase::Finalizing {
                        &&& f.spec_phase() == UploadPhase::Polling
                        &&& f.spec_poll_delay() == POLLING_START_DELAY
                        &&& action matches UploadAction::PollStatus { path, delay_ms }
                        &&& path@ == upload_status_path(o.spec_access_key(), o.spec_upload_id())
                        &&& delay_ms == 0
                    } else {
                        f.spec_phase() == UploadPhase::Failed && action == UploadAction::Fail(
                            DracoonClientError::InvalidResponse,
                        )
                    },
                    UploadEvent::Status(st) => if o.spec_phase() != UploadPhase::Polling {
                        f.spec_phase() == UploadPhase::Failed && action == UploadAction::Fail(
                            DracoonClientError::InvalidResponse,
                        )
                    } else {
                        match st.status {
                            S3UploadStatus::Done => f.spec_phase() == UploadPhase::Done && action
                                == UploadAction::Finish(st.file_name),
                            S3UploadStatus::Error => f.spec_phase() == UploadPhase::Failed
                                && action == UploadAction::Fail(
                                match st.error_details {
                                    Some(d) => DracoonClientError::Http(d),
                                    None => DracoonClientError::InvalidResponse,
                                },
                            ),
                            _ => if o.spec_polls_left() == Some(0u32) {
                                f.spec_phase() == UploadPhase::Failed && action
                                    == UploadAction::Fail(DracoonClientError::UploadTimeout)
                            } else {
                                &&& f.spec_phase() == UploadPhase::Polling
                                &&& f.spec_poll_delay() == next_poll_delay(o.spec_poll_delay())
                                &&& f.spec_polls_left() == match o.spec_polls_left() {
                                    Some(n) => Some((n - 1) as u32),
                                    None => None,
                                }
                                &&& action matches UploadAction::PollStatus { path, delay_ms }
                                &&& path@ == upload_status_path(
                                    o.spec_access_key(),
                                    o.spec_upload_id(),
                                )
                                &&& delay_ms == o.spec_poll_delay()
                            },
                        }
                    },
                    UploadEvent::Failed(err) => f.spec_phase() == UploadPhase::Failed && action
                        == UploadAction::Fail(err),
                }
            }),
    {
        match event {
            UploadEvent::ChannelCreated(id) => {
                if self.phase != UploadPhase::CreatingChannel {
                    return self.fail(DracoonClientError::InvalidResponse);
                }
                self.upload_id = id;
                self.phase = UploadPhase::ReadingChunk;
                let len = self.current_len();
                UploadAction::ReadChunk { len }
            },
            UploadEvent::ChunkRead(n) => {
                if self.phase != UploadPhase::ReadingChunk {
                    return self.fail(DracoonClientError::InvalidResponse);
                }
                if n != self.current_len() {
                    return self.fail(DracoonClientError::IoError);
                }
                self.part_len = n;
                self.phase = UploadPhase::RequestingUrl;
                let path = path_under_channel(self.access_key.as_str(), "/s3_urls");
                let request = GeneratePresignedUrlsRequest {
                    size: n,
                    first_part_number: self.part,
                    last_part_number: self.part,
                };
                UploadAction::RequestUrls { path, request }
            },
            UploadEvent::UrlsIssued(urls) => {
                if self.phase != UploadPhase::RequestingUrl || urls.len() == 0 {
                    return self.fail(DracoonClientError::InvalidResponse);
                }
                let mut urls = urls;
                let first = urls.swap_remove(0);
                proof {
                    lemma_plan_prefix_fits(
                        self.size as nat,
                        self.chunk_size as nat,
                        (self.part - 1) as nat,
                    );
                }
                let offset = (self.part as u64 - 1) * self.chunk_size;
                self.phase = UploadPhase::Uploading;
                UploadAction::PutChunk {
                    url: first.url,
                    part_number: self.part,
                    offset,
                    len: self.part_len,
                }
            },
            UploadEvent::PartUploaded(etag) => {
                if self.phase != UploadPhase::Uploading {
                    return self.fail(DracoonClientError::InvalidResponse);
                }
                let ghost before = self.parts@;
                self.parts.push(S3FileUploadPart { part_number: self.part, part_etag: etag });
                proof {
                    assert(numbered_in_order(self.parts@)) by {
                        assert forall|i: int| 0 <= i < self.parts@.len() implies (
                        #[trigger] self.parts@[i]).part_number == i + 1 by {
                            if i < before.len() {
                                assert(self.parts@[i] == before[i]);
                            }
                        }
                    }
                }
                if self.part < self.count_urls {
                    self.part = self.part + 1;
                    self.phase = UploadPhase::ReadingChunk;
                    let len = self.current_len();
                    UploadAction::ReadChunk { len }
                } else {
                    let mut parts: Vec<S3FileUploadPart> = Vec::new();
                    std::mem::swap(&mut parts, &mut self.parts);
                    let user_file_keys = self.user_file_keys.take();
                    self.phase = UploadPhase::Finalizing;
                    let path = path_under_channel(self.access_key.as_str(), "/s3");
                    UploadAction::Finalize {
                        path,
                        request: CompleteS3ShareUploadRequest { parts, user_file_keys },
                    }
                }
            },
            UploadEvent::Finalized => {
                if self.phase != UploadPhase::Finalizing {
                    return self.fail(DracoonClientError::InvalidResponse);
                }
                self.phase = UploadPhase::Polling;
                self.poll_delay = POLLING_START_DELAY;
                let mut path = path_under_channel(self.access_key.as_str(), "/");
                path.append(self.upload_id.as_str());
                UploadAction::PollStatus { path, delay_ms: 0 }
            },
            UploadEvent::Status(st) => {
                if self.phase != UploadPhase::Polling {
                    return self.fail(DracoonClientError::InvalidResponse);
                }
                match st.status {
                    S3UploadStatus::Done => {
                        self.phase = UploadPhase::Done;
                        UploadAction::Finish(st.file_name)
                    },
                    S3UploadStatus::Error => {
                        let err = match st.error_details {
                            Some(d) => DracoonClientError::Http(d),
                            None => DracoonClientError::InvalidResponse,
                        };
                        self.fail(err)
                    },
                    _ => {
                        match self.polls_left {
                            Some(0) => return self.fail(DracoonClientError::UploadTimeout),
                            Some(n) => self.polls_left = Some(n - 1),
                            None => {},
                        }
                        let delay_ms = self.poll_delay;
                        self.poll_delay =
                            if delay_ms > MAX_POLLING_DELAY / 2 {
                                MAX_POLLING_DELAY
                            } else {
                                2 * delay_ms
                            };
                        let mut path = path_under_channel(self.access_key.as_str(), "/");
                        path.append(self.upload_id.as_str());
                        UploadAction::PollStatus { path, delay_ms }
                    },
                }
            },
            UploadEvent::Failed(err) => self.fail(err),
        }
    }

    fn current_len(&self) -> (r: u64)
        ensures
            r == self.expected_len(),
    {
        if self.part < self.count_urls {
            self.chunk_size
        } else {
            self.last_chunk_size
        }
    }
}

/// The boundary plans, for every chunk size: an empty file takes one empty
/// part, a file of exactly one chunk takes one full part, and one byte more
/// takes a second part of one byte.
pub proof fn lemma_plan_boundaries(chunk: nat)
    requires
        chunk > 0,
    ensures
        plan_spec(0, chunk) == (1nat, 0nat),
        plan_spec(chunk, chunk) == (1nat, chunk),
        plan_spec(chunk + 1, chunk) == (2nat, 1nat),
{
    let c = chunk as int;
    assert((c + c - 1) / c == 1) by (nonlinear_arith)
        requires
            c > 0,
    ;
    assert((c + 1 + c - 1) / c == 2) by (nonlinear_arith)
        requires
            c > 0,
    ;
    assert(((chunk + chunk - 1) as nat / chunk) as nat == 1);
    assert((((chunk + 1) + chunk - 1) as nat / chunk) as nat == 2);
    assert(plan_spec(chunk, chunk).0 == 1);
    assert(plan_spec(chunk + 1, chunk).0 == 2);
    assert(((chunk + 1) - (2 - 1) * chunk) as nat == 1);
    assert((chunk - (1 - 1) * chunk) as nat == chunk);
}

/// What a well-formed upload state holds: a usable chunk size and its plan,
/// the current part within the plan, the parts sent so far numbered in order
/// (one fewer than the current part while streaming), and the bytes read for
/// the current part once they are read.
pub proof fn lemma_upload_state_facts(st: UploadState)
    requires
        st.wf(),
    ensures
        valid_chunk_size(st.spec_size(), st.spec_chunk_size()),
        0 < st.spec_chunk_size() <= MAX_CHUNK_SIZE,
        (st.spec_count_urls() as nat, st.spec_last_chunk_size() as nat) == plan_spec(
            st.spec_size() as nat,
            st.spec_chunk_size() as nat,
        ),
        1 <= st.spec_part() <= st.spec_count_urls(),
        numbered_in_order(st.spec_parts()),
        st.spec_poll_delay() <= MAX_POLLING_DELAY,
        st.spec_phase() == UploadPhase::CreatingChannel ==> st.spec_part() == 1,
        (st.spec_phase() == UploadPhase::CreatingChannel || st.spec_phase()
            == UploadPhase::ReadingChunk || st.spec_phase() == UploadPhase::RequestingUrl
            || st.spec_phase() == UploadPhase::Uploading) ==> st.spec_parts().len()
            == st.spec_part() - 1,
        (st.spec_phase() == UploadPhase::RequestingUrl || st.spec_phase()
            == UploadPhase::Uploading) ==> st.spec_part_len() == st.expected_len(),
{
}

/// The parts an upload reads cover its file exactly: every part but the last
/// is a whole chunk, and a non-empty file's last part holds between one byte
/// and a chunk. Together with `step`, which asks for `expected_len` bytes for
/// each part in turn, this gives the sizes of all URL requests.
pub proof fn lemma_upload_parts_cover_file(st: UploadState)
    requires
        st.wf(),
    ensures
        (st.spec_count_urls() - 1) * st.spec_chunk_size() + st.spec_last_chunk_size()
            == st.spec_size(),
        st.spec_size() > 0 ==> 1 <= st.spec_last_chunk_size() <= st.spec_chunk_size(),
        st.spec_count_urls() >= 1,
        st.spec_part() < st.spec_count_urls() ==> st.expected_len() == st.spec_chunk_size(),
        st.spec_part() == st.spec_count_urls() ==> st.expected_len() == st.spec_last_chunk_size(),
{
    if st.spec_size() > 0 {
        lemma_plan_covers_file(st.spec_size() as nat, st.spec_chunk_size() as nat);
    } else {
        assert(st.spec_count_urls() == 1 && st.spec_last_chunk_size() == 0);
        assert((st.spec_count_urls() - 1) * st.spec_chunk_size() == 0) by (nonlinear_arith)
            requires
                st.spec_count_urls() == 1,
        ;
    }
}

/// The first `k` whole parts of a plan fit in the file, when `k` is below the
/// number of parts.
proof fn lemma_plan_prefix_fits(size: nat, chunk: nat, k: nat)
    requires
        chunk > 0,
        k < plan_count(size, chunk),
    ensures
        k * chunk <= size,
{
    if size > 0 {
        lemma_plan_covers_file(size, chunk);
        let count = plan_count(size, chunk);
        assert(k * chunk <= (count - 1) * chunk) by (nonlinear_arith)
            requires
                k <= count - 1,
        ;
    } else {
        assert(plan_count(size, chunk) == 1);
        assert(k == 0);
    }
}

/// The recipients a share lists; none when it lists no key.
pub open spec fn share_recipients(share: PublicUploadShare) -> Seq<UserUserPublicKey> {
    match share.user_user_public_key_list {
        Some(keys) => keys@,
        None => Seq::empty(),
    }
}

/// Picks the upload path: `Ok(true)` for an encrypted share, `Ok(false)` for a
/// plain one. Only object storage is supported.
pub fn upload_mode(use_s3_storage: bool, share: &PublicUploadShare) -> (r: Result<
    bool,
    DracoonClientError,
>)
    ensures
        !use_s3_storage ==> r == Err::<bool, DracoonClientError>(
            DracoonClientError::UnsupportedStorageMode,
        ),
        use_s3_storage ==> r == Ok::<bool, DracoonClientError>(
            share.is_encrypted == Some(true),
        ),
{
    if !use_s3_storage {
        return Err(DracoonClientError::UnsupportedStorageMode);
    }
    match share.is_encrypted {
        Some(encrypted) => Ok(encrypted),
        None => Ok(false),
    }
}

/// Encrypts the whole file (exactly `size` bytes, else `IoError`) under a
/// fresh file key and wraps that key for every recipient of the share.
/// A failed wrap gives `CryptoError` unless `skip_failed_keys` is set.
pub fn prepare_encrypted_upload(
    plain: &Vec<u8>,
    size: u64,
    share: &PublicUploadShare,
    skip_failed_keys: bool,
) -> (r: Result<EncryptedUpload, DracoonClientError>)
    ensures
        plain@.len() != size ==> r == Err::<EncryptedUpload, DracoonClientError>(
            DracoonClientError::IoError,
        ),
        plain@.len() == size ==> (r is Ok || r == Err::<EncryptedUpload, DracoonClientError>(
            DracoonClientError::CryptoError,
        )),
        r is Ok ==> r->Ok_0.data@.len() == size,
        r is Ok && share_recipients(*share).len() == 0 ==> r->Ok_0.user_file_keys@.len() == 0,
        r is Ok && !skip_failed_keys ==> file_key_owners(r->Ok_0.user_file_keys@)
            == recipient_ids(share_recipients(*share)),
        r is Ok ==> forall|i: int|
            0 <= i < r->Ok_0.user_file_keys@.len() ==> recipient_ids(
                share_recipients(*share),
            ).contains(#[trigger] r->Ok_0.user_file_keys@[i].user_id),
{
    let payload = match encrypt_payload(plain, size) {
        Ok(p) => p,
        Err(e) => return Err(e),
    };
    let no_recipients: Vec<UserUserPublicKey> = Vec::new();
    let recipients = match &share.user_user_public_key_list {
        Some(keys) => keys,
        None => &no_recipients,
    };
    proof {
        assert(recipients@ == share_recipients(*share));
    }
    let user_file_keys = match wrap_file_keys(&payload.plain_file_key, recipients, skip_failed_keys) {
        Ok(keys) => keys,
        Err(e) => return Err(e),
    };
    Ok(EncryptedUpload { data: payload.data, user_file_keys })
}

/// The part numbers of a finalize request are exactly 1..=count_urls, each once.
pub proof fn lemma_finalized_parts_are_permutation(parts: Seq<S3FileUploadPart>, count_urls: nat)
    requires
        parts.len() == count_urls,
        numbered_in_order(parts),
    ensures
        parts.map_values(|p: S3FileUploadPart| p.part_number as int).to_set() == Set::new(
            |n: int| 1 <= n <= count_urls,
        ),
        forall|i: int, j: int|
            0 <= i < j < parts.len() ==> (#[trigger] parts[i]).part_number
                != (#[trigger] parts[j]).part_number,
{
    let numbers = parts.map_values(|p: S3FileUploadPart| p.part_number as int);
    assert forall|n: int| numbers.to_set().contains(n) <==> 1 <= n <= count_urls by {
        if 1 <= n <= count_urls {
            assert(numbers[n - 1] == n);
        }
        if numbers.to_set().contains(n) {
            let k = choose|k: int| 0 <= k < numbers.len() && numbers[k] == n;
            assert(parts[k].part_number == k + 1);
        }
    }
    assert(numbers.to_set() =~= Set::new(|n: int| 1 <= n <= count_urls));
}

/// Every recipient of an encrypted upload finds a file key wrapped for it
/// among the keys that travel with the finalize request.
pub proof fn lemma_recipients_have_keys(recipients: Seq<UserUserPublicKey>, keys: Seq<UserFileKey>)
    requires
        file_key_owners(keys) == recipient_ids(recipients),
    ensures
        recipient_ids(recipients).to_set().subset_of(file_key_owners(keys).to_set()),
{
}

} // verus!
