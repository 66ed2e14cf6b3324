use vstd::prelude::*;
use vstd::string::StringExecFns;

use crate::decimal::{decimal, push_decimal};
use reqwest::Error as ReqwestError;
use std::io::Error as IoError;

verus! {

/// Smallest chunk the upload service accepts, in bytes.
pub const CHUNK_SIZE_MIN: usize = 1024 * 1024 * 5;

/// Largest chunk the upload service accepts, in bytes.
pub const CHUNK_SIZE_MAX: usize = 1024 * 1024 * 64;

/// Fewest chunks an upload is split into.
pub const CHUNK_COUNT_MIN: usize = 1;

/// Most chunks an upload may be split into.
pub const CHUNK_COUNT_MAX: usize = 1000;

/// The preferred chunk size, clamped into `[CHUNK_SIZE_MIN, CHUNK_SIZE_MAX]`.
pub open spec fn clamped_chunk_size(preferred: usize) -> usize {
    if preferred < CHUNK_SIZE_MIN {
        CHUNK_SIZE_MIN
    } else if preferred > CHUNK_SIZE_MAX {
        CHUNK_SIZE_MAX
    } else {
        preferred
    }
}

/// The chunk plan `(chunk_size, total_chunk_count)` for a source of `video_size`
/// bytes: a single chunk holding everything when the source fits in one clamped
/// chunk, otherwise clamped chunks counted with a floor, the last chunk taking
/// the remainder.
pub open spec fn chunk_plan(video_size: usize, preferred: usize) -> (usize, usize) {
    let chunk_size = clamped_chunk_size(preferred);
    if video_size <= chunk_size {
        (video_size, 1)
    } else {
        (chunk_size, video_size / chunk_size)
    }
}

fn get_chunk_size(chunk_size: usize) -> (r: usize)
    ensures
        r == clamped_chunk_size(chunk_size),
{
    if chunk_size < CHUNK_SIZE_MIN {
        CHUNK_SIZE_MIN
    } else if chunk_size > CHUNK_SIZE_MAX {
        CHUNK_SIZE_MAX
    } else {
        chunk_size
    }
}

/// Computes the chunk plan `(chunk_size, total_chunk_count)` for a source of
/// `video_size` bytes and a caller-preferred chunk size.
pub fn get_chunk_size_and_total_chunk_count(video_size: usize, chunk_size: usize) -> (r: (
    usize,
    usize,
))
    ensures
        r == chunk_plan(video_size, chunk_size),
{
    let chunk_size = get_chunk_size(chunk_size);
    if video_size <= chunk_size {
        (video_size, 1)
    } else {
        (chunk_size, video_size / chunk_size)
    }
}

/// A source that fits in one clamped chunk (as any source of at most
/// `CHUNK_SIZE_MAX` bytes does with the default preferred size) is sent as a
/// single chunk holding all of it.
pub proof fn lemma_small_video_single_chunk(video_size: usize, preferred: usize)
    requires
        video_size <= CHUNK_SIZE_MAX,
        video_size <= clamped_chunk_size(preferred),
    ensures
        chunk_plan(video_size, preferred) == (video_size, 1usize),
{
}

/// A preferred size below `CHUNK_SIZE_MIN` is raised to it, one above
/// `CHUNK_SIZE_MAX` is lowered to it, and a source larger than the clamped size
/// is cut in chunks of exactly that size.
pub proof fn lemma_chunk_size_clamped(video_size: usize, preferred: usize)
    ensures
        preferred < CHUNK_SIZE_MIN ==> clamped_chunk_size(preferred) == CHUNK_SIZE_MIN,
        preferred > CHUNK_SIZE_MAX ==> clamped_chunk_size(preferred) == CHUNK_SIZE_MAX,
        CHUNK_SIZE_MIN <= clamped_chunk_size(preferred) <= CHUNK_SIZE_MAX,
        video_size > clamped_chunk_size(preferred) ==> chunk_plan(video_size, preferred).0
            == clamped_chunk_size(preferred),
{
}

/// Planning is a function of its inputs: two plans of the same source with the
/// same preferred size are equal.
pub proof fn lemma_plan_deterministic(
    video_size: usize,
    preferred: usize,
    first: (usize, usize),
    second: (usize, usize),
)
    requires
        first == chunk_plan(video_size, preferred),
        second == chunk_plan(video_size, preferred),
    ensures
        first == second,
{
}

/// A source of exactly one clamped chunk is sent as one chunk.
pub proof fn lemma_exact_fit_single_chunk(video_size: usize, preferred: usize)
    requires
        video_size == clamped_chunk_size(preferred),
    ensures
        chunk_plan(video_size, preferred) == (video_size, 1usize),
{
}

/// A source that needs more than `CHUNK_COUNT_MAX` chunks of the clamped size
/// gets a plan over the limit, which `UploadSession::new` refuses before any
/// chunk is handed out.
pub proof fn lemma_too_many_chunks(video_size: usize, preferred: usize)
    requires
        video_size as int / clamped_chunk_size(preferred) as int > CHUNK_COUNT_MAX,
    ensures
        chunk_plan(video_size, preferred).1 > CHUNK_COUNT_MAX,
{
    let c = clamped_chunk_size(preferred) as int;
    let v = video_size as int;
    if v <= c {
        assert(v / c <= 1) by (nonlinear_arith)
            requires
                0 <= v <= c,
                c > 0,
        ;
    }
}

/// A byte range `[start, end)` of a source of `video_size` bytes cut into
/// `total` chunks of `chunk_size` bytes: chunk `index` starts at
/// `index * chunk_size`, and the last one runs to the end of the source.
pub open spec fn part_range(video_size: int, chunk_size: int, total: int, index: int) -> (int, int) {
    let start = index * chunk_size;
    (start, if index == total - 1 { video_size } else { start + chunk_size })
}

/// Facts about a chunk plan that make its byte ranges well defined: at least one
/// chunk, whole chunks within the source, and a positive chunk size for a
/// non-empty source.
pub open spec fn plan_fits(video_size: int, chunk_size: int, total: int) -> bool {
    &&& total >= 1
    &&& chunk_size >= 0
    &&& total * chunk_size <= video_size
    &&& video_size > 0 ==> chunk_size > 0
}

proof fn lemma_chunk_plan_fits(video_size: usize, preferred: usize)
    ensures
        plan_fits(
            video_size as int,
            chunk_plan(video_size, preferred).0 as int,
            chunk_plan(video_size, preferred).1 as int,
        ),
        chunk_plan(video_size, preferred).1 > 1 ==> video_size as int - (chunk_plan(video_size, preferred).1 - 1) * chunk_plan(video_size, preferred).0
            < 2 * chunk_plan(video_size, preferred).0,
{
    let c = clamped_chunk_size(preferred);
    if video_size > c {
        let v = video_size as int;
        let n = v / c as int;
        assert(n * c <= v && v < n * c + c && n >= 1) by (nonlinear_arith)
            requires
                n == v / c as int,
                c > 0,
                v > c,
        ;
        assert(n == chunk_plan(video_size, preferred).1);
        assert(v - (n - 1) * c < 2 * c) by (nonlinear_arith)
            requires
                v < n * c + c,
        ;
    }
}

/// Chunk ranges are contiguous and cover the source: the first starts at byte
/// 0, each one ends where the next starts, and the last ends at `video_size`.
pub proof fn lemma_parts_cover_source(video_size: usize, preferred: usize)
    ensures
        ({
            let (chunk_size, total) = chunk_plan(video_size, preferred);
            let v = video_size as int;
            let c = chunk_size as int;
            let n = total as int;
            &&& part_range(v, c, n, 0).0 == 0
            &&& part_range(v, c, n, n - 1).1 == v
            &&& forall|i: int|
                0 <= i < n - 1 ==> #[trigger] part_range(v, c, n, i).1 == part_range(v, c, n, i + 1).0
            &&& forall|i: int|
                0 <= i < n ==> 0 <= #[trigger] part_range(v, c, n, i).0 <= part_range(v, c, n, i).1 <= v
        }),
{
    lemma_chunk_plan_fits(video_size, preferred);
    let (chunk_size, total) = chunk_plan(video_size, preferred);
    let v = video_size as int;
    let c = chunk_size as int;
    let n = total as int;
    assert forall|i: int| 0 <= i < n - 1 implies #[trigger] part_range(v, c, n, i).1 == part_range(
        v,
        c,
        n,
        i + 1,
    ).0 by {
        assert((i + 1) * c == i * c + c) by (nonlinear_arith);
    }
    assert forall|i: int| 0 <= i < n implies 0 <= #[trigger] part_range(v, c, n, i).0 <= part_range(
        v,
        c,
        n,
        i,
    ).1 <= v by {
        lemma_part_range_bounds(v, c, n, i);
    }
}

proof fn lemma_part_range_bounds(v: int, c: int, n: int, i: int)
    requires
        plan_fits(v, c, n),
        0 <= i < n,
    ensures
        0 <= part_range(v, c, n, i).0 <= part_range(v, c, n, i).1 <= v,
        part_range(v, c, n, i).0 < part_range(v, c, n, i).1 || v == 0,
{
    assert(0 <= i * c && i * c + c <= n * c) by (nonlinear_arith)
        requires
            0 <= i < n,
            0 <= c,
    ;
    assert(i * c < n * c || c == 0) by (nonlinear_arith)
        requires
            0 <= i < n,
            0 <= c,
    ;
}

/// The `Content-Range` header value of a chunk `[start, end)` of a source of
/// `total` bytes: `bytes {start}-{end - 1}/{total}`.
pub open spec fn content_range_text(start: nat, end: nat, total: nat) -> Seq<char> {
    "bytes "@ + decimal(start) + "-"@ + decimal((end - 1) as nat) + "/"@ + decimal(total)
}

/// The `Content-Length` header value of a chunk: the number of bytes in it.
pub fn content_length(byte_range: &core::ops::Range<usize>) -> (r: usize)
    requires
        byte_range.start <= byte_range.end,
    ensures
        r == byte_range.end - byte_range.start,
{
    byte_range.end - byte_range.start
}

/// The `Content-Range` header value of a non-empty chunk of a source of
/// `video_size` bytes.
pub fn content_range(byte_range: &core::ops::Range<usize>, video_size: usize) -> (r: String)
    requires
        byte_range.start < byte_range.end,
    ensures
        r@ == content_range_text(byte_range.start as nat, byte_range.end as nat, video_size as nat),
{
    let mut r = String::new();
    r.append("bytes ");
    push_decimal(&mut r, byte_range.start as u64);
    r.append("-");
    push_decimal(&mut r, (byte_range.end - 1) as u64);
    r.append("/");
    push_decimal(&mut r, video_size as u64);
    assert(r@ =~= content_range_text(byte_range.start as nat, byte_range.end as nat, video_size as nat));
    r
}

/// Status a chunk is answered with while more chunks remain ("206 Partial Content").
pub const STATUS_PARTIAL_CONTENT: u16 = 206;

/// Status the final chunk is answered with ("201 Created").
pub const STATUS_CREATED: u16 = 201;

/// A chunk is accepted when it is answered with "206 Partial Content" or
/// "201 Created"; any other status is a protocol mismatch.
pub open spec fn accepted_status(status: u16) -> bool {
    status == STATUS_PARTIAL_CONTENT || status == STATUS_CREATED
}

/// Whether a chunk's response status means the chunk was accepted.
pub fn is_accepted_status(status: u16) -> (r: bool)
    ensures
        r == accepted_status(status),
{
    status == STATUS_PARTIAL_CONTENT || status == STATUS_CREATED
}

/// reqwest's error type, carried through as the cause of a transport failure.
#[verifier::external_type_specification]
#[verifier::external_body]
pub struct ExReqwestError(ReqwestError);

/// std's I/O error type, carried through as the cause of a source-access failure.
#[verifier::external_type_specification]
#[verifier::external_body]
pub struct ExIoError(IoError);

/// Why a chunk, or a whole upload, failed.
#[derive(Debug)]
pub enum UploadError {
    /// The request could not be sent or no response came back.
    RespondFailed(ReqwestError),
    /// The response body of a refused chunk could not be read.
    ReadResponseBodyFailed(ReqwestError),
    /// The chunk was answered with another status than the two accepted ones;
    /// holds that status and the response body.
    ResponseMismatch(u16, Vec<u8>),
    /// The source's size could not be read.
    GetFileInfoFailed(IoError),
    /// The source could not be opened or positioned at the chunk's start.
    OpenFileFailed(IoError),
    /// The plan needs more than `CHUNK_COUNT_MAX` chunks.
    ChunkSizeTooSmaillOrFileTooLarge,
}

/// What became of one chunk: its accepted status, or why it failed.
pub type PartOutcome = Result<u16, UploadError>;

/// The outcome of a chunk once its response status is known; `body` is the
/// result of reading the response body, which is only looked at when the
/// status is not an accepted one.
pub fn part_outcome(status: u16, body: Result<Vec<u8>, ReqwestError>) -> (r: PartOutcome)
    ensures
        accepted_status(status) ==> r == Ok::<u16, UploadError>(status),
        !accepted_status(status) ==> match body {
            Ok(b) => r matches Err(UploadError::ResponseMismatch(s, rb)) && s == status && rb@ == b@,
            Err(e) => r matches Err(UploadError::ReadResponseBodyFailed(re)) && re == e,
        },
{
    if is_accepted_status(status) {
        Ok(status)
    } else {
        match body {
            Ok(b) => Err(UploadError::ResponseMismatch(status, b)),
            Err(e) => Err(UploadError::ReadResponseBodyFailed(e)),
        }
    }
}

/// Where an upload stands. Creating an [`UploadSession`] starts it at chunk 0;
/// `Done` and `Failed` are terminal.
#[derive(Debug, Clone, Copy, PartialEq, Eq, Structural)]
pub enum UploadState {
    /// The chunk with this index is the next to transfer.
    Uploading(usize),
    /// Every chunk was accepted.
    Done,
    /// A chunk failed; no later chunk is attempted.
    Failed,
}

/// The state after a chunk `index` of `total` ends, accepted or not.
pub open spec fn next_state(index: usize, total: usize, accepted: bool) -> UploadState {
    if !accepted {
        UploadState::Failed
    } else if index + 1 == total {
        UploadState::Done
    } else {
        UploadState::Uploading((index + 1) as usize)
    }
}

/// The preferred chunk size of an upload: the caller's, or `CHUNK_SIZE_MAX`.
pub open spec fn preferred_chunk_size(chunk_size: Option<usize>) -> usize {
    match chunk_size {
        Some(c) => c,
        None => CHUNK_SIZE_MAX,
    }
}

/// A chunked upload in progress: its chunk plan, where it stands, and the
/// outcome of each chunk attempted so far, in chunk order.
///
/// The caller drives it: it asks [`UploadSession::next_part`] for the byte range
/// to transfer, transfers it, and hands the outcome to
/// [`UploadSession::record`], until no range is left.
#[derive(Debug)]
pub struct UploadSession {
    video_size: usize,
    chunk_size: usize,
    total_chunk_count: usize,
    state: UploadState,
    outcomes: Vec<PartOutcome>,
}

impl UploadSession {
    /// Size of the source in bytes.
    pub closed spec fn spec_video_size(self) -> usize {
        self.video_size
    }

    /// Size of every chunk but the last.
    pub closed spec fn spec_chunk_size(self) -> usize {
        self.chunk_size
    }

    /// Number of chunks in the plan.
    pub closed spec fn spec_total_chunk_count(self) -> usize {
        self.total_chunk_count
    }

    /// Where the upload stands.
    pub closed spec fn spec_state(self) -> UploadState {
        self.state
    }

    /// The outcomes recorded so far, one per chunk attempted.
    pub closed spec fn spec_outcomes(self) -> Seq<PartOutcome> {
        self.outcomes@
    }

    /// The session's invariant: a plan of at most `CHUNK_COUNT_MAX` chunks that
    /// fits the source, and outcomes that form a run of accepted chunks ended,
    /// in a failed upload, by the one failure.
    pub closed spec fn wf(self) -> bool {
        let n = self.outcomes@.len();
        &&& self.total_chunk_count <= CHUNK_COUNT_MAX
        &&& plan_fits(self.video_size as int, self.chunk_size as int, self.total_chunk_count as int)
        &&& forall|j: int| 0 <= j < n - 1 ==> self.outcomes@[j] is Ok
        &&& match self.state {
            UploadState::Uploading(i) => i == n && i < self.total_chunk_count && (n > 0
                ==> self.outcomes@[n - 1] is Ok),
            UploadState::Done => n == self.total_chunk_count && self.outcomes@[n - 1] is Ok,
            UploadState::Failed => 1 <= n <= self.total_chunk_count && self.outcomes@[n - 1] is Err,
        }
    }

    /// The byte range `[start, end)` to transfer next, if any.
    pub open spec fn pending_part(self) -> Option<(int, int)> {
        match self.spec_state() {
            UploadState::Uploading(i) => Some(
                part_range(
                    self.spec_video_size() as int,
                    self.spec_chunk_size() as int,
                    self.spec_total_chunk_count() as int,
                    i as int,
                ),
            ),
            _ => None,
        }
    }

    /// Plans the upload of a source of `video_size` bytes in chunks of about
    /// `chunk_size` bytes (`CHUNK_SIZE_MAX` when none is given), and starts it at
    /// chunk 0. A plan of more than `CHUNK_COUNT_MAX` chunks is refused.
    pub fn new(video_size: usize, chunk_size: Option<usize>) -> (r: Result<UploadSession, UploadError>)
        ensures
            r is Err <==> chunk_plan(video_size, preferred_chunk_size(chunk_size)).1 > CHUNK_COUNT_MAX,
            r matches Err(e) ==> e is ChunkSizeTooSmaillOrFileTooLarge,
            r matches Ok(s) ==> {
                &&& s.wf()
                &&& s.spec_video_size() == video_size
                &&& (s.spec_chunk_size(), s.spec_total_chunk_count()) == chunk_plan(
                    video_size,
                    preferred_chunk_size(chunk_size),
                )
                &&& s.spec_state() == UploadState::Uploading(0)
                &&& s.spec_outcomes() == Seq::<PartOutcome>::empty()
            },
    {
        let preferred = match chunk_size {
            Some(c) => c,
            None => CHUNK_SIZE_MAX,
        };
        let (chunk_size, total_chunk_count) = get_chunk_size_and_total_chunk_count(
            video_size,
            preferred,
        );
        if total_chunk_count > CHUNK_COUNT_MAX {
            return Err(UploadError::ChunkSizeTooSmaillOrFileTooLarge);
        }
        proof {
            lemma_chunk_plan_fits(video_size, preferred);
        }
        Ok(UploadSession {
            video_size,
            chunk_size,
            total_chunk_count,
            state: UploadState::Uploading(0),
            outcomes: Vec::new(),
        })
    }

    /// Size of the source in bytes.
    pub fn video_size(&self) -> (r: usize)
        ensures
            r == self.spec_video_size(),
    {
        self.video_size
    }

    /// Size of every chunk but the last.
    pub fn chunk_size(&self) -> (r: usize)
        ensures
            r == self.spec_chunk_size(),
    {
        self.chunk_size
    }

    /// Number of chunks in the plan.
    pub fn total_chunk_count(&self) -> (r: usize)
        ensures
            r == self.spec_total_chunk_count(),
    {
        self.total_chunk_count
    }

    /// Where the upload stands.
    pub fn state(&self) -> (r: UploadState)
        ensures
            r == self.spec_state(),
    {
        self.state
    }

    /// The outcomes recorded so far.
    pub fn outcomes(&self) -> (r: &Vec<PartOutcome>)
        ensures
            r@ == self.spec_outcomes(),
    {
        &self.outcomes
    }

    /// Ends the session, handing back the outcome of each chunk attempted.
    pub fn into_outcomes(self) -> (r: Vec<PartOutcome>)
        ensures
            r@ == self.spec_outcomes(),
    {
        self.outcomes
    }

    /// The byte range of the chunk to transfer next; `None` once the upload is
    /// done or has failed. The range is non-empty unless the source is.
    pub fn next_part(&self) -> (r: Option<core::ops::Range<usize>>)
        requires
            self.wf(),
        ensures
            r is Some <==> self.pending_part() is Some,
            r matches Some(range) ==> (range.start as int, range.end as int) == self.pending_part()->0,
            r matches Some(range) ==> range.start <= range.end <= self.spec_video_size(),
            r matches Some(range) ==> (range.start < range.end || self.spec_video_size() == 0),
    {
        match self.state {
            UploadState::Uploading(i) => {
                proof {
                    lemma_part_range_bounds(
                        self.video_size as int,
                        self.chunk_size as int,
                        self.total_chunk_count as int,
                        i as int,
                    );
                }
                let start = i * self.chunk_size;
                let end = if i == self.total_chunk_count - 1 {
                    self.video_size
                } else {
                    start + self.chunk_size
                };
                Some(core::ops::Range { start, end })
            },
            _ => None,
        }
    }

    /// Records the outcome of the chunk handed out by `next_part`, and moves on:
    /// to the next chunk after an accepted one, to `Done` after the last, and to
    /// `Failed` after a failure. A finished session is left as it is.
    pub fn record(&mut self, outcome: PartOutcome)
        requires
            old(self).wf(),
        ensures
            final(self).wf(),
            final(self).spec_video_size() == old(self).spec_video_size(),
            final(self).spec_chunk_size() == old(self).spec_chunk_size(),
            final(self).spec_total_chunk_count() == old(self).spec_total_chunk_count(),
            match old(self).spec_state() {
                UploadState::Uploading(i) => {
                    &&& final(self).spec_outcomes() == old(self).spec_outcomes().push(outcome)
                    &&& final(self).spec_state() == next_state(
                        i,
                        old(self).spec_total_chunk_count(),
                        outcome is Ok,
                    )
                },
                _ => {
                    &&& final(self).spec_outcomes() == old(self).spec_outcomes()
                    &&& final(self).spec_state() == old(self).spec_state()
                },
            },
    {
        match self.state {
            UploadState::Uploading(i) => {
                let accepted = outcome.is_ok();
                self.outcomes.push(outcome);
                self.state = if !accepted {
                    UploadState::Failed
                } else if i + 1 == self.total_chunk_count {
                    UploadState::Done
                } else {
                    UploadState::Uploading(i + 1)
                };
            },
            _ => {},
        }
    }
}

/// Once a chunk fails the upload is over: the failure is the last outcome,
/// every chunk before it was accepted, and no further chunk is handed out.
pub proof fn lemma_failure_ends_upload(s: UploadSession, k: int)
    requires
        s.wf(),
        0 <= k < s.spec_outcomes().len(),
        s.spec_outcomes()[k] is Err,
    ensures
        s.spec_outcomes().len() == k + 1,
        forall|j: int| 0 <= j < k ==> s.spec_outcomes()[j] is Ok,
        s.spec_state() == UploadState::Failed,
        s.pending_part() is None,
{
}

/// An upload that is done attempted every chunk of its plan, and every one was
/// accepted.
pub proof fn lemma_done_means_all_accepted(s: UploadSession)
    requires
        s.wf(),
        s.spec_state() == UploadState::Done,
    ensures
        s.spec_outcomes().len() == s.spec_total_chunk_count(),
        forall|j: int| 0 <= j < s.spec_outcomes().len() ==> s.spec_outcomes()[j] is Ok,
{
}

} // verus!
