//! The bookkeeping of a streamed download: the announced length, and the
//! progress report that follows each chunk.
use vstd::prelude::*;
use crate::github::{is_success, status_is_success, DownloadEvent};
use crate::text::{opt_str_view, parse_decimal, parse_unsigned};
use crate::update::UpdateError;

verus! {

/// The size of the buffer that a download is read through.
pub const CHUNK_SIZE: usize = 16384;

/// The length that a `Content-Length` header announces: its value where the
/// header is there and holds an unsigned decimal number that fits 64 bits,
/// and 0, which stands for "not known", in every other case.
pub open spec fn announced_length(header: Option<Seq<char>>) -> nat {
    match header {
        Some(text) => match parse_unsigned(text, u64::MAX as nat) {
            Some(n) => n,
            None => 0,
        },
        None => 0,
    }
}

/// The length that the `Content-Length` header announces, 0 where it is
/// missing or unreadable.
pub fn content_length(header: Option<&str>) -> (total: u64)
    ensures
        total == announced_length(opt_str_view(header)),
{
    match header {
        Some(text) => match parse_decimal(text, u64::MAX) {
            Some(n) => n,
            None => 0,
        },
        None => 0,
    }
}

/// The sum of the sizes of chunks.
pub open spec fn sum_of(chunks: Seq<nat>) -> nat
    decreases chunks.len(),
{
    if chunks.len() == 0 {
        0
    } else {
        sum_of(chunks.drop_last()) + chunks.last()
    }
}

/// Every chunk holds at least one byte and at most what the buffer holds.
pub open spec fn chunks_fit(chunks: Seq<nat>) -> bool {
    forall|i: int| 0 <= i < chunks.len() ==> 1 <= #[trigger] chunks[i] <= CHUNK_SIZE
}

/// What is reported while chunks of these sizes arrive: after each chunk, the
/// number of bytes received up to and with it.
pub open spec fn reports_of(chunks: Seq<nat>) -> Seq<nat> {
    Seq::new(chunks.len(), |i: int| sum_of(chunks.take(i + 1)))
}

/// The state of one download: how much has arrived, and how much was
/// announced.
pub struct DownloadTracker {
    received: u64,
    total: u64,
    chunks: Ghost<Seq<nat>>,
}

impl DownloadTracker {
    /// What has arrived is what the chunks brought, and every chunk that was
    /// counted fits the buffer.
    #[verifier::type_invariant]
    spec fn counted(self) -> bool {
        self.received == sum_of(self.chunks@) && chunks_fit(self.chunks@)
    }

    /// The number of bytes that have arrived.
    pub closed spec fn spec_received(&self) -> nat {
        self.received as nat
    }

    /// The announced length, 0 where none was announced.
    pub closed spec fn spec_total(&self) -> nat {
        self.total as nat
    }

    /// The sizes of the chunks that were reported, in the order in which
    /// they arrived.
    pub closed spec fn spec_chunks(&self) -> Seq<nat> {
        self.chunks@
    }

    /// The number of bytes that have arrived.
    pub fn received(&self) -> (n: u64)
        ensures
            n == self.spec_received(),
    {
        self.received
    }

    /// The announced length, 0 where none was announced.
    pub fn total(&self) -> (n: u64)
        ensures
            n == self.spec_total(),
    {
        self.total
    }

    /// Takes note of a chunk of `n` bytes that was read through the buffer
    /// and written. An empty chunk is the end of the stream and reports
    /// nothing; any other chunk is reported with the number of bytes
    /// received so far, which grows with it, and the announced length.
    pub fn record_chunk(&mut self, n: usize) -> (event: Option<DownloadEvent>)
        requires
            n <= CHUNK_SIZE,
            old(self).spec_received() + n <= u64::MAX,
        ensures
            final(self).spec_total() == old(self).spec_total(),
            final(self).spec_received() == old(self).spec_received() + n,
            final(self).spec_chunks() == if n > 0 {
                old(self).spec_chunks().push(n as nat)
            } else {
                old(self).spec_chunks()
            },
            final(self).spec_received() == sum_of(final(self).spec_chunks()),
            chunks_fit(final(self).spec_chunks()),
            n == 0 ==> event is None,
            n > 0 ==> (event matches Some(DownloadEvent::Progress { received, total })
                && received == old(self).spec_received() + n
                && received == reports_of(final(self).spec_chunks()).last()
                && total == old(self).spec_total()),
    {
        proof {
            use_type_invariant(&*self);
        }
        if n == 0 {
            None
        } else {
            let ghost before = self.chunks@;
            let ghost after = before.push(n as nat);
            proof {
                assert(after.drop_last() =~= before);
                assert(after.take(after.len() as int) =~= after);
            }
            let received = self.received + n as u64;
            let total = self.total;
            *self = DownloadTracker { received, total, chunks: Ghost(after) };
            Some(DownloadEvent::Progress { received, total })
        }
    }

    /// Whether a further chunk of `n` bytes can be counted.
    pub fn has_room(&self, n: usize) -> (r: bool)
        ensures
            r == (self.spec_received() + n <= u64::MAX),
    {
        n as u64 <= u64::MAX - self.received
    }
}

/// Begins a download whose response carries the given `Content-Length`
/// header, if any: nothing has arrived yet.
pub fn download_asset(content_length_header: Option<&str>) -> (tracker: DownloadTracker)
    ensures
        tracker.spec_received() == 0,
        tracker.spec_total() == announced_length(opt_str_view(content_length_header)),
        tracker.spec_chunks() == Seq::<nat>::empty(),
{
    DownloadTracker {
        received: 0,
        total: content_length(content_length_header),
        chunks: Ghost(Seq::empty()),
    }
}

/// Decides on the response to a download request: a status outside 200 to
/// 299 ends the download before anything is written; any other begins it,
/// with the length that the response announces.
pub fn begin_download(status: u16, content_length_header: Option<&str>) -> (r: Result<
    DownloadTracker,
    UpdateError,
>)
    ensures
        !is_success(status) ==> (r matches Err(UpdateError::HttpStatus(code)) && code == status),
        is_success(status) ==> (r matches Ok(tracker) && tracker.spec_received() == 0
            && tracker.spec_total() == announced_length(opt_str_view(content_length_header))
            && tracker.spec_chunks() == Seq::<nat>::empty()),
{
    if status_is_success(status) {
        Ok(download_asset(content_length_header))
    } else {
        Err(UpdateError::HttpStatus(status))
    }
}

/// The sum of chunks grows with every chunk that is added.
pub proof fn lemma_sum_of_take(chunks: Seq<nat>, i: int)
    requires
        0 <= i < chunks.len(),
    ensures
        sum_of(chunks.take(i + 1)) == sum_of(chunks.take(i)) + chunks[i],
{
    assert(chunks.take(i + 1).drop_last() =~= chunks.take(i));
}

/// The reports of a download grow strictly, each by the size of its chunk,
/// which is at least one byte and at most what the buffer holds; the first
/// report is the size of the first chunk.
pub proof fn lemma_reports_grow(chunks: Seq<nat>)
    requires
        chunks_fit(chunks),
    ensures
        reports_of(chunks).len() == chunks.len(),
        chunks.len() > 0 ==> 1 <= reports_of(chunks)[0] <= CHUNK_SIZE,
        forall|i: int|
            0 < i < chunks.len() ==> 1 <= #[trigger] reports_of(chunks)[i] - reports_of(chunks)[i
                - 1] <= CHUNK_SIZE,
        forall|i: int, j: int|
            0 <= i < j < chunks.len() ==> #[trigger] reports_of(chunks)[i] < #[trigger] reports_of(
                chunks,
            )[j],
{
    if chunks.len() > 0 {
        lemma_sum_of_take(chunks, 0);
        assert(chunks.take(0) =~= Seq::<nat>::empty());
    }
    assert forall|i: int| 0 < i < chunks.len() implies 1 <= #[trigger] reports_of(chunks)[i]
        - reports_of(chunks)[i - 1] <= CHUNK_SIZE by {
        lemma_sum_of_take(chunks, i);
    }
    assert forall|i: int, j: int| 0 <= i < j < chunks.len() implies #[trigger] reports_of(
        chunks,
    )[i] < #[trigger] reports_of(chunks)[j] by {
        lemma_reports_ordered(chunks, i, j);
    }
}

/// Of two reports of a download, the later one is the greater.
pub proof fn lemma_reports_ordered(chunks: Seq<nat>, i: int, j: int)
    requires
        chunks_fit(chunks),
        0 <= i < j < chunks.len(),
    ensures
        reports_of(chunks)[i] < reports_of(chunks)[j],
    decreases j - i,
{
    lemma_sum_of_take(chunks, j);
    if i + 1 < j {
        lemma_reports_ordered(chunks, i, j - 1);
    }
}

} // verus!
