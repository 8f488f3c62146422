//! Transient state of one artifact download.
//!
//! A dependency bundle is fetched over HTTP into the working directory. A
//! partial file left by an interrupted transfer is not discarded: the next
//! session opens with that file's size as its starting offset, asks the
//! server for the byte range from there on, and appends. The session keeps
//! the bookkeeping — remote total, bytes already on disk, bytes appended so
//! far — and the progress numbers derived from it. The actual request and
//! the writes to disk happen outside the library; each chunk written is
//! reported back through [`DownloadSession::record_chunk`].

use vstd::prelude::*;

verus! {

/// The last path segment of a URL: the longest suffix without a slash. The
/// fetched artifact is stored under this name in the working directory.
pub open spec fn url_file_name(u: Seq<char>) -> Seq<char>
    decreases u.len(),
{
    if u.len() == 0 {
        u
    } else if u.last() == '/' {
        Seq::empty()
    } else {
        url_file_name(u.drop_last()).push(u.last())
    }
}

/// The last path segment starts right after the last slash.
proof fn lemma_url_file_name_suffix(u: Seq<char>, k: int)
    requires
        0 <= k <= u.len(),
        forall|j: int| k <= j < u.len() ==> u[j] != '/',
        k > 0 ==> u[k - 1] == '/',
    ensures
        url_file_name(u) == u.subrange(k, u.len() as int),
    decreases u.len(),
{
    if u.len() == 0 {
        assert(url_file_name(u) =~= u.subrange(k, u.len() as int));
    } else if u.last() == '/' {
        assert(k == u.len());
        assert(url_file_name(u) =~= u.subrange(k, u.len() as int));
    } else {
        assert(k < u.len());
        lemma_url_file_name_suffix(u.drop_last(), k);
        assert(url_file_name(u) =~= u.subrange(k, u.len() as int));
    }
}

/// The file name a fetched artifact is stored under: the URL's last path
/// segment.
pub fn file_name_from_url(url: &str) -> (r: String)
    ensures
        r@ == url_file_name(url@),
{
    let n = url.unicode_len();
    let mut k: usize = n;
    while k > 0 && url.get_char(k - 1) != '/'
        invariant
            n == url@.len(),
            k <= n,
            forall|j: int| k <= j < n ==> url@[j] != '/',
        decreases k,
    {
        k = k - 1;
    }
    proof {
        lemma_url_file_name_suffix(url@, k as int);
    }
    url.substring_char(k, n).to_owned()
}

/// Why a download session cannot be opened.
#[derive(Clone, Copy, Debug, PartialEq, Eq, Structural)]
pub enum FetchError {
    /// The partial file on disk is already larger than the remote total: it
    /// cannot be a prefix of the remote artifact, so no resume is possible.
    OversizedLocalFile,
    /// The transfer failed mid-stream. The partial file stays on disk so
    /// that a later session can resume from it.
    Network,
}

/// Bookkeeping for one download: the remote file's total size, how much of
/// it was already on disk when the session opened, and how many bytes this
/// session has appended so far. Discarded at completion or failure; only the
/// partial file on disk outlives it.
#[derive(Clone, Copy, Debug, PartialEq, Eq, Structural)]
pub struct DownloadSession {
    /// Size of the remote artifact, from the response's content length.
    /// Fixed for the whole session.
    pub total_size: u64,
    /// Size the local file had when the session opened. Fixed for the whole
    /// session; the range request starts here.
    pub bytes_on_disk: u64,
    /// Bytes appended to the local file by this session so far.
    pub transferred: u64,
}

impl DownloadSession {
    /// The session never books more bytes than the remote total.
    pub open spec fn wf(self) -> bool {
        self.bytes_on_disk + self.transferred <= self.total_size
    }

    /// Current size of the local file: what was on disk plus what this
    /// session has appended.
    pub open spec fn spec_position(self) -> int {
        self.bytes_on_disk + self.transferred
    }

    /// Bytes still missing from the local file.
    pub open spec fn spec_remaining(self) -> int {
        self.total_size - self.spec_position()
    }

    /// The local file holds the whole remote artifact.
    pub open spec fn spec_complete(self) -> bool {
        self.spec_position() == self.total_size
    }

    /// Opens a session over a local file of `bytes_on_disk` bytes for a
    /// remote artifact of `total_size` bytes. Succeeds exactly when the
    /// local file is no larger than the remote artifact.
    pub fn begin(total_size: u64, bytes_on_disk: u64) -> (r: Result<DownloadSession, FetchError>)
        ensures
            bytes_on_disk <= total_size ==> (r matches Ok(s) && s == (DownloadSession {
                total_size,
                bytes_on_disk,
                transferred: 0,
            })),
            bytes_on_disk > total_size ==> (r matches Err(e) && e is OversizedLocalFile),
    {
        if bytes_on_disk <= total_size {
            Ok(DownloadSession { total_size, bytes_on_disk, transferred: 0 })
        } else {
            Err(FetchError::OversizedLocalFile)
        }
    }

    /// Offset at which the server is asked to start: the bytes already on
    /// disk. A session that starts at zero is a fresh download.
    pub fn range_start(&self) -> (r: u64)
        ensures
            r == self.bytes_on_disk,
    {
        self.bytes_on_disk
    }

    /// Whether this session continues a partial prior download.
    pub fn resumes(&self) -> (r: bool)
        ensures
            r == (self.bytes_on_disk > 0),
    {
        self.bytes_on_disk > 0
    }

    /// Total shown by the progress indicator: always the full content
    /// length, never just the remaining part, so a resumed download shows
    /// its true overall completion.
    pub fn progress_total(&self) -> (r: u64)
        ensures
            r == self.total_size,
    {
        self.total_size
    }

    /// Position shown by the progress indicator: the local file's current
    /// size.
    pub fn progress_position(&self) -> (r: u64)
        requires
            self.wf(),
        ensures
            r == self.spec_position(),
    {
        self.bytes_on_disk + self.transferred
    }

    /// Bytes still to be transferred in this session.
    pub fn remaining(&self) -> (r: u64)
        requires
            self.wf(),
        ensures
            r == self.spec_remaining(),
    {
        self.total_size - self.bytes_on_disk - self.transferred
    }

    /// Books `n` bytes just appended to the local file. The remote total and
    /// the starting offset never change; only the transferred count grows.
    pub fn record_chunk(&mut self, n: u64)
        requires
            old(self).wf(),
            n <= old(self).spec_remaining(),
        ensures
            final(self).wf(),
            final(self).total_size == old(self).total_size,
            final(self).bytes_on_disk == old(self).bytes_on_disk,
            final(self).transferred == old(self).transferred + n,
    {
        self.transferred = self.transferred + n;
    }

    /// Whether the local file now holds the whole remote artifact.
    pub fn is_complete(&self) -> (r: bool)
        requires
            self.wf(),
        ensures
            r == self.spec_complete(),
    {
        self.bytes_on_disk + self.transferred == self.total_size
    }
}

/// Resume correctness. A session opened over a partial local file of `n`
/// bytes, with remote total `t` and `n < t`, has exactly `t - n` bytes left
/// to transfer; a later point of the same session (same total, same starting
/// offset) at which exactly those `t - n` bytes have been appended has a
/// local file of exactly `t` bytes and is complete; and the progress total
/// reported at the two points is the same `t`.
pub proof fn lemma_resume_correctness(start: DownloadSession, done: DownloadSession)
    requires
        start.wf(),
        start.transferred == 0,
        start.bytes_on_disk < start.total_size,
        done.total_size == start.total_size,
        done.bytes_on_disk == start.bytes_on_disk,
        done.transferred == start.spec_remaining(),
    ensures
        start.spec_remaining() == start.total_size - start.bytes_on_disk,
        done.wf(),
        done.spec_position() == done.total_size,
        done.spec_complete(),
        done.total_size == start.total_size,
{
}

} // verus!
