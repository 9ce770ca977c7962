//! Progress of a download in bytes.

use vstd::prelude::*;

verus! {

/// The total that progress is measured against: the total of all files
/// where it is known, the size of this file otherwise.
pub fn effective_total(grand_total: u64, file_size: u64) -> (total: u64)
    ensures
        total == (if grand_total > 0 {
            grand_total
        } else {
            file_size
        }),
{
    if grand_total > 0 {
        grand_total
    } else {
        file_size
    }
}

/// How far a download has come.
#[derive(Debug, Clone, Copy, PartialEq, Eq)]
pub struct DownloadProgress {
    /// Bytes of earlier files.
    pub offset: u64,
    /// Bytes of this file so far.
    pub downloaded: u64,
    /// The total that progress is measured against; zero where unknown.
    pub total: u64,
}

impl DownloadProgress {
    /// Nothing of this file downloaded yet.
    pub fn start(offset: u64, grand_total: u64, file_size: u64) -> (progress: DownloadProgress)
        ensures
            progress.offset == offset,
            progress.downloaded == 0,
            progress.total == (if grand_total > 0 {
                grand_total
            } else {
                file_size
            }),
    {
        DownloadProgress { offset, downloaded: 0, total: effective_total(grand_total, file_size) }
    }

    /// Bytes downloaded over all files.
    pub open spec fn total_downloaded(&self) -> int {
        self.offset + self.downloaded
    }

    /// Counts a chunk of `len` bytes, and gives the bytes downloaded over all
    /// files; `None`, with nothing counted, where a count would leave the
    /// range of 64 bits.
    pub fn advance(&mut self, len: usize) -> (sum: Option<u64>)
        ensures
            final(self).offset == old(self).offset,
            final(self).total == old(self).total,
            old(self).total_downloaded() + len <= u64::MAX ==> final(self).downloaded == old(self).downloaded + len && sum == Some((old(self).total_downloaded() + len) as u64),
            old(self).total_downloaded() + len > u64::MAX ==> sum is None && final(self).downloaded
                == old(self).downloaded,
    {
        let chunk: u64 = len as u64;
        match self.downloaded.checked_add(chunk) {
            Some(downloaded) => match self.offset.checked_add(downloaded) {
                Some(sum) => {
                    self.downloaded = downloaded;
                    Some(sum)
                },
                None => None,
            },
            None => None,
        }
    }

    /// Progress in hundredths of a percent, rounded down; zero where the
    /// total is unknown.
    pub fn basis_points(&self) -> (points: u128)
        ensures
            self.total == 0 ==> points == 0,
            self.total > 0 ==> points == (self.total_downloaded() * 10000) / (self.total as int),
    {
        if self.total == 0 {
            return 0;
        }
        let sum: u128 = self.offset as u128 + self.downloaded as u128;
        proof {
            assert(sum * 10000 <= u128::MAX) by (nonlinear_arith)
                requires
                    0 <= sum <= 2 * 0xffff_ffff_ffff_ffff,
            ;
        }
        (sum * 10000) / (self.total as u128)
    }
}

} // verus!
