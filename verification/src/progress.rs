//! Counting the bytes of a download.

use vstd::prelude::*;

verus! {

/// How far a download has come: the bytes written so far and, where the
/// store declared it, the size of the whole.
#[derive(Debug, Clone, Copy, PartialEq, Eq, Structural)]
pub struct TransferProgress {
    /// Bytes written so far.
    pub transferred: u64,
    /// The declared size, if any.
    pub total: Option<u64>,
}

/// The count after `len` more bytes: the sum, held at the largest count that
/// 64 bits can express.
pub open spec fn advanced(transferred: u64, len: u64) -> u64 {
    if transferred + len <= u64::MAX {
        (transferred + len) as u64
    } else {
        u64::MAX
    }
}

/// The part of `total` that `transferred` makes, in thousandths, and a
/// thousand where the count has passed the total or the total is zero.
pub open spec fn thousandths(transferred: u64, total: u64) -> int {
    if total == 0 || transferred >= total {
        1000
    } else {
        transferred * 1000 / (total as int)
    }
}

impl TransferProgress {
    /// No byte written yet.
    pub fn new(total: Option<u64>) -> (progress: TransferProgress)
        ensures
            progress == (TransferProgress { transferred: 0, total }),
    {
        TransferProgress { transferred: 0, total }
    }

    /// The progress after `len` more bytes were written. The count never
    /// goes down, and the total stays as it is.
    pub fn advance(self, len: u64) -> (progress: TransferProgress)
        ensures
            progress == (TransferProgress {
                transferred: advanced(self.transferred, len),
                total: self.total,
            }),
            progress.transferred >= self.transferred,
    {
        let transferred = match self.transferred.checked_add(len) {
            Some(sum) => sum,
            None => u64::MAX,
        };
        TransferProgress { transferred, total: self.total }
    }

    /// Whether the count has reached the declared size.
    pub fn is_complete(&self) -> (complete: bool)
        ensures
            complete == (self.total == Some(self.transferred)),
    {
        match self.total {
            Some(total) => total == self.transferred,
            None => false,
        }
    }

    /// The fraction complete, in thousandths of the declared size; `None`
    /// where no size was declared.
    pub fn permille(&self) -> (fraction: Option<u16>)
        ensures
            match self.total {
                Some(total) => fraction == Some(thousandths(self.transferred, total) as u16),
                None => fraction is None,
            },
            fraction matches Some(part) ==> part <= 1000,
    {
        match self.total {
            None => None,
            Some(total) => {
                if total == 0 || self.transferred >= total {
                    Some(1000)
                } else {
                    let scaled: u128 = (self.transferred as u128) * 1000;
                    let part: u128 = scaled / (total as u128);
                    assert(part < 1000) by (nonlinear_arith)
                        requires
                            part == scaled / (total as u128),
                            scaled == self.transferred * 1000,
                            self.transferred < total,
                            total > 0,
                    ;
                    Some(part as u16)
                }
            },
        }
    }
}

} // verus!
