use vstd::prelude::*;

use crate::records::{DaemonError, TransferInfo, TransferStats};
use crate::text::same_text;

verus! {

/// The groups a transfer is counted in.
#[derive(Debug, Clone, Copy, PartialEq, Eq, Structural)]
pub enum Bucket {
    Upload,
    Download,
    Active,
    Completed,
    Failed,
}

pub open spec fn is_upload(t: TransferInfo) -> bool {
    t.direction@ == "upload"@
}

/// Whether a transfer belongs to a bucket. Every transfer that is not an
/// upload is a download; "failed" absorbs the cancelled and rejected ones.
pub open spec fn in_bucket(t: TransferInfo, b: Bucket) -> bool {
    match b {
        Bucket::Upload => is_upload(t),
        Bucket::Download => !is_upload(t),
        Bucket::Active => t.status@ == "active"@,
        Bucket::Completed => t.status@ == "completed"@,
        Bucket::Failed => t.status@ == "failed"@ || t.status@ == "cancelled"@ || t.status@
            == "rejected"@,
    }
}

/// How many transfers of `ts` are in bucket `b`.
pub open spec fn count_in(ts: Seq<TransferInfo>, b: Bucket) -> nat
    decreases ts.len(),
{
    if ts.len() == 0 {
        0
    } else {
        count_in(ts.drop_last(), b) + if in_bucket(ts.last(), b) {
            1nat
        } else {
            0nat
        }
    }
}

/// The transferred bytes of the transfers of `ts` that are in bucket `b`.
pub open spec fn bytes_in(ts: Seq<TransferInfo>, b: Bucket) -> nat
    decreases ts.len(),
{
    if ts.len() == 0 {
        0
    } else {
        bytes_in(ts.drop_last(), b) + if in_bucket(ts.last(), b) {
            ts.last().transferred as nat
        } else {
            0nat
        }
    }
}

/// Whether the totals of `ts` fit the counters of `TransferStats`.
pub open spec fn stats_fit(ts: Seq<TransferInfo>) -> bool {
    &&& ts.len() <= u32::MAX
    &&& bytes_in(ts, Bucket::Upload) <= u64::MAX
    &&& bytes_in(ts, Bucket::Download) <= u64::MAX
}

/// `s` holds exactly the totals of `ts`.
pub open spec fn stats_match(s: TransferStats, ts: Seq<TransferInfo>) -> bool {
    &&& s.total_uploads as nat == count_in(ts, Bucket::Upload)
    &&& s.total_downloads as nat == count_in(ts, Bucket::Download)
    &&& s.active_transfers as nat == count_in(ts, Bucket::Active)
    &&& s.completed_transfers as nat == count_in(ts, Bucket::Completed)
    &&& s.failed_transfers as nat == count_in(ts, Bucket::Failed)
    &&& s.total_bytes_sent as nat == bytes_in(ts, Bucket::Upload)
    &&& s.total_bytes_received as nat == bytes_in(ts, Bucket::Download)
}

proof fn lemma_count_bounded(ts: Seq<TransferInfo>, b: Bucket)
    ensures
        count_in(ts, b) <= ts.len(),
    decreases ts.len(),
{
    if ts.len() > 0 {
        lemma_count_bounded(ts.drop_last(), b);
    }
}

proof fn lemma_bytes_grow(ts: Seq<TransferInfo>, i: int, b: Bucket)
    requires
        0 <= i <= ts.len(),
    ensures
        bytes_in(ts.take(i), b) <= bytes_in(ts, b),
    decreases ts.len() - i,
{
    if i < ts.len() {
        lemma_bytes_grow(ts, i + 1, b);
        assert(ts.take(i + 1).drop_last() =~= ts.take(i));
    } else {
        assert(ts.take(i) =~= ts);
    }
}

/// Sorts a transfer into its buckets.
fn bucket_flags(t: &TransferInfo) -> (r: (bool, bool, bool, bool))
    ensures
        r.0 == in_bucket(*t, Bucket::Upload),
        r.1 == in_bucket(*t, Bucket::Active),
        r.2 == in_bucket(*t, Bucket::Completed),
        r.3 == in_bucket(*t, Bucket::Failed),
{
    let status = t.status.as_str();
    let upload = same_text(t.direction.as_str(), "upload");
    let active = same_text(status, "active");
    let completed = same_text(status, "completed");
    let failed = same_text(status, "failed") || same_text(status, "cancelled") || same_text(
        status,
        "rejected",
    );
    (upload, active, completed, failed)
}

/// Folds a transfer list into its totals, in one pass. `None` when a total
/// does not fit its counter.
pub fn fold_transfer_stats(transfers: &Vec<TransferInfo>) -> (r: Option<TransferStats>)
    ensures
        r is Some <==> stats_fit(transfers@),
        r matches Some(s) ==> stats_match(s, transfers@),
{
    let ghost ts = transfers@;
    let n = transfers.len();
    if n > 4294967295 {
        return None;
    }
    let mut s = TransferStats {
        total_uploads: 0,
        total_downloads: 0,
        active_transfers: 0,
        completed_transfers: 0,
        failed_transfers: 0,
        total_bytes_sent: 0,
        total_bytes_received: 0,
    };
    let mut i: usize = 0;
    assert(ts.take(0) =~= Seq::<TransferInfo>::empty());
    while i < n
        invariant
            ts == transfers@,
            n == ts.len(),
            n <= u32::MAX,
            i <= n,
            stats_match(s, ts.take(i as int)),
        decreases n - i,
    {
        let t = &transfers[i];
        let ghost pre = ts.take(i as int);
        let ghost post = ts.take(i + 1);
        assert(post.drop_last() =~= pre);
        assert(post.last() == ts[i as int]);
        proof {
            lemma_count_bounded(pre, Bucket::Upload);
            lemma_count_bounded(pre, Bucket::Download);
            lemma_count_bounded(pre, Bucket::Active);
            lemma_count_bounded(pre, Bucket::Completed);
            lemma_count_bounded(pre, Bucket::Failed);
        }
        let (upload, active, completed, failed) = bucket_flags(t);
        if upload {
            if s.total_bytes_sent > u64::MAX - t.transferred {
                proof {
                    lemma_bytes_grow(ts, i + 1, Bucket::Upload);
                }
                return None;
            }
            s.total_uploads = s.total_uploads + 1;
            s.total_bytes_sent = s.total_bytes_sent + t.transferred;
        } else {
            if s.total_bytes_received > u64::MAX - t.transferred {
                proof {
                    lemma_bytes_grow(ts, i + 1, Bucket::Download);
                }
                return None;
            }
            s.total_downloads = s.total_downloads + 1;
            s.total_bytes_received = s.total_bytes_received + t.transferred;
        }
        if active {
            s.active_transfers = s.active_transfers + 1;
        }
        if completed {
            s.completed_transfers = s.completed_transfers + 1;
        }
        if failed {
            s.failed_transfers = s.failed_transfers + 1;
        }
        i = i + 1;
    }
    assert(ts.take(n as int) =~= ts);
    Some(s)
}

/// The statistics the daemon has no endpoint for, derived from the full
/// transfer list: an error of the listing is passed on unchanged, and totals
/// that do not fit their counters are an `InvalidResponse`.
pub fn transfer_stats_from(listing: Result<Vec<TransferInfo>, DaemonError>) -> (r: Result<
    TransferStats,
    DaemonError,
>)
    ensures
        match listing {
            Err(e) => r == Err::<TransferStats, DaemonError>(e),
            Ok(ts) => if stats_fit(ts@) {
                r matches Ok(s) && stats_match(s, ts@)
            } else {
                r matches Err(DaemonError::InvalidResponse(_))
            },
        },
{
    match listing {
        Err(e) => Err(e),
        Ok(ts) => match fold_transfer_stats(&ts) {
            Some(s) => Ok(s),
            None => Err(
                DaemonError::InvalidResponse(String::from_str("transfer totals out of range")),
            ),
        },
    }
}

/// Every transfer is counted as exactly one of upload and download, and at
/// most once among active, completed and failed.
pub proof fn lemma_stats_partition(ts: Seq<TransferInfo>)
    ensures
        count_in(ts, Bucket::Upload) + count_in(ts, Bucket::Download) == ts.len(),
        count_in(ts, Bucket::Active) + count_in(ts, Bucket::Completed) + count_in(
            ts,
            Bucket::Failed,
        ) <= ts.len(),
    decreases ts.len(),
{
    reveal_strlit("active");
    reveal_strlit("completed");
    reveal_strlit("failed");
    reveal_strlit("cancelled");
    reveal_strlit("rejected");
    assert("active"@[0] != "failed"@[0]);
    assert("active"@.len() != "completed"@.len());
    assert("active"@.len() != "cancelled"@.len());
    assert("active"@.len() != "rejected"@.len());
    assert("completed"@.len() != "failed"@.len());
    assert("completed"@[1] != "cancelled"@[1]);
    assert("completed"@.len() != "rejected"@.len());
    if ts.len() > 0 {
        lemma_stats_partition(ts.drop_last());
    }
}

/// The folded statistics of a list whose totals fit are the bucket counts and
/// byte sums of the list, and the direction counts add up to its length.
pub proof fn lemma_fold_is_summation(transfers: Vec<TransferInfo>, s: TransferStats)
    requires
        stats_match(s, transfers@),
    ensures
        s.total_uploads + s.total_downloads == transfers@.len(),
        s.active_transfers + s.completed_transfers + s.failed_transfers <= transfers@.len(),
{
    lemma_stats_partition(transfers@);
}

} // verus!
