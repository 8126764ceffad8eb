use vstd::prelude::*;

use crate::errors::ArchiveError;

verus! {

/// Minimum age, in seconds, a record must have before it is treated as
/// finalized upstream and therefore safe to ingest.
pub const STALENESS_MARGIN_SECS: i64 = 3600;

/// How many recent record summaries the estimator asks the upstream for.
pub const LISTING_LIMIT: u64 = 100;

/// One record summary from the upstream listing: the record id and the
/// upstream-reported creation time, in epoch seconds.
#[derive(Clone, Copy, Debug, PartialEq, Eq, Structural)]
pub struct LogEntry {
    /// Record id, positive and monotonically assigned upstream.
    pub id: u64,
    /// Creation time reported by the upstream, in epoch seconds.
    pub created_at: i64,
}

/// The full upstream listing reply: an explicit success flag and the record
/// summaries in upstream order, newest first.
pub struct Listing {
    /// The upstream's own failure flag; `false` is a protocol error.
    pub success: bool,
    /// Record summaries in the order the upstream returned them.
    pub entries: Vec<LogEntry>,
}

/// An entry is stale at `now` when it is strictly older than the staleness
/// margin. Only stale records are treated as finalized.
pub open spec fn is_stale(e: LogEntry, now: i64) -> bool {
    now - e.created_at > STALENESS_MARGIN_SECS
}

/// The frontier of a listing at `now`: the id of the first entry, in listed
/// order, that is stale; none when no entry is.
pub open spec fn frontier_of(entries: Seq<LogEntry>, now: i64) -> Option<u64>
    decreases entries.len(),
{
    if entries.len() == 0 {
        None
    } else if is_stale(entries[0], now) {
        Some(entries[0].id)
    } else {
        frontier_of(entries.drop_first(), now)
    }
}

/// The frontier as the estimator reports it: the missing frontier is the
/// `NoFrontier` error.
pub open spec fn frontier_result(entries: Seq<LogEntry>, now: i64) -> Result<u64, ArchiveError> {
    match frontier_of(entries, now) {
        Option::Some(id) => Result::Ok(id),
        Option::None => Result::Err(ArchiveError::NoFrontier),
    }
}

/// What a whole listing yields: an upstream-reported failure is a protocol
/// error; otherwise the frontier of its entries.
pub open spec fn listing_frontier(success: bool, entries: Seq<LogEntry>, now: i64) -> Result<
    u64,
    ArchiveError,
> {
    if success {
        frontier_result(entries, now)
    } else {
        Result::Err(ArchiveError::Protocol)
    }
}

fn entry_is_stale(e: &LogEntry, now: i64) -> (r: bool)
    ensures
        r == is_stale(*e, now),
{
    (now as i128) - (e.created_at as i128) > (STALENESS_MARGIN_SECS as i128)
}

/// Estimate the highest record id that is safe to ingest at `now`: scan the
/// entries in listed order and pick the first one older than the staleness
/// margin; fail with `NoFrontier` when none qualifies.
pub fn estimate_frontier(entries: &Vec<LogEntry>, now: i64) -> (r: Result<u64, ArchiveError>)
    ensures
        r == frontier_result(entries@, now),
{
    let n = entries.len();
    let mut i: usize = 0;
    assert(entries@.skip(0) =~= entries@);
    while i < n
        invariant
            0 <= i <= n,
            n == entries@.len(),
            frontier_of(entries@, now) == frontier_of(entries@.skip(i as int), now),
        decreases n - i,
    {
        if entry_is_stale(&entries[i], now) {
            assert(entries@.skip(i as int)[0] == entries@[i as int]);
            return Result::Ok(entries[i].id);
        }
        assert(entries@.skip(i as int).drop_first() =~= entries@.skip(i as int + 1));
        i = i + 1;
    }
    assert(entries@.skip(n as int) =~= Seq::<LogEntry>::empty());
    Result::Err(ArchiveError::NoFrontier)
}

/// Estimate the frontier from a whole listing reply: an upstream-reported
/// failure aborts with a protocol error before any entry is considered.
pub fn frontier_from_listing(listing: &Listing, now: i64) -> (r: Result<u64, ArchiveError>)
    ensures
        r == listing_frontier(listing.success, listing.entries@, now),
{
    if listing.success {
        estimate_frontier(&listing.entries, now)
    } else {
        Result::Err(ArchiveError::Protocol)
    }
}

/// Relies on std::time::SystemTime::now, read as whole seconds since the Unix
/// epoch; a clock set before the epoch reads as the epoch itself, so the read
/// cannot panic. Nothing is promised of the value: the clock is outside the
/// program.
#[verifier::external_body]
fn now_epoch_seconds() -> i64 {
    match std::time::SystemTime::now().duration_since(std::time::UNIX_EPOCH) {
        Ok(since_epoch) => since_epoch.as_secs() as i64,
        Err(_) => 0,
    }
}

/// Estimate the frontier against the current wall clock. The clock's reading
/// is outside the program, so the result is pinned only relative to some
/// instant `now`; `frontier_from_listing` states the rule for each given one.
pub fn frontier_now(listing: &Listing) -> (r: Result<u64, ArchiveError>)
    ensures
        exists|now: i64| r == listing_frontier(listing.success, listing.entries@, now),
{
    let now = now_epoch_seconds();
    frontier_from_listing(listing, now)
}

/// Law (frontier staleness): whatever the frontier returns comes from an entry
/// that is stale at `now`, and every entry listed before it is fresh, so a
/// record within the staleness margin is never selected while an earlier
/// qualifying record exists.
pub proof fn lemma_frontier_first_stale(entries: Seq<LogEntry>, now: i64)
    requires
        frontier_of(entries, now) is Some,
    ensures
        exists|i: int|
            {
                &&& 0 <= i < entries.len()
                &&& is_stale(entries[i], now)
                &&& forall|j: int| 0 <= j < i ==> !is_stale(entries[j], now)
                &&& frontier_of(entries, now) == Option::Some(entries[i].id)
            },
    decreases entries.len(),
{
    if is_stale(entries[0], now) {
        assert({
            &&& 0 <= 0 < entries.len()
            &&& is_stale(entries[0], now)
            &&& forall|j: int| 0 <= j < 0 ==> !is_stale(entries[j], now)
            &&& frontier_of(entries, now) == Option::Some(entries[0].id)
        });
    } else {
        lemma_frontier_first_stale(entries.drop_first(), now);
        let i0 = choose|i: int|
            {
                &&& 0 <= i < entries.drop_first().len()
                &&& is_stale(entries.drop_first()[i], now)
                &&& forall|j: int| 0 <= j < i ==> !is_stale(entries.drop_first()[j], now)
                &&& frontier_of(entries.drop_first(), now) == Option::Some(
                    entries.drop_first()[i].id,
                )
            };
        assert({
            &&& 0 <= i0 + 1 < entries.len()
            &&& is_stale(entries[i0 + 1], now)
            &&& forall|j: int| 0 <= j < i0 + 1 ==> !is_stale(entries[j], now)
            &&& frontier_of(entries, now) == Option::Some(entries[i0 + 1].id)
        }) by {
            assert(forall|j: int|
                0 <= j < i0 + 1 ==> !is_stale(entries[j], now)) by {
                assert forall|j: int| 0 <= j < i0 + 1 implies !is_stale(entries[j], now) by {
                    if j > 0 {
                        assert(entries.drop_first()[j - 1] == entries[j]);
                    }
                }
            }
            assert(entries.drop_first()[i0] == entries[i0 + 1]);
        }
    }
}

/// Law (no frontier): the estimator fails exactly when no listed entry is
/// stale at `now`.
pub proof fn lemma_frontier_none_iff_all_fresh(entries: Seq<LogEntry>, now: i64)
    ensures
        frontier_of(entries, now) is None <==> forall|i: int|
            0 <= i < entries.len() ==> !is_stale(entries[i], now),
    decreases entries.len(),
{
    if entries.len() > 0 && !is_stale(entries[0], now) {
        lemma_frontier_none_iff_all_fresh(entries.drop_first(), now);
        if frontier_of(entries, now) is None {
            assert forall|i: int| 0 <= i < entries.len() implies !is_stale(entries[i], now) by {
                if i > 0 {
                    assert(entries.drop_first()[i - 1] == entries[i]);
                }
            }
        } else {
            let i0 = choose|i: int|
                0 <= i < entries.drop_first().len() && is_stale(entries.drop_first()[i], now);
            assert(entries.drop_first()[i0] == entries[i0 + 1]);
            assert(is_stale(entries[i0 + 1], now));
        }
    }
}

} // verus!
