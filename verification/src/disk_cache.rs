//! Which files of the media disk cache to delete: those past their age limit first,
//! then the oldest until the cache fits its size limit. Files the running session
//! still uses are never deleted. Listing and deleting the files is left to the caller.

use vstd::prelude::*;

verus! {

/// How long a cached file is kept, in milliseconds (thirty days).
pub const DISK_CACHE_MAX_AGE_MS: u64 = 2_592_000_000;

/// How many bytes the disk cache may hold (256 MiB).
pub const DISK_CACHE_MAX_BYTES: u64 = 268_435_456;

/// A file of the disk cache: its size in bytes, when it was last modified (milliseconds
/// on the caller's clock), and whether the running session still uses it.
#[derive(Debug, Clone, Copy, PartialEq, Eq)]
pub struct CacheFile {
    pub size: u64,
    pub modified: u64,
    pub preserved: bool,
}

/// A file past its age limit that may go; one modified after `now` has no age yet.
pub open spec fn is_expired(f: CacheFile, now: u64, max_age: u64) -> bool {
    !f.preserved && f.modified <= now && now - f.modified > max_age
}

/// The size of all files, added with saturation.
pub open spec fn total_size(files: Seq<CacheFile>) -> u64
    decreases files.len(),
{
    if files.len() == 0 {
        0
    } else {
        total_size(files.drop_last()).saturating_add(files.last().size)
    }
}

/// The positions of the expired files, in order.
pub open spec fn expired_indices(files: Seq<CacheFile>, now: u64, max_age: u64) -> Seq<usize>
    decreases files.len(),
{
    if files.len() == 0 {
        Seq::empty()
    } else {
        let before = expired_indices(files.drop_last(), now, max_age);
        if is_expired(files.last(), now, max_age) {
            before.push((files.len() - 1) as usize)
        } else {
            before
        }
    }
}

/// The bytes left once the expired files are gone, subtracted with saturation.
pub open spec fn after_expiry(files: Seq<CacheFile>, now: u64, max_age: u64, total: u64) -> u64
    decreases files.len(),
{
    if files.len() == 0 {
        total
    } else {
        let before = after_expiry(files.drop_last(), now, max_age, total);
        if is_expired(files.last(), now, max_age) {
            before.saturating_sub(files.last().size)
        } else {
            before
        }
    }
}

/// The files that may go to bring the size down, as (modification time, position), in
/// order of position.
pub open spec fn size_candidates(files: Seq<CacheFile>, now: u64, max_age: u64) -> Seq<(u64, usize)>
    decreases files.len(),
{
    if files.len() == 0 {
        Seq::empty()
    } else {
        let before = size_candidates(files.drop_last(), now, max_age);
        let f = files.last();
        if !f.preserved && !is_expired(f, now, max_age) {
            before.push((f.modified, (files.len() - 1) as usize))
        } else {
            before
        }
    }
}

/// `c` put into `sorted` after every candidate modified no later.
pub open spec fn insert_by_time(sorted: Seq<(u64, usize)>, c: (u64, usize)) -> Seq<(u64, usize)>
    decreases sorted.len(),
{
    if sorted.len() == 0 || sorted.last().0 <= c.0 {
        sorted.push(c)
    } else {
        insert_by_time(sorted.drop_last(), c).push(sorted.last())
    }
}

/// The candidates oldest first; those modified at the same time keep their order.
pub open spec fn sort_by_time(cs: Seq<(u64, usize)>) -> Seq<(u64, usize)>
    decreases cs.len(),
{
    if cs.len() == 0 {
        Seq::empty()
    } else {
        insert_by_time(sort_by_time(cs.drop_last()), cs.last())
    }
}

/// How many of `order` go, oldest first, until at most `max` bytes are left of `remaining`.
pub open spec fn evict_count(files: Seq<CacheFile>, order: Seq<(u64, usize)>, remaining: u64, max: u64) -> nat
    decreases order.len(),
{
    if remaining <= max || order.len() == 0 {
        0
    } else {
        1 + evict_count(files, order.drop_first(), remaining.saturating_sub(files[order[0].1 as int].size), max)
    }
}

/// The positions of the files to delete, in the order to delete them: every expired
/// file, then the oldest other unpreserved files until the cache fits `max_bytes`.
pub open spec fn spec_cleanup_plan(files: Seq<CacheFile>, now: u64, max_age: u64, max_bytes: u64) -> Seq<usize> {
    let order = sort_by_time(size_candidates(files, now, max_age));
    let remaining = after_expiry(files, now, max_age, total_size(files));
    expired_indices(files, now, max_age) + order.take(evict_count(files, order, remaining, max_bytes) as int).map_values(
        |c: (u64, usize)| c.1,
    )
}

proof fn lemma_insert_bounded(sorted: Seq<(u64, usize)>, c: (u64, usize), bound: int)
    requires
        forall|j: int| 0 <= j < sorted.len() ==> (#[trigger] sorted[j]).1 < bound,
        c.1 < bound,
    ensures
        forall|j: int| 0 <= j < insert_by_time(sorted, c).len() ==> (#[trigger] insert_by_time(sorted, c)[j]).1 < bound,
        insert_by_time(sorted, c).len() == sorted.len() + 1,
    decreases sorted.len(),
{
    if sorted.len() > 0 && sorted.last().0 > c.0 {
        lemma_insert_bounded(sorted.drop_last(), c, bound);
        let r = insert_by_time(sorted.drop_last(), c).push(sorted.last());
        assert forall|j: int| 0 <= j < r.len() implies (#[trigger] r[j]).1 < bound by {
            if j < r.len() - 1 {
                assert(r[j] == insert_by_time(sorted.drop_last(), c)[j]);
            }
        }
    }
}

fn insert_candidate(sorted: &mut Vec<(u64, usize)>, c: (u64, usize))
    ensures
        final(sorted)@ == insert_by_time(old(sorted)@, c),
    decreases old(sorted)@.len(),
{
    let n = sorted.len();
    if n == 0 || sorted[n - 1].0 <= c.0 {
        sorted.push(c);
    } else {
        let ghost before = sorted@;
        let last = sorted.pop().unwrap();
        assert(sorted@ =~= before.drop_last());
        insert_candidate(sorted, c);
        sorted.push(last);
    }
}

/// What to delete from the disk cache whose files are `files`.
pub fn cleanup_plan(files: &Vec<CacheFile>, now: u64, max_age: u64, max_bytes: u64) -> (r: Vec<usize>)
    ensures
        r@ == spec_cleanup_plan(files@, now, max_age, max_bytes),
{
    let ghost all = files@;
    let mut total: u64 = 0;
    let mut i: usize = 0;
    while i < files.len()
        invariant
            all == files@,
            i <= all.len(),
            total == total_size(all.take(i as int)),
        decreases all.len() - i,
    {
        assert(all.take(i + 1).drop_last() =~= all.take(i as int));
        total = total.saturating_add(files[i].size);
        i += 1;
    }
    assert(all.take(all.len() as int) =~= all);

    let mut plan: Vec<usize> = Vec::new();
    let mut remaining: u64 = total;
    let mut sorted: Vec<(u64, usize)> = Vec::new();
    let mut i: usize = 0;
    while i < files.len()
        invariant
            all == files@,
            i <= all.len(),
            total == total_size(all),
            plan@ == expired_indices(all.take(i as int), now, max_age),
            remaining == after_expiry(all.take(i as int), now, max_age, total),
            sorted@ == sort_by_time(size_candidates(all.take(i as int), now, max_age)),
            forall|j: int| 0 <= j < sorted@.len() ==> (#[trigger] sorted@[j]).1 < i,
        decreases all.len() - i,
    {
        let ghost prefix = all.take(i + 1);
        assert(prefix.drop_last() =~= all.take(i as int));
        assert(prefix.last() == all[i as int]);
        let f = files[i];
        let expired = !f.preserved && f.modified <= now && now - f.modified > max_age;
        if expired {
            plan.push(i);
            remaining = remaining.saturating_sub(f.size);
        } else if !f.preserved {
            let ghost cs = size_candidates(all.take(i as int), now, max_age);
            assert(size_candidates(prefix, now, max_age) == cs.push((f.modified, i)));
            assert(cs.push((f.modified, i)).drop_last() =~= cs);
            proof {
                lemma_insert_bounded(sorted@, (f.modified, i), i + 1);
            }
            insert_candidate(&mut sorted, (f.modified, i));
        }
        i += 1;
    }
    assert(all.take(all.len() as int) =~= all);

    let ghost order = sorted@;
    let ghost start = remaining;
    let ghost expired = plan@;
    let mut k: usize = 0;
    assert(order.skip(0) =~= order);
    while k < sorted.len() && remaining > max_bytes
        invariant
            all == files@,
            order == sorted@,
            forall|j: int| 0 <= j < order.len() ==> order[j].1 < all.len(),
            k <= order.len(),
            evict_count(all, order, start, max_bytes) == k + evict_count(all, order.skip(k as int), remaining, max_bytes),
            plan@ == expired + order.take(k as int).map_values(|c: (u64, usize)| c.1),
        decreases order.len() - k,
    {
        let idx = sorted[k].1;
        assert(order.skip(k as int).drop_first() =~= order.skip(k + 1));
        remaining = remaining.saturating_sub(files[idx].size);
        plan.push(idx);
        assert(order.take(k + 1).map_values(|c: (u64, usize)| c.1) =~= order.take(k as int).map_values(
            |c: (u64, usize)| c.1,
        ).push(idx));
        k += 1;
    }
    assert(evict_count(all, order.skip(k as int), remaining, max_bytes) == 0);
    plan
}


/// The candidates in `cs` name unpreserved files of `files`.
pub open spec fn unpreserved(files: Seq<CacheFile>, cs: Seq<(u64, usize)>) -> bool {
    forall|j: int| 0 <= j < cs.len() ==> (#[trigger] cs[j]).1 < files.len() && !files[cs[j].1 as int].preserved
}

proof fn lemma_insert_unpreserved(files: Seq<CacheFile>, sorted: Seq<(u64, usize)>, c: (u64, usize))
    requires
        unpreserved(files, sorted),
        unpreserved(files, seq![c]),
    ensures
        unpreserved(files, insert_by_time(sorted, c)),
    decreases sorted.len(),
{
    assert(seq![c][0] == c);
    if sorted.len() > 0 && sorted.last().0 > c.0 {
        let rest = sorted.drop_last();
        assert(unpreserved(files, rest)) by {
            assert forall|j: int| 0 <= j < rest.len() implies (#[trigger] rest[j]).1 < files.len() && !files[rest[j].1 as int].preserved by {
                assert(rest[j] == sorted[j]);
            }
        }
        lemma_insert_unpreserved(files, rest, c);
        let r = insert_by_time(rest, c).push(sorted.last());
        assert forall|j: int| 0 <= j < r.len() implies (#[trigger] r[j]).1 < files.len() && !files[r[j].1 as int].preserved by {
            if j < r.len() - 1 {
                assert(r[j] == insert_by_time(rest, c)[j]);
            } else {
                assert(r[j] == sorted[sorted.len() - 1]);
            }
        }
    } else {
        let r = sorted.push(c);
        assert forall|j: int| 0 <= j < r.len() implies (#[trigger] r[j]).1 < files.len() && !files[r[j].1 as int].preserved by {
            if j < sorted.len() {
                assert(r[j] == sorted[j]);
            }
        }
    }
}

proof fn lemma_candidates_unpreserved(files: Seq<CacheFile>, prefix: nat, now: u64, max_age: u64)
    requires
        prefix <= files.len(),
        files.len() <= usize::MAX,
    ensures
        unpreserved(files, sort_by_time(size_candidates(files.take(prefix as int), now, max_age))),
        unpreserved(files, size_candidates(files.take(prefix as int), now, max_age)),
    decreases prefix,
{
    let p = files.take(prefix as int);
    if prefix > 0 {
        assert(p.drop_last() =~= files.take(prefix - 1));
        lemma_candidates_unpreserved(files, (prefix - 1) as nat, now, max_age);
        let cs = size_candidates(p.drop_last(), now, max_age);
        let f = p.last();
        assert(f == files[prefix - 1]);
        if !f.preserved && !is_expired(f, now, max_age) {
            let c = (f.modified, (prefix - 1) as usize);
            assert(c.1 as int == prefix - 1);
            assert(size_candidates(p, now, max_age) == cs.push(c));
            assert(seq![c][0] == c);
            assert(cs.push(c).drop_last() =~= cs);
            assert(unpreserved(files, cs.push(c))) by {
                assert forall|j: int| 0 <= j < cs.push(c).len() implies (#[trigger] cs.push(c)[j]).1 < files.len()
                    && !files[cs.push(c)[j].1 as int].preserved by {
                    if j < cs.len() {
                        assert(cs.push(c)[j] == cs[j]);
                    }
                }
            }
            lemma_insert_unpreserved(files, sort_by_time(cs), c);
        }
    }
}

proof fn lemma_expired_members(files: Seq<CacheFile>, now: u64, max_age: u64)
    requires
        files.len() <= usize::MAX,
    ensures
        forall|k: int| 0 <= k < expired_indices(files, now, max_age).len() ==> {
            let i = #[trigger] expired_indices(files, now, max_age)[k];
            i < files.len() && is_expired(files[i as int], now, max_age)
        },
        forall|i: int| 0 <= i < files.len() && is_expired(#[trigger] files[i], now, max_age) ==> expired_indices(
            files,
            now,
            max_age,
        ).contains(i as usize),
    decreases files.len(),
{
    if files.len() > 0 {
        let rest = files.drop_last();
        lemma_expired_members(rest, now, max_age);
        let e = expired_indices(rest, now, max_age);
        let last = (files.len() - 1) as usize;
        assert(last as int == files.len() - 1);
        let all = expired_indices(files, now, max_age);
        assert forall|k: int| 0 <= k < all.len() implies {
            let i = #[trigger] all[k];
            i < files.len() && is_expired(files[i as int], now, max_age)
        } by {
            if k < e.len() {
                assert(all[k] == e[k]);
                assert(files[e[k] as int] == rest[e[k] as int]);
            } else {
                assert(all[k] == last);
            }
        }
        assert forall|i: int| 0 <= i < files.len() && is_expired(#[trigger] files[i], now, max_age) implies expired_indices(
            files,
            now,
            max_age,
        ).contains(i as usize) by {
            if i < files.len() - 1 {
                assert(rest[i] == files[i]);
                let k = choose|k: int| 0 <= k < e.len() && e[k] == i as usize;
                if is_expired(files.last(), now, max_age) {
                    assert(e.push(last)[k] == i as usize);
                }
            } else {
                assert(e.push(last)[e.len() as int] == i as usize);
            }
        }
    }
}

/// Cleaning up never deletes a file the running session still uses.
pub proof fn law_cleanup_keeps_preserved(files: Seq<CacheFile>, now: u64, max_age: u64, max_bytes: u64)
    requires
        files.len() <= usize::MAX,
    ensures
        forall|k: int| 0 <= k < spec_cleanup_plan(files, now, max_age, max_bytes).len() ==> {
            let i = #[trigger] spec_cleanup_plan(files, now, max_age, max_bytes)[k];
            i < files.len() && !files[i as int].preserved
        },
{
    lemma_expired_members(files, now, max_age);
    assert(files.take(files.len() as int) =~= files);
    lemma_candidates_unpreserved(files, files.len(), now, max_age);
    let order = sort_by_time(size_candidates(files, now, max_age));
    let remaining = after_expiry(files, now, max_age, total_size(files));
    let e = expired_indices(files, now, max_age);
    let n = evict_count(files, order, remaining, max_bytes);
    lemma_evict_count_bounded(files, order, remaining, max_bytes);
    let tail = order.take(n as int).map_values(|c: (u64, usize)| c.1);
    let plan = spec_cleanup_plan(files, now, max_age, max_bytes);
    assert forall|k: int| 0 <= k < plan.len() implies (#[trigger] plan[k]) < files.len() && !files[plan[k] as int].preserved by {
        if k < e.len() {
            assert(plan[k] == e[k]);
        } else {
            assert(plan[k] == tail[k - e.len()]);
            assert(tail[k - e.len()] == order[k - e.len()].1);
        }
    }
}

proof fn lemma_evict_count_bounded(files: Seq<CacheFile>, order: Seq<(u64, usize)>, remaining: u64, max: u64)
    ensures
        evict_count(files, order, remaining, max) <= order.len(),
    decreases order.len(),
{
    if !(remaining <= max || order.len() == 0) {
        lemma_evict_count_bounded(files, order.drop_first(), remaining.saturating_sub(files[order[0].1 as int].size), max);
    }
}

/// Cleaning up deletes every unpreserved file past its age limit.
pub proof fn law_cleanup_removes_expired(files: Seq<CacheFile>, now: u64, max_age: u64, max_bytes: u64, i: int)
    requires
        files.len() <= usize::MAX,
        0 <= i < files.len(),
        is_expired(files[i], now, max_age),
    ensures
        spec_cleanup_plan(files, now, max_age, max_bytes).contains(i as usize),
{
    lemma_expired_members(files, now, max_age);
    let e = expired_indices(files, now, max_age);
    let k = choose|k: int| 0 <= k < e.len() && e[k] == i as usize;
    assert(spec_cleanup_plan(files, now, max_age, max_bytes)[k] == e[k]);
}

/// The bytes left of `remaining` once the first `evict_count` files of `order` are gone.
pub open spec fn bytes_left(files: Seq<CacheFile>, order: Seq<(u64, usize)>, remaining: u64, max: u64) -> u64
    decreases order.len(),
{
    if remaining <= max || order.len() == 0 {
        remaining
    } else {
        bytes_left(files, order.drop_first(), remaining.saturating_sub(files[order[0].1 as int].size), max)
    }
}

/// Cleaning up stops as soon as the cache fits its size limit, and stops short of that
/// only when every unpreserved file has gone.
pub proof fn law_cleanup_fits_or_empties(files: Seq<CacheFile>, order: Seq<(u64, usize)>, remaining: u64, max: u64)
    ensures
        bytes_left(files, order, remaining, max) <= max || evict_count(files, order, remaining, max) == order.len(),
        evict_count(files, order, remaining, max) > 0 ==> remaining > max,
    decreases order.len(),
{
    if !(remaining <= max || order.len() == 0) {
        law_cleanup_fits_or_empties(files, order.drop_first(), remaining.saturating_sub(files[order[0].1 as int].size), max);
    }
}

} // verus!
