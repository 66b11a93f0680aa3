//! Duplicate suppression over a sliding time window.
//!
//! A time wheel of hash buckets: each bucket covers one rotation interval
//! (100 ms); a payload counts as a duplicate while its hash sits in any
//! bucket. Rotating advances to the oldest bucket and empties it, so an
//! entry is forgotten after as many rotations as there are buckets.

use std::collections::HashSet;
use std::hash::{Hash, Hasher};
use std::time::Duration;
use vstd::prelude::*;

verus! {

/// Total length of a `Duration` in nanoseconds.
pub uninterp spec fn duration_nanos(d: Duration) -> nat;

/// `Duration::is_zero`: whether the duration is zero.
#[verifier::external_body]
pub(crate) fn duration_is_zero(d: &Duration) -> (r: bool)
    ensures
        r == (duration_nanos(*d) == 0),
{
    d.is_zero()
}

/// `Duration::as_millis`: whole milliseconds of the duration.
#[verifier::external_body]
pub(crate) fn duration_as_millis(d: &Duration) -> (r: u128)
    ensures
        r == duration_nanos(*d) / 1_000_000,
{
    d.as_millis()
}

/// `Duration::as_nanos`: the duration in nanoseconds, at most that of
/// `Duration::MAX` (`u64::MAX` seconds and 999 999 999 nanoseconds).
#[verifier::external_body]
pub(crate) fn duration_as_nanos(d: &Duration) -> (r: u128)
    ensures
        r == duration_nanos(*d),
        r <= 18_446_744_073_709_551_615_999_999_999u128,
{
    d.as_nanos()
}

/// `Duration::from_millis`: a duration of `ms` milliseconds.
#[verifier::external_body]
pub(crate) fn duration_from_millis(ms: u64) -> (d: Duration)
    ensures
        duration_nanos(d) == ms * 1_000_000,
{
    Duration::from_millis(ms)
}

/// The hash of a payload under `ahash`'s `AHasher::default()`, fed the byte
/// slice through `Hash for [u8]`.
///
/// Not stated: which value comes back. The default hasher's keys are drawn
/// at random once per process, so the hash of a payload is the same for
/// every call within one process but differs between processes.
#[verifier::external_body]
fn ahash_hash(payload: &[u8]) -> u64 {
    let mut hasher = ahash::AHasher::default();
    payload.hash(&mut hasher);
    hasher.finish()
}

/// `HashSet::with_hasher(ahash::RandomState::new())`: an empty bucket.
#[verifier::external_body]
fn new_bucket() -> (b: HashSet<u64, ahash::RandomState>)
    ensures
        b@ == Set::<u64>::empty(),
{
    HashSet::with_hasher(ahash::RandomState::new())
}

/// `HashSet::contains` on a bucket hashed by `ahash::RandomState`.
#[verifier::external_body]
fn bucket_contains(b: &HashSet<u64, ahash::RandomState>, hash: u64) -> (r: bool)
    ensures
        r == b@.contains(hash),
{
    b.contains(&hash)
}

/// `HashSet::insert` on a bucket hashed by `ahash::RandomState`.
#[verifier::external_body]
fn bucket_insert(b: &mut HashSet<u64, ahash::RandomState>, hash: u64)
    ensures
        final(b)@ == old(b)@.insert(hash),
{
    b.insert(hash);
}

/// The interval one bucket covers, in milliseconds.
pub const BUCKET_INTERVAL_MS: u64 = 100;

/// Number of buckets for a period of `ms` milliseconds: the period divided
/// by the bucket interval (as `usize`), but at least two.
pub open spec fn bucket_count_for(ms: int) -> usize {
    let n = (ms / 100) as usize;
    if n < 2 {
        2
    } else {
        n
    }
}

/// The state of a de-duplication window as plain sets of hashes.
pub struct DedupView {
    /// Whether de-duplication is on (a non-zero period).
    pub enabled: bool,
    /// The hashes held by each bucket.
    pub buckets: Seq<Set<u64>>,
    /// Index of the bucket that receives new hashes.
    pub current: int,
}

impl DedupView {
    /// Shape of a window: disabled with no buckets, or at least two
    /// buckets with the current one among them.
    pub open spec fn wf(self) -> bool {
        if self.enabled {
            self.buckets.len() >= 2 && 0 <= self.current < self.buckets.len()
        } else {
            self.buckets.len() == 0 && self.current == 0
        }
    }

    /// Whether some bucket holds `hash` (never, when disabled).
    pub open spec fn holds(self, hash: u64) -> bool {
        self.enabled && exists|i: int| 0 <= i < self.buckets.len() && #[trigger] self.buckets[i].contains(hash)
    }

    /// The window after recording `hash` in the current bucket (unchanged
    /// when disabled).
    pub open spec fn record(self, hash: u64) -> DedupView {
        if self.enabled {
            DedupView {
                buckets: self.buckets.update(self.current, self.buckets[self.current].insert(hash)),
                ..self
            }
        } else {
            self
        }
    }

    /// The window after a combined check and insert: a hash already held
    /// leaves it unchanged, a new one is recorded.
    pub open spec fn check_and_record(self, hash: u64) -> DedupView {
        if self.holds(hash) {
            self
        } else {
            self.record(hash)
        }
    }

    /// The window after one rotation: the next bucket (cyclically) becomes
    /// current and is emptied (unchanged when disabled).
    pub open spec fn rotate(self) -> DedupView {
        if self.enabled {
            let next = (self.current + 1) % (self.buckets.len() as int);
            DedupView {
                buckets: self.buckets.update(next, Set::<u64>::empty()),
                current: next,
                ..self
            }
        } else {
            self
        }
    }

    /// The window after `k` rotations.
    pub open spec fn rotate_times(self, k: nat) -> DedupView
        decreases k,
    {
        if k == 0 {
            self
        } else {
            self.rotate_times((k - 1) as nat).rotate()
        }
    }
}

/// A hash that has just been checked and recorded is a duplicate on the
/// next check, whenever de-duplication is on.
pub proof fn lemma_recorded_hash_is_duplicate(v: DedupView, hash: u64)
    requires
        v.wf(),
        v.enabled,
    ensures
        v.record(hash).holds(hash),
        v.check_and_record(hash).holds(hash),
        v.check_and_record(hash).wf(),
{
    let w = v.record(hash);
    assert(w.buckets[v.current].contains(hash));
}

/// With de-duplication off nothing is ever a duplicate, and checking
/// changes nothing.
pub proof fn lemma_disabled_never_duplicate(v: DedupView, hash: u64)
    requires
        v.wf(),
        !v.enabled,
    ensures
        !v.holds(hash),
        v.check_and_record(hash) == v,
        v.rotate() == v,
{
}

/// Where `hash` sits after `k` rotations of a window that held it only in
/// the current bucket: still there, and only there, until a full turn of
/// the wheel.
proof fn lemma_rotation_positions(v: DedupView, hash: u64, k: nat)
    requires
        v.wf(),
        v.enabled,
        v.buckets[v.current].contains(hash),
        forall|i: int| 0 <= i < v.buckets.len() && i != v.current ==> !(#[trigger] v.buckets[i]).contains(hash),
        k <= v.buckets.len(),
    ensures
        v.rotate_times(k).wf(),
        v.rotate_times(k).enabled,
        v.rotate_times(k).buckets.len() == v.buckets.len(),
        v.rotate_times(k).current == (v.current + k) % (v.buckets.len() as int),
        forall|i: int|
            0 <= i < v.buckets.len() ==> (#[trigger] v.rotate_times(k).buckets[i]).contains(hash) == (i
                == v.current && k < v.buckets.len()),
    decreases k,
{
    let n = v.buckets.len() as int;
    if k == 0 {
        assert(v.current % n == v.current) by {
            vstd::arithmetic::div_mod::lemma_small_mod(v.current as nat, n as nat);
        }
    } else {
        lemma_rotation_positions(v, hash, (k - 1) as nat);
        let p = v.rotate_times((k - 1) as nat);
        assert(p.current == (v.current + k - 1) % n);
        let next = (p.current + 1) % n;
        assert(next == (v.current + k) % n) by {
            vstd::arithmetic::div_mod::lemma_add_mod_noop(v.current + k - 1, 1, n);
            vstd::arithmetic::div_mod::lemma_small_mod(1, n as nat);
        }
        assert(next == v.current <==> k == n) by {
            if v.current + k < n {
                vstd::arithmetic::div_mod::lemma_small_mod((v.current + k) as nat, n as nat);
            } else {
                vstd::arithmetic::div_mod::lemma_fundamental_div_mod_converse(
                    v.current + k,
                    n,
                    1,
                    v.current + k - n,
                );
            }
        }
        assert(0 <= next < n) by {
            vstd::arithmetic::div_mod::lemma_mod_bound(p.current + 1, n);
        }
    }
}

/// A rotation keeps the window's shape.
proof fn lemma_rotate_wf(w: DedupView)
    requires
        w.wf(),
    ensures
        w.rotate().wf(),
        w.rotate().enabled == w.enabled,
        w.rotate().buckets.len() == w.buckets.len(),
{
    if w.enabled {
        vstd::arithmetic::div_mod::lemma_mod_bound(w.current + 1, w.buckets.len() as int);
    }
}

/// A hash held by no bucket stays absent through any number of rotations.
proof fn lemma_absent_stays_absent(w: DedupView, hash: u64, k: nat)
    requires
        w.wf(),
        !w.holds(hash),
    ensures
        w.rotate_times(k).wf(),
        w.rotate_times(k).enabled == w.enabled,
        !w.rotate_times(k).holds(hash),
    decreases k,
{
    if k > 0 {
        lemma_absent_stays_absent(w, hash, (k - 1) as nat);
        let p = w.rotate_times((k - 1) as nat);
        lemma_rotate_wf(p);
        if p.rotate().holds(hash) {
            let i = choose|i: int| 0 <= i < p.rotate().buckets.len() && #[trigger] p.rotate().buckets[i].contains(hash);
            assert(p.buckets[i].contains(hash));
        }
    }
}

/// A hash recorded only in the current bucket stays a duplicate through
/// the next `n - 1` rotations of an `n`-bucket wheel and is forgotten at
/// the `n`-th: the window is exactly one turn of the wheel.
pub proof fn lemma_entry_expires_after_full_turn(v: DedupView, hash: u64)
    requires
        v.wf(),
        v.enabled,
        v.buckets[v.current].contains(hash),
        forall|i: int| 0 <= i < v.buckets.len() && i != v.current ==> !(#[trigger] v.buckets[i]).contains(hash),
    ensures
        forall|k: nat| k < v.buckets.len() ==> #[trigger] v.rotate_times(k).holds(hash),
        !v.rotate_times(v.buckets.len()).holds(hash),
        forall|k: nat| k >= v.buckets.len() ==> !#[trigger] v.rotate_times(k).holds(hash),
{
    assert forall|k: nat| k < v.buckets.len() implies #[trigger] v.rotate_times(k).holds(hash) by {
        lemma_rotation_positions(v, hash, k);
        assert(v.rotate_times(k).buckets[v.current].contains(hash));
    }
    lemma_rotation_positions(v, hash, v.buckets.len());
    let n = v.buckets.len();
    let w = v.rotate_times(n);
    assert forall|k: nat| k >= n implies !#[trigger] v.rotate_times(k).holds(hash) by {
        lemma_absent_stays_absent(w, hash, (k - n) as nat);
        lemma_rotate_times_add(v, n, (k - n) as nat);
    }
}

/// Rotating `a` times and then `b` times is rotating `a + b` times.
proof fn lemma_rotate_times_add(v: DedupView, a: nat, b: nat)
    ensures
        v.rotate_times(a).rotate_times(b) == v.rotate_times(a + b),
    decreases b,
{
    if b > 0 {
        lemma_rotate_times_add(v, a, (b - 1) as nat);
        assert(v.rotate_times((a + b) as nat) == v.rotate_times((a + b - 1) as nat).rotate());
    }
}

/// One operation on a de-duplication window, as the methods of [`Dedup`]
/// apply it at the level of hashes.
pub enum WindowOp {
    /// [`Dedup::rotate_bucket`].
    Rotate,
    /// [`Dedup::insert_hash`] of the hash.
    Insert(u64),
    /// [`Dedup::check_and_insert_with_hash`] of the hash.
    CheckAndInsert(u64),
}

impl WindowOp {
    /// Whether the operation records `hash`.
    pub open spec fn records(self, hash: u64) -> bool {
        match self {
            WindowOp::Rotate => false,
            WindowOp::Insert(h) => h == hash,
            WindowOp::CheckAndInsert(h) => h == hash,
        }
    }
}

impl DedupView {
    /// The window after one operation.
    pub open spec fn apply(self, op: WindowOp) -> DedupView {
        match op {
            WindowOp::Rotate => self.rotate(),
            WindowOp::Insert(h) => self.record(h),
            WindowOp::CheckAndInsert(h) => self.check_and_record(h),
        }
    }

    /// The window after the operations, in order.
    pub open spec fn apply_all(self, ops: Seq<WindowOp>) -> DedupView
        decreases ops.len(),
    {
        if ops.len() == 0 {
            self
        } else {
            self.apply_all(ops.drop_last()).apply(ops.last())
        }
    }
}

/// How many of the operations are rotations.
pub open spec fn rotations(ops: Seq<WindowOp>) -> nat
    decreases ops.len(),
{
    if ops.len() == 0 {
        0
    } else {
        rotations(ops.drop_last()) + if ops.last() is Rotate {
            1nat
        } else {
            0nat
        }
    }
}

/// Where `hash` sits after operations that never record it, starting from
/// a window that held it only in the current bucket.
proof fn lemma_positions_among_other_ops(v: DedupView, hash: u64, ops: Seq<WindowOp>)
    requires
        v.wf(),
        v.enabled,
        v.buckets[v.current].contains(hash),
        forall|i: int| 0 <= i < v.buckets.len() && i != v.current ==> !(#[trigger] v.buckets[i]).contains(hash),
        forall|j: int| 0 <= j < ops.len() ==> !(#[trigger] ops[j]).records(hash),
    ensures
        v.apply_all(ops).wf(),
        v.apply_all(ops).enabled,
        v.apply_all(ops).buckets.len() == v.buckets.len(),
        v.apply_all(ops).current == (v.current + rotations(ops)) % (v.buckets.len() as int),
        rotations(ops) < v.buckets.len() ==> forall|i: int|
            0 <= i < v.buckets.len() ==> ((#[trigger] v.apply_all(ops).buckets[i]).contains(hash) <==> i
                == v.current),
        rotations(ops) >= v.buckets.len() ==> !v.apply_all(ops).holds(hash),
    decreases ops.len(),
{
    let n = v.buckets.len() as int;
    if ops.len() == 0 {
        vstd::arithmetic::div_mod::lemma_small_mod(v.current as nat, n as nat);
    } else {
        let prev = ops.drop_last();
        assert forall|j: int| 0 <= j < prev.len() implies !(#[trigger] prev[j]).records(hash) by {
            assert(prev[j] == ops[j]);
        }
        lemma_positions_among_other_ops(v, hash, prev);
        let p = v.apply_all(prev);
        let r = rotations(prev);
        let op = ops.last();
        assert(!ops[ops.len() - 1].records(hash));
        assert(v.apply_all(ops) == p.apply(op));
        match op {
            WindowOp::Rotate => {
                lemma_rotate_wf(p);
                let next = (p.current + 1) % n;
                assert(next == (v.current + r + 1) % n) by {
                    vstd::arithmetic::div_mod::lemma_add_mod_noop(v.current + r, 1, n);
                    vstd::arithmetic::div_mod::lemma_small_mod(1, n as nat);
                }
                if r + 1 < n {
                    assert(next != v.current) by {
                        if v.current + r + 1 < n {
                            vstd::arithmetic::div_mod::lemma_small_mod((v.current + r + 1) as nat, n as nat);
                        } else {
                            vstd::arithmetic::div_mod::lemma_fundamental_div_mod_converse(
                                v.current + r + 1,
                                n,
                                1,
                                v.current + r + 1 - n,
                            );
                        }
                    }
                } else if r + 1 == n {
                    assert(next == v.current) by {
                        vstd::arithmetic::div_mod::lemma_fundamental_div_mod_converse(
                            v.current + r + 1,
                            n,
                            1,
                            v.current,
                        );
                    }
                    let w = p.rotate();
                    if w.holds(hash) {
                        let i = choose|i: int| 0 <= i < w.buckets.len() && #[trigger] w.buckets[i].contains(hash);
                        assert(p.buckets[i].contains(hash));
                    }
                } else {
                    let w = p.rotate();
                    if w.holds(hash) {
                        let i = choose|i: int| 0 <= i < w.buckets.len() && #[trigger] w.buckets[i].contains(hash);
                        assert(p.buckets[i].contains(hash));
                    }
                }
            },
            WindowOp::Insert(h) => {
                let w = p.record(h);
                if r >= n && w.holds(hash) {
                    let i = choose|i: int| 0 <= i < w.buckets.len() && #[trigger] w.buckets[i].contains(hash);
                    assert(p.buckets[i].contains(hash));
                }
            },
            WindowOp::CheckAndInsert(h) => {
                let w = p.record(h);
                if r >= n && w.holds(hash) {
                    let i = choose|i: int| 0 <= i < w.buckets.len() && #[trigger] w.buckets[i].contains(hash);
                    assert(p.buckets[i].contains(hash));
                }
            },
        }
    }
}

/// The window is one turn of the wheel whatever else happens meanwhile: a
/// hash recorded only in the current bucket stays a duplicate while fewer
/// rotations than there are buckets have passed, and is forgotten from the
/// rotation that completes the turn on, however other hashes are inserted
/// or checked between the rotations.
pub proof fn lemma_entry_expires_among_other_inserts(v: DedupView, hash: u64, ops: Seq<WindowOp>)
    requires
        v.wf(),
        v.enabled,
        v.buckets[v.current].contains(hash),
        forall|i: int| 0 <= i < v.buckets.len() && i != v.current ==> !(#[trigger] v.buckets[i]).contains(hash),
        forall|j: int| 0 <= j < ops.len() ==> !(#[trigger] ops[j]).records(hash),
    ensures
        v.apply_all(ops).holds(hash) == (rotations(ops) < v.buckets.len()),
{
    lemma_positions_among_other_ops(v, hash, ops);
    if rotations(ops) < v.buckets.len() {
        assert(v.apply_all(ops).buckets[v.current].contains(hash));
    }
}

/// Duplicate detection over a time wheel of hash buckets.
pub struct Dedup {
    dedup_period: Duration,
    buckets: Vec<HashSet<u64, ahash::RandomState>>,
    current_bucket: usize,
    bucket_interval: Duration,
    num_buckets: usize,
}

impl Dedup {
    /// The window as plain sets.
    pub closed spec fn view(&self) -> DedupView {
        DedupView {
            enabled: duration_nanos(self.dedup_period) != 0,
            buckets: Seq::new(self.buckets@.len(), |i: int| self.buckets@[i]@),
            current: self.current_bucket as int,
        }
    }

    /// Internal consistency: the bucket count field matches the buckets,
    /// and the rotation interval is 100 ms exactly when enabled.
    pub closed spec fn wf(&self) -> bool {
        &&& self.view().wf()
        &&& self.num_buckets == self.buckets@.len()
        &&& duration_nanos(self.bucket_interval) == if self.view().enabled {
            100_000_000nat
        } else {
            0nat
        }
    }

    /// The configured de-duplication period.
    pub closed spec fn period(&self) -> Duration {
        self.dedup_period
    }

    /// Creates a window for `dedup_period`. A zero period disables
    /// de-duplication; otherwise the period is split into 100 ms buckets,
    /// at least two.
    pub fn new(dedup_period: Duration) -> (d: Self)
        ensures
            d.wf(),
            d.view().wf(),
            d.period() == dedup_period,
            !d.view().enabled ==> d.view().buckets.len() == 0,
            d.view().enabled == (duration_nanos(dedup_period) != 0),
            d.view().enabled ==> d.view().buckets.len() == bucket_count_for(
                (duration_nanos(dedup_period) / 1_000_000) as int,
            ),
            forall|i: int| 0 <= i < d.view().buckets.len() ==> #[trigger] d.view().buckets[i] == Set::<u64>::empty(),
            d.view().current == 0,
    {
        if duration_is_zero(&dedup_period) {
            let d = Dedup {
                dedup_period,
                buckets: Vec::new(),
                current_bucket: 0,
                bucket_interval: duration_from_millis(0),
                num_buckets: 0,
            };
            assert(d.view().buckets =~= Seq::<Set<u64>>::empty());
            return d;
        }
        let ms = duration_as_millis(&dedup_period);
        #[verifier::truncate]
        let mut num_buckets: usize = (ms / 100) as usize;
        if num_buckets < 2 {
            num_buckets = 2;
        }
        let mut buckets: Vec<HashSet<u64, ahash::RandomState>> = Vec::with_capacity(num_buckets);
        let mut i: usize = 0;
        while i < num_buckets
            invariant
                i <= num_buckets,
                buckets@.len() == i,
                forall|j: int| 0 <= j < i ==> #[trigger] buckets@[j]@ == Set::<u64>::empty(),
            decreases num_buckets - i,
        {
            buckets.push(new_bucket());
            i = i + 1;
        }
        Dedup {
            dedup_period,
            buckets,
            current_bucket: 0,
            bucket_interval: duration_from_millis(BUCKET_INTERVAL_MS),
            num_buckets,
        }
    }

    /// The interval at which `rotate_bucket` should be called: 100 ms, or
    /// zero when de-duplication is disabled.
    pub fn rotation_interval(&self) -> (r: Duration)
        requires
            self.wf(),
        ensures
            duration_nanos(r) == if self.view().enabled {
                100_000_000nat
            } else {
                0nat
            },
    {
        self.bucket_interval
    }

    /// Number of buckets in the wheel (zero when disabled).
    pub fn bucket_count(&self) -> (n: usize)
        requires
            self.wf(),
        ensures
            n == self.view().buckets.len(),
    {
        self.num_buckets
    }

    /// Whether some bucket holds `hash`.
    fn any_bucket_holds(&self, hash: u64) -> (r: bool)
        requires
            self.wf(),
        ensures
            r == (exists|i: int| 0 <= i < self.view().buckets.len() && #[trigger] self.view().buckets[i].contains(hash)),
    {
        let mut i: usize = 0;
        while i < self.buckets.len()
            invariant
                self.wf(),
                i <= self.buckets@.len(),
                forall|j: int| 0 <= j < i ==> !(#[trigger] self.view().buckets[j]).contains(hash),
            decreases self.buckets@.len() - i,
        {
            if bucket_contains(&self.buckets[i], hash) {
                assert(self.view().buckets[i as int].contains(hash));
                return true;
            }
            i = i + 1;
        }
        false
    }

    /// Whether `hash` was recorded within the window (always `false` when
    /// disabled).
    pub fn is_duplicate_hash(&self, hash: u64) -> (r: bool)
        requires
            self.wf(),
        ensures
            r == self.view().holds(hash),
    {
        if duration_is_zero(&self.dedup_period) {
            return false;
        }
        self.any_bucket_holds(hash)
    }

    /// Records `hash` in the current bucket (nothing when disabled).
    pub fn insert_hash(&mut self, hash: u64)
        requires
            old(self).wf(),
        ensures
            final(self).wf(),
            final(self).view().wf(),
            final(self).period() == old(self).period(),
            final(self).view() == old(self).view().record(hash),
    {
        if duration_is_zero(&self.dedup_period) {
            return;
        }
        let cur = self.current_bucket;
        bucket_insert(&mut self.buckets[cur], hash);
        assert(self.view().buckets =~= old(self).view().record(hash).buckets);
    }

    /// Checks `hash` and records it when new. Returns `true` for a
    /// duplicate (nothing recorded), `false` for a new hash (recorded);
    /// always `false`, recording nothing, when disabled.
    pub fn check_and_insert_with_hash(&mut self, hash: u64) -> (r: bool)
        requires
            old(self).wf(),
        ensures
            final(self).wf(),
            final(self).view().wf(),
            final(self).period() == old(self).period(),
            r == old(self).view().holds(hash),
            final(self).view() == old(self).view().check_and_record(hash),
    {
        if duration_is_zero(&self.dedup_period) {
            return false;
        }
        if self.any_bucket_holds(hash) {
            return true;
        }
        let cur = self.current_bucket;
        bucket_insert(&mut self.buckets[cur], hash);
        assert(self.view().buckets =~= old(self).view().record(hash).buckets);
        false
    }

    /// Whether the payload was seen within the window. The payload is
    /// reduced to its `ahash` hash; see [`Dedup::is_duplicate_hash`] for
    /// the decision on that hash.
    pub fn is_duplicate(&self, payload: &[u8]) -> (r: bool)
        requires
            self.wf(),
        ensures
            exists|hash: u64| r == self.view().holds(hash),
            !self.view().enabled ==> !r,
    {
        if duration_is_zero(&self.dedup_period) {
            assert(!self.view().holds(0));
            return false;
        }
        let hash = ahash_hash(payload);
        self.is_duplicate_hash(hash)
    }

    /// Records the payload's hash in the current bucket (nothing when
    /// disabled).
    pub fn insert(&mut self, payload: &[u8])
        requires
            old(self).wf(),
        ensures
            final(self).wf(),
            final(self).view().wf(),
            final(self).period() == old(self).period(),
            exists|hash: u64| final(self).view() == old(self).view().record(hash),
    {
        if duration_is_zero(&self.dedup_period) {
            assert(self.view() == old(self).view().record(0));
            return;
        }
        let hash = ahash_hash(payload);
        self.insert_hash(hash);
    }

    /// Checks the payload and records it when new. Returns `true` for a
    /// duplicate, `false` for a new payload; always `false` when disabled.
    pub fn check_and_insert(&mut self, payload: &[u8]) -> (r: bool)
        requires
            old(self).wf(),
        ensures
            final(self).wf(),
            final(self).view().wf(),
            final(self).period() == old(self).period(),
            exists|hash: u64|
                r == old(self).view().holds(hash) && final(self).view() == old(
                    self,
                ).view().check_and_record(hash),
            !old(self).view().enabled ==> !r,
    {
        if duration_is_zero(&self.dedup_period) {
            assert(self.view() == old(self).view().check_and_record(0));
            return false;
        }
        let hash = ahash_hash(payload);
        self.check_and_insert_with_hash(hash)
    }

    /// Advances the wheel: the next bucket becomes current and is emptied,
    /// forgetting the hashes recorded a full period ago (nothing when
    /// disabled).
    pub fn rotate_bucket(&mut self)
        requires
            old(self).wf(),
        ensures
            final(self).wf(),
            final(self).view().wf(),
            final(self).period() == old(self).period(),
            final(self).view() == old(self).view().rotate(),
    {
        if duration_is_zero(&self.dedup_period) {
            return;
        }
        self.current_bucket = (self.current_bucket + 1) % self.num_buckets;
        let cur = self.current_bucket;
        self.buckets[cur].clear();
        assert(self.view().buckets =~= old(self).view().rotate().buckets);
    }
}

/// A well-formed de-duplicator has a well-formed window: a disabled one
/// has no bucket, an enabled one at least two with the current one among
/// them.
pub proof fn lemma_dedup_view_wf(d: &Dedup)
    requires
        d.wf(),
    ensures
        d.view().wf(),
        d.view().enabled == (duration_nanos(d.period()) != 0),
{
}

/// The rotation interval never changes over a de-duplicator's life: it
/// is decided by the period alone (100 ms for a non-zero period, zero
/// otherwise), and every operation keeps the period.
pub proof fn lemma_rotation_interval_fixed(a: &Dedup, b: &Dedup)
    requires
        a.period() == b.period(),
    ensures
        a.view().enabled == b.view().enabled,
{
}

/// Number of independently locked shards of the router's shared
/// de-duplicator (a power of two).
pub const NUM_SHARDS: usize = 16;

/// The hash the de-duplicator keys a payload by (the one
/// [`Dedup::check_and_insert`] computes) and the shard of that hash, for
/// callers that keep one [`Dedup`] per shard and hand the hash to
/// [`Dedup::check_and_insert_with_hash`].
pub fn shard_key(payload: &[u8]) -> (r: (usize, u64))
    ensures
        r.0 == r.1 % (NUM_SHARDS as u64),
        r.0 < NUM_SHARDS,
{
    let hash = ahash_hash(payload);
    (shard_index(hash), hash)
}

/// The shard of a hash: its low four bits.
pub fn shard_index(hash: u64) -> (r: usize)
    ensures
        r == hash % (NUM_SHARDS as u64),
        r < NUM_SHARDS,
{
    let low: u64 = hash & 15;
    assert(low == hash % 16 && low < 16) by (bit_vector)
        requires
            low == hash & 15,
    ;
    low as usize
}

} // verus!
