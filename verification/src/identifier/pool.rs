use crate::identifier::EapIdentifier;
use vstd::prelude::*;

verus! {

/// The largest identifier that the counter hands out is one below this bound.
pub const IDENTIFIER_COUNTER_LIMIT: u8 = 255;

/// A pool of one-byte identifiers: identifiers in use with the time of their allocation,
/// identifiers given back, and a counter for identifiers never handed out yet.
///
/// Times and the allocation timeout are nanoseconds on one monotonic clock.
pub struct IdentifierPool {
    used_identifiers: Vec<(u8, u64)>,
    free_identifiers: Vec<u8>,
    next_identifier: u8,
    allocation_timeout: u64,
}

/// The state of a pool as a mathematical value.
pub struct IdentifierPoolView {
    pub used_identifiers: Seq<(u8, u64)>,
    pub free_identifiers: Seq<u8>,
    pub next_identifier: u8,
    pub allocation_timeout: u64,
}

impl View for IdentifierPool {
    type V = IdentifierPoolView;

    closed spec fn view(&self) -> IdentifierPoolView {
        IdentifierPoolView {
            used_identifiers: self.used_identifiers@,
            free_identifiers: self.free_identifiers@,
            next_identifier: self.next_identifier,
            allocation_timeout: self.allocation_timeout,
        }
    }
}

/// The time from `then` to `now`, or zero when `then` is later.
pub open spec fn elapsed(then: u64, now: u64) -> int {
    if now >= then {
        now - then
    } else {
        0
    }
}

/// An allocation has expired when the timeout has passed since it was made.
pub open spec fn is_expired(entry: (u8, u64), now: u64, allocation_timeout: u64) -> bool {
    elapsed(entry.1, now) >= allocation_timeout
}

/// `position` holds the first expired allocation.
pub open spec fn is_first_expired(
    used: Seq<(u8, u64)>,
    now: u64,
    allocation_timeout: u64,
    position: int,
) -> bool {
    &&& 0 <= position < used.len()
    &&& is_expired(used[position], now, allocation_timeout)
    &&& forall|q: int| 0 <= q < position ==> !is_expired(#[trigger] used[q], now, allocation_timeout)
}

/// Some allocation has expired.
pub open spec fn has_expired(used: Seq<(u8, u64)>, now: u64, allocation_timeout: u64) -> bool {
    exists|position: int|
        0 <= position < used.len() && is_expired(#[trigger] used[position], now, allocation_timeout)
}

/// `position` holds the first allocation of `identifier`.
pub open spec fn is_first_of(used: Seq<(u8, u64)>, identifier: u8, position: int) -> bool {
    &&& 0 <= position < used.len()
    &&& used[position].0 == identifier
    &&& forall|q: int| 0 <= q < position ==> (#[trigger] used[q]).0 != identifier
}

/// The identifier is allocated.
pub open spec fn is_used(used: Seq<(u8, u64)>, identifier: u8) -> bool {
    exists|position: int| 0 <= position < used.len() && (#[trigger] used[position]).0 == identifier
}

/// Removing position `position` by moving the last element into its place.
pub open spec fn swap_removed<A>(sequence: Seq<A>, position: int) -> Seq<A> {
    sequence.update(position, sequence.last()).drop_last()
}

/// What an allocation at time `now` does to the pool, and the identifier it hands out:
/// the most recently freed identifier if there is one, else the counter while it is below its
/// limit, else the first expired allocation, which is also put back on the free list.
pub open spec fn pool_allocate(pool: IdentifierPoolView, now: u64) -> (
    IdentifierPoolView,
    Option<u8>,
) {
    if pool.free_identifiers.len() > 0 {
        let identifier = pool.free_identifiers.last();
        (
            IdentifierPoolView {
                used_identifiers: pool.used_identifiers.push((identifier, now)),
                free_identifiers: pool.free_identifiers.drop_last(),
                ..pool
            },
            Some(identifier),
        )
    } else if pool.next_identifier < IDENTIFIER_COUNTER_LIMIT {
        (
            IdentifierPoolView {
                used_identifiers: pool.used_identifiers.push((pool.next_identifier, now)),
                next_identifier: (pool.next_identifier + 1) as u8,
                ..pool
            },
            Some(pool.next_identifier),
        )
    } else if has_expired(pool.used_identifiers, now, pool.allocation_timeout) {
        let position = choose|position: int|
            is_first_expired(pool.used_identifiers, now, pool.allocation_timeout, position);
        let identifier = pool.used_identifiers[position].0;
        (
            IdentifierPoolView {
                used_identifiers: swap_removed(pool.used_identifiers, position),
                free_identifiers: pool.free_identifiers.push(identifier),
                ..pool
            },
            Some(identifier),
        )
    } else {
        (pool, None)
    }
}

/// What giving back `identifier` does to the pool: its first allocation moves to the free
/// list; an identifier that is not allocated changes nothing.
pub open spec fn pool_deallocate(pool: IdentifierPoolView, identifier: u8) -> IdentifierPoolView {
    if is_used(pool.used_identifiers, identifier) {
        let position = choose|position: int| is_first_of(pool.used_identifiers, identifier, position);
        IdentifierPoolView {
            used_identifiers: swap_removed(pool.used_identifiers, position),
            free_identifiers: pool.free_identifiers.push(identifier),
            ..pool
        }
    } else {
        pool
    }
}

/// No identifier is held twice, none is both allocated and free, and every one of them is
/// below the counter.
pub open spec fn pool_is_consistent(pool: IdentifierPoolView) -> bool {
    let used = pool.used_identifiers;
    let free = pool.free_identifiers;
    &&& forall|i: int, j: int|
        0 <= i < j < used.len() ==> (#[trigger] used[i]).0 != (#[trigger] used[j]).0
    &&& forall|i: int, j: int| 0 <= i < j < free.len() ==> #[trigger] free[i] != #[trigger] free[j]
    &&& forall|i: int, j: int|
        0 <= i < used.len() && 0 <= j < free.len() ==> (#[trigger] used[i]).0 != #[trigger] free[j]
    &&& forall|i: int| 0 <= i < used.len() ==> (#[trigger] used[i]).0 < pool.next_identifier
    &&& forall|j: int| 0 <= j < free.len() ==> #[trigger] free[j] < pool.next_identifier
    &&& pool.next_identifier <= IDENTIFIER_COUNTER_LIMIT
}

/// There is only one first expired allocation.
pub proof fn lemma_first_expired_unique(
    used: Seq<(u8, u64)>,
    now: u64,
    allocation_timeout: u64,
    p: int,
    q: int,
)
    requires
        is_first_expired(used, now, allocation_timeout, p),
        is_first_expired(used, now, allocation_timeout, q),
    ensures
        p == q,
{
    if p < q {
        assert(!is_expired(used[p], now, allocation_timeout));
    } else if q < p {
        assert(!is_expired(used[q], now, allocation_timeout));
    }
}

/// There is only one first allocation of an identifier.
pub proof fn lemma_first_of_unique(used: Seq<(u8, u64)>, identifier: u8, p: int, q: int)
    requires
        is_first_of(used, identifier, p),
        is_first_of(used, identifier, q),
    ensures
        p == q,
{
    if p < q {
        assert(used[p].0 != identifier);
    } else if q < p {
        assert(used[q].0 != identifier);
    }
}

/// A new pool is consistent.
pub proof fn lemma_new_pool_is_consistent(allocation_timeout: u64)
    ensures
        pool_is_consistent(
            IdentifierPoolView {
                used_identifiers: Seq::empty(),
                free_identifiers: Seq::empty(),
                next_identifier: 0,
                allocation_timeout,
            },
        ),
{
}

/// Allocating keeps a pool consistent; an identifier taken from the free list or the counter
/// is afterwards held by exactly the new allocation.
pub proof fn lemma_allocate_keeps_pool_consistent(pool: IdentifierPoolView, now: u64)
    requires
        pool_is_consistent(pool),
    ensures
        pool_is_consistent(pool_allocate(pool, now).0),
        pool_allocate(pool, now).1 matches Some(identifier) ==> (pool.free_identifiers.len() > 0
            || pool.next_identifier < IDENTIFIER_COUNTER_LIMIT) ==> !is_used(
            pool.used_identifiers,
            identifier,
        ) && pool_allocate(pool, now).0.used_identifiers.last() == (identifier, now),
{
    let used = pool.used_identifiers;
    let free = pool.free_identifiers;
    if free.len() > 0 {
        let identifier = free.last();
        let new_used = used.push((identifier, now));
        let new_free = free.drop_last();
        assert forall|i: int, j: int| 0 <= i < j < new_used.len() implies (
        #[trigger] new_used[i]).0 != (#[trigger] new_used[j]).0 by {
            if j == used.len() {
                assert(used[i].0 != free[free.len() - 1]);
            }
        }
        assert forall|i: int, j: int|
            0 <= i < new_used.len() && 0 <= j < new_free.len() implies (
            #[trigger] new_used[i]).0 != #[trigger] new_free[j] by {
            if i == used.len() {
                assert(free[j] != free[free.len() - 1]);
            } else {
                assert(used[i].0 != free[j]);
            }
        }
        assert forall|position: int| 0 <= position < used.len() implies (
        #[trigger] used[position]).0 != identifier by {
            assert(used[position].0 != free[free.len() - 1]);
        }
    } else if pool.next_identifier < IDENTIFIER_COUNTER_LIMIT {
        let new_used = used.push((pool.next_identifier, now));
        assert forall|i: int, j: int| 0 <= i < j < new_used.len() implies (
        #[trigger] new_used[i]).0 != (#[trigger] new_used[j]).0 by {
            if j == used.len() {
                assert(used[i].0 < pool.next_identifier);
            }
        }
        assert forall|position: int| 0 <= position < used.len() implies (
        #[trigger] used[position]).0 != pool.next_identifier by {
            assert(used[position].0 < pool.next_identifier);
        }
    } else if has_expired(used, now, pool.allocation_timeout) {
        let witness = choose|position: int|
            0 <= position < used.len() && is_expired(used[position], now, pool.allocation_timeout);
        lemma_first_expired_exists(used, now, pool.allocation_timeout, witness);
        let position = choose|position: int|
            is_first_expired(used, now, pool.allocation_timeout, position);
        lemma_swap_remove_to_free_keeps_consistency(pool, position);
    }
}

/// Some allocation has expired, so there is a first one.
pub proof fn lemma_first_expired_exists(
    used: Seq<(u8, u64)>,
    now: u64,
    allocation_timeout: u64,
    witness: int,
)
    requires
        0 <= witness < used.len(),
        is_expired(used[witness], now, allocation_timeout),
    ensures
        exists|position: int| is_first_expired(used, now, allocation_timeout, position),
    decreases witness,
{
    if forall|q: int| 0 <= q < witness ==> !is_expired(#[trigger] used[q], now, allocation_timeout) {
        assert(is_first_expired(used, now, allocation_timeout, witness));
    } else {
        let earlier = choose|q: int|
            0 <= q < witness && is_expired(#[trigger] used[q], now, allocation_timeout);
        lemma_first_expired_exists(used, now, allocation_timeout, earlier);
    }
}

/// An allocated identifier has a first allocation.
pub proof fn lemma_first_of_exists(used: Seq<(u8, u64)>, identifier: u8, witness: int)
    requires
        0 <= witness < used.len(),
        used[witness].0 == identifier,
    ensures
        exists|position: int| is_first_of(used, identifier, position),
    decreases witness,
{
    if forall|q: int| 0 <= q < witness ==> (#[trigger] used[q]).0 != identifier {
        assert(is_first_of(used, identifier, witness));
    } else {
        let earlier = choose|q: int| 0 <= q < witness && (#[trigger] used[q]).0 == identifier;
        lemma_first_of_exists(used, identifier, earlier);
    }
}

/// Moving one allocation to the free list keeps a pool consistent.
pub proof fn lemma_swap_remove_to_free_keeps_consistency(pool: IdentifierPoolView, position: int)
    requires
        pool_is_consistent(pool),
        0 <= position < pool.used_identifiers.len(),
    ensures
        pool_is_consistent(
            IdentifierPoolView {
                used_identifiers: swap_removed(pool.used_identifiers, position),
                free_identifiers: pool.free_identifiers.push(pool.used_identifiers[position].0),
                ..pool
            },
        ),
{
    let used = pool.used_identifiers;
    let free = pool.free_identifiers;
    let identifier = used[position].0;
    let last = used.len() - 1;
    let new_used = swap_removed(used, position);
    let new_free = free.push(identifier);
    assert forall|i: int| 0 <= i < new_used.len() implies #[trigger] new_used[i] == if i
        == position {
        used[last]
    } else {
        used[i]
    } by {}
    assert forall|i: int, j: int| 0 <= i < j < new_used.len() implies (
    #[trigger] new_used[i]).0 != (#[trigger] new_used[j]).0 by {
        let a = if i == position {
            last
        } else {
            i
        };
        let b = if j == position {
            last
        } else {
            j
        };
        assert(a != b);
        if a < b {
            assert(used[a].0 != used[b].0);
        } else {
            assert(used[b].0 != used[a].0);
        }
    }
    assert forall|i: int, j: int| 0 <= i < j < new_free.len() implies #[trigger] new_free[i]
        != #[trigger] new_free[j] by {
        if j == free.len() {
            assert(free[i] != used[position].0);
        }
    }
    assert forall|i: int, j: int|
        0 <= i < new_used.len() && 0 <= j < new_free.len() implies (#[trigger] new_used[i]).0
        != #[trigger] new_free[j] by {
        let a = if i == position {
            last
        } else {
            i
        };
        if j == free.len() {
            assert(a != position);
            if a < position {
                assert(used[a].0 != used[position].0);
            } else {
                assert(used[position].0 != used[a].0);
            }
        } else {
            assert(used[a].0 != free[j]);
        }
    }
    assert forall|i: int| 0 <= i < new_used.len() implies (#[trigger] new_used[i]).0
        < pool.next_identifier by {
        if i == position {
            assert(used[last].0 < pool.next_identifier);
        } else {
            assert(used[i].0 < pool.next_identifier);
        }
    }
    assert forall|j: int| 0 <= j < new_free.len() implies #[trigger] new_free[j]
        < pool.next_identifier by {
        if j == free.len() {
            assert(used[position].0 < pool.next_identifier);
        } else {
            assert(free[j] < pool.next_identifier);
        }
    }
}

/// Giving back an identifier keeps a pool consistent.
pub proof fn lemma_deallocate_keeps_pool_consistent(pool: IdentifierPoolView, identifier: u8)
    requires
        pool_is_consistent(pool),
    ensures
        pool_is_consistent(pool_deallocate(pool, identifier)),
{
    if is_used(pool.used_identifiers, identifier) {
        let witness = choose|position: int|
            0 <= position < pool.used_identifiers.len() && (
            #[trigger] pool.used_identifiers[position]).0 == identifier;
        lemma_first_of_exists(pool.used_identifiers, identifier, witness);
        let position = choose|position: int|
            is_first_of(pool.used_identifiers, identifier, position);
        lemma_swap_remove_to_free_keeps_consistency(pool, position);
    }
}

/// An identifier that is given back is the next one handed out.
pub proof fn lemma_allocate_after_deallocate(pool: IdentifierPoolView, identifier: u8, now: u64)
    requires
        is_used(pool.used_identifiers, identifier),
    ensures
        pool_allocate(pool_deallocate(pool, identifier), now).1 == Some(identifier),
{
}

/// Allocation fails exactly when nothing is free, the counter is used up and no allocation has
/// expired; a failed allocation changes nothing.
pub proof fn lemma_allocate_fails_only_when_exhausted(pool: IdentifierPoolView, now: u64)
    ensures
        pool_allocate(pool, now).1 is None <==> (pool.free_identifiers.len() == 0
            && pool.next_identifier >= IDENTIFIER_COUNTER_LIMIT && !has_expired(
            pool.used_identifiers,
            now,
            pool.allocation_timeout,
        )),
        pool_allocate(pool, now).1 is None ==> pool_allocate(pool, now).0 == pool,
{
}

/// A pool that has handed out nothing yet.
pub open spec fn fresh_pool(allocation_timeout: u64) -> IdentifierPoolView {
    IdentifierPoolView {
        used_identifiers: Seq::empty(),
        free_identifiers: Seq::empty(),
        next_identifier: 0,
        allocation_timeout,
    }
}

/// Allocating once at each of the given times in turn: the pool afterwards and what each
/// allocation handed out.
pub open spec fn allocate_all(pool: IdentifierPoolView, times: Seq<u64>) -> (
    IdentifierPoolView,
    Seq<Option<u8>>,
)
    decreases times.len(),
{
    if times.len() == 0 {
        (pool, Seq::empty())
    } else {
        let (before, results) = allocate_all(pool, times.drop_last());
        let (after, result) = pool_allocate(before, times.last());
        (after, results.push(result))
    }
}

/// A fresh pool hands out 0, 1, 2, ... in order, up to 254, and holds each identifier with
/// the time it was handed out.
pub proof fn lemma_fresh_pool_counts_up(allocation_timeout: u64, times: Seq<u64>)
    requires
        times.len() <= IDENTIFIER_COUNTER_LIMIT,
    ensures
        ({
            let (pool, results) = allocate_all(fresh_pool(allocation_timeout), times);
            &&& results == Seq::new(times.len(), |i: int| Some(i as u8))
            &&& pool.used_identifiers == Seq::new(times.len(), |i: int| (i as u8, times[i]))
            &&& pool.free_identifiers == Seq::<u8>::empty()
            &&& pool.next_identifier == times.len()
            &&& pool.allocation_timeout == allocation_timeout
        }),
    decreases times.len(),
{
    if times.len() > 0 {
        let prefix = times.drop_last();
        lemma_fresh_pool_counts_up(allocation_timeout, prefix);
        let (pool, results) = allocate_all(fresh_pool(allocation_timeout), prefix);
        let (after, all_results) = allocate_all(fresh_pool(allocation_timeout), times);
        assert(all_results =~= Seq::new(times.len(), |i: int| Some(i as u8)));
        assert(after.used_identifiers =~= Seq::new(times.len(), |i: int| (i as u8, times[i])));
    }
}

/// Once a fresh pool has handed out its 255 identifiers, the next allocation at `now` hands
/// out the first of them, in the order they were handed out, that has been held for the
/// allocation timeout, and nothing when none has.
pub proof fn lemma_full_pool_reclaims_first_expired(
    allocation_timeout: u64,
    times: Seq<u64>,
    now: u64,
)
    requires
        times.len() == IDENTIFIER_COUNTER_LIMIT,
    ensures
        ({
            let (pool, _) = allocate_all(fresh_pool(allocation_timeout), times);
            let result = pool_allocate(pool, now).1;
            &&& result is None <==> forall|i: int|
                0 <= i < times.len() ==> elapsed(#[trigger] times[i], now) < allocation_timeout
            &&& result matches Some(identifier) ==> {
                &&& identifier < times.len()
                &&& elapsed(times[identifier as int], now) >= allocation_timeout
                &&& forall|j: int|
                    0 <= j < identifier ==> elapsed(#[trigger] times[j], now) < allocation_timeout
            }
        }),
{
    lemma_fresh_pool_counts_up(allocation_timeout, times);
    let (pool, _) = allocate_all(fresh_pool(allocation_timeout), times);
    let used = pool.used_identifiers;
    assert forall|i: int| 0 <= i < used.len() implies #[trigger] is_expired(
        used[i],
        now,
        allocation_timeout,
    ) == (elapsed(times[i], now) >= allocation_timeout) by {
        assert(used[i] == (i as u8, times[i]));
    }
    if has_expired(used, now, allocation_timeout) {
        let witness = choose|position: int|
            0 <= position < used.len() && is_expired(used[position], now, allocation_timeout);
        lemma_first_expired_exists(used, now, allocation_timeout, witness);
        let position = choose|position: int|
            is_first_expired(used, now, allocation_timeout, position);
        assert(used[position].0 == position as u8);
        assert(elapsed(times[witness], now) >= allocation_timeout);
        assert forall|j: int| 0 <= j < position implies elapsed(
            #[trigger] times[j],
            now,
        ) < allocation_timeout by {
            assert(!is_expired(used[j], now, allocation_timeout));
        }
    } else {
        assert forall|i: int| 0 <= i < times.len() implies elapsed(
            #[trigger] times[i],
            now,
        ) < allocation_timeout by {
            assert(!is_expired(used[i], now, allocation_timeout));
        }
    }
}

impl IdentifierPool {
    pub fn new(allocation_timeout: u64) -> (pool: Self)
        ensures
            pool@ == (IdentifierPoolView {
                used_identifiers: Seq::empty(),
                free_identifiers: Seq::empty(),
                next_identifier: 0,
                allocation_timeout,
            }),
    {
        Self {
            used_identifiers: Vec::new(),
            free_identifiers: Vec::new(),
            next_identifier: 0,
            allocation_timeout,
        }
    }

    /// Hands out an identifier at time `now`, if one is available.
    pub fn allocate(&mut self, now: u64) -> (identifier: Option<u8>)
        ensures
            (final(self)@, identifier) == pool_allocate(old(self)@, now),
    {
        if let Some(identifier) = self.free_identifiers.pop() {
            self.used_identifiers.push((identifier, now));
            return Some(identifier);
        }
        if self.next_identifier < IDENTIFIER_COUNTER_LIMIT {
            let identifier = self.next_identifier;
            self.used_identifiers.push((identifier, now));
            self.next_identifier = identifier + 1;
            return Some(identifier);
        }
        let mut i: usize = 0;
        while i < self.used_identifiers.len()
            invariant
                i <= self.used_identifiers@.len(),
                self@ == old(self)@,
                old(self)@.free_identifiers.len() == 0,
                old(self)@.next_identifier >= IDENTIFIER_COUNTER_LIMIT,
                forall|q: int|
                    0 <= q < i ==> !is_expired(
                        #[trigger] self.used_identifiers@[q],
                        now,
                        self.allocation_timeout,
                    ),
            decreases self.used_identifiers@.len() - i,
        {
            let (_, then) = self.used_identifiers[i];
            let elapsed: u64 = if now >= then {
                now - then
            } else {
                0
            };
            if elapsed >= self.allocation_timeout {
                assert(is_first_expired(
                    self.used_identifiers@,
                    now,
                    self.allocation_timeout,
                    i as int,
                ));
                proof {
                    let chosen = choose|position: int|
                        is_first_expired(
                            self.used_identifiers@,
                            now,
                            self.allocation_timeout,
                            position,
                        );
                    lemma_first_expired_unique(
                        self.used_identifiers@,
                        now,
                        self.allocation_timeout,
                        chosen,
                        i as int,
                    );
                }
                assert(has_expired(self.used_identifiers@, now, self.allocation_timeout));
                let (identifier, _) = self.used_identifiers.swap_remove(i);
                self.free_identifiers.push(identifier);
                return Some(identifier);
            }
            i = i + 1;
        }
        None
    }

    /// Gives back `identifier`; an identifier that is not allocated changes nothing.
    pub fn deallocate(&mut self, identifier: u8)
        ensures
            final(self)@ == pool_deallocate(old(self)@, identifier),
    {
        let mut i: usize = 0;
        while i < self.used_identifiers.len()
            invariant
                i <= self.used_identifiers@.len(),
                self@ == old(self)@,
                forall|q: int| 0 <= q < i ==> (#[trigger] self.used_identifiers@[q]).0 != identifier,
            decreases self.used_identifiers@.len() - i,
        {
            if self.used_identifiers[i].0 == identifier {
                assert(is_first_of(self.used_identifiers@, identifier, i as int));
                proof {
                    let chosen = choose|position: int|
                        is_first_of(self.used_identifiers@, identifier, position);
                    lemma_first_of_unique(self.used_identifiers@, identifier, chosen, i as int);
                }
                self.used_identifiers.swap_remove(i);
                self.free_identifiers.push(identifier);
                return;
            }
            i = i + 1;
        }
    }
}

/// A pool of EAP identifiers.
pub struct EapIdentifierPool(pub IdentifierPool);

impl EapIdentifierPool {
    pub fn new(allocation_timeout: u64) -> (pool: Self)
        ensures
            pool.0@ == (IdentifierPoolView {
                used_identifiers: Seq::empty(),
                free_identifiers: Seq::empty(),
                next_identifier: 0,
                allocation_timeout,
            }),
    {
        Self(IdentifierPool::new(allocation_timeout))
    }

    /// Hands out an EAP identifier at time `now`, if one is available.
    pub fn allocate(&mut self, now: u64) -> (identifier: Option<EapIdentifier>)
        ensures
            final(self).0@ == pool_allocate(old(self).0@, now).0,
            identifier == match pool_allocate(old(self).0@, now).1 {
                Some(byte) => Some(EapIdentifier(byte)),
                None => None,
            },
    {
        match self.0.allocate(now) {
            Some(byte) => Some(EapIdentifier(byte)),
            None => None,
        }
    }

    /// Gives back an EAP identifier.
    pub fn deallocate(&mut self, identifier: EapIdentifier)
        ensures
            final(self).0@ == pool_deallocate(old(self).0@, identifier.0),
    {
        self.0.deallocate(identifier.0)
    }
}

impl core::ops::Deref for EapIdentifierPool {
    type Target = IdentifierPool;

    fn deref(&self) -> (pool: &IdentifierPool)
        ensures
            pool@ == self.0@,
    {
        &self.0
    }
}

} // verus!
