use vstd::prelude::*;
use core::marker::PhantomData;
use crate::error;
use crate::error::{errno_kept, from_err_ptr, is_err_ptr, ptr_errno, to_result};
use crate::state::{ClkState, Counts, Enabled, Prepared, Unprepared, counts_consistent};

verus! {

/// A call into the C clock API on a raw clock pointer, which the holder of a
/// clock performs when this crate hands it one.
#[derive(Copy, Clone, PartialEq, Eq, Debug, Structural)]
pub enum ClkCall {
    /// `clk_prepare()`
    Prepare(usize),
    /// `clk_enable()`
    Enable(usize),
    /// `clk_disable()`
    Disable(usize),
    /// `clk_unprepare()`
    Unprepare(usize),
    /// `clk_put()`
    Put(usize),
}

/// The clock pointer that a call names.
pub open spec fn call_ptr(call: ClkCall) -> usize {
    match call {
        ClkCall::Prepare(p) => p,
        ClkCall::Enable(p) => p,
        ClkCall::Disable(p) => p,
        ClkCall::Unprepare(p) => p,
        ClkCall::Put(p) => p,
    }
}

/// The counts after a successful call: prepare and enable take a count, disable,
/// unprepare and put give one back.
pub open spec fn after_call(c: Counts, call: ClkCall) -> Counts {
    match call {
        ClkCall::Prepare(_) => (c.0, c.1 + 1, c.2),
        ClkCall::Enable(_) => (c.0, c.1, c.2 + 1),
        ClkCall::Disable(_) => (c.0, c.1, c.2 - 1),
        ClkCall::Unprepare(_) => (c.0, c.1 - 1, c.2),
        ClkCall::Put(_) => (c.0 - 1, c.1, c.2),
    }
}

/// The counts after a sequence of calls, made in order.
pub open spec fn after_calls(c: Counts, calls: Seq<ClkCall>) -> Counts
    decreases calls.len(),
{
    if calls.len() == 0 {
        c
    } else {
        after_calls(after_call(c, calls[0]), calls.drop_first())
    }
}

/// The calls that give back what a clock in the state `T` holds, in the order the
/// C API asks for: disable if it holds an enable count, then unprepare if it
/// holds a prepare count, then put.
pub open spec fn release_calls<T: ClkState>(raw: usize) -> Seq<ClkCall> {
    (if T::held().2 == 1 { seq![ClkCall::Disable(raw)] } else { Seq::empty() })
        + (if T::held().1 == 1 { seq![ClkCall::Unprepare(raw)] } else { Seq::empty() })
        + seq![ClkCall::Put(raw)]
}

/// A reference-counted clock.
///
/// A `Clk` is in one of the states `Unprepared`, `Prepared` or `Enabled`, and
/// holds the raw pointer of a C `struct clk`, or null for an optional clock
/// that has no producer; never an error pointer.
///
/// The `Prepared` state is associated with a single count of `clk_prepare()`,
/// and the `Enabled` state with a single count of both `clk_prepare()` and
/// `clk_enable()`. All states are associated with a single count of `clk_get()`.
/// What a clock holds is given back by performing the calls of `release`.
pub struct Clk<T: ClkState> {
    inner: usize,
    _phantom: PhantomData<T>,
}

/// An error that can occur when trying to convert a `Clk` between states.
pub struct Error<State: ClkState> {
    /// The error that occurred.
    pub error: error::Error,
    /// The `Clk` that caused the error, so that the operation may be retried.
    pub clk: Clk<State>,
}

impl<T: ClkState> Clk<T> {
    #[verifier::type_invariant]
    spec fn not_an_error(self) -> bool {
        !is_err_ptr(self.inner)
    }

    /// The raw clock pointer.
    pub closed spec fn raw(&self) -> usize {
        self.inner
    }

    /// Obtain the raw `struct clk` pointer.
    pub fn as_raw(&self) -> (r: usize)
        ensures
            r == self.raw(),
            !is_err_ptr(r),
    {
        proof {
            use_type_invariant(self);
        }
        self.inner
    }

    /// Gives the clock up: returns the calls, to be performed in order, that
    /// disable, unprepare and put it as its state requires.
    pub fn release(self) -> (calls: Vec<ClkCall>)
        ensures
            calls@ == release_calls::<T>(self.raw()),
            forall|k: int| 0 <= k < calls@.len() ==> call_ptr(#[trigger] calls@[k]) == self.raw(),
            calls@.len() == 1 + (if T::DISABLE_ON_DROP { 1int } else { 0 }) + (
            if T::UNPREPARE_ON_DROP { 1int } else { 0 }),
            calls@[calls@.len() - 1] == ClkCall::Put(self.raw()),
            T::DISABLE_ON_DROP ==> calls@[0] == ClkCall::Disable(self.raw()),
            T::UNPREPARE_ON_DROP ==> calls@[calls@.len() - 2] == ClkCall::Unprepare(self.raw()),
    {
        proof {
            T::lemma_held();
        }
        let raw = self.inner;
        let mut calls: Vec<ClkCall> = Vec::new();
        if T::DISABLE_ON_DROP {
            calls.push(ClkCall::Disable(raw));
        }
        if T::UNPREPARE_ON_DROP {
            calls.push(ClkCall::Unprepare(raw));
        }
        calls.push(ClkCall::Put(raw));
        proof {
            assert(calls@ =~= release_calls::<T>(raw));
        }
        calls
    }
}

impl Clk<Unprepared> {
    /// Gets the clock that `clk_get()` returned for a device and a connection
    /// id, as `raw`: an error pointer is the error it encodes.
    pub fn get(raw: usize) -> (r: Result<Clk<Unprepared>, error::Error>)
        ensures
            match r {
                Ok(clk) => !is_err_ptr(raw) && clk.raw() == raw,
                Err(e) => is_err_ptr(raw) && e.code() == ptr_errno(raw),
            },
            r is Ok <==> raw <= usize::MAX - 4095,
            r matches Err(e) ==> e.code() == -((usize::MAX - raw) as int) - 1,
    {
        let inner = from_err_ptr(raw)?;
        Ok(Clk { inner, _phantom: PhantomData })
    }

    /// Behaves the same as `get`, for what `clk_get_optional()` returned, which
    /// is null in place of `ENOENT` when there is no clock producer.
    pub fn get_optional(raw: usize) -> (r: Result<Clk<Unprepared>, error::Error>)
        ensures
            match r {
                Ok(clk) => !is_err_ptr(raw) && clk.raw() == raw,
                Err(e) => is_err_ptr(raw) && e.code() == ptr_errno(raw),
            },
            r is Ok <==> raw <= usize::MAX - 4095,
            r matches Err(e) ==> e.code() == -((usize::MAX - raw) as int) - 1,
    {
        Self::get(raw)
    }

    /// The `clk_prepare()` call whose status `prepare` takes.
    pub fn prepare_call(&self) -> (call: ClkCall)
        ensures
            call == ClkCall::Prepare(self.raw()),
    {
        ClkCall::Prepare(self.inner)
    }

    /// Converts the clock to the `Prepared` state, given the status that
    /// `clk_prepare()` returned for it; on failure the clock comes back
    /// unchanged with the error, so that the operation may be retried.
    pub fn prepare(self, status: i32) -> (r: Result<Clk<Prepared>, Error<Unprepared>>)
        ensures
            match r {
                Ok(clk) => status >= 0 && clk.raw() == self.raw(),
                Err(e) => status < 0 && e.error.code() == errno_kept(status as int)
                    && e.clk.raw() == self.raw() && (status >= -4095 ==> e.error.code() == status),
            },
    {
        proof {
            use_type_invariant(&self);
        }
        match to_result(status) {
            Ok(()) => Ok(Clk { inner: self.inner, _phantom: PhantomData }),
            Err(error) => Err(Error { error, clk: self }),
        }
    }
}

impl Clk<Prepared> {
    /// Converts the clock to the `Unprepared` state; returns it with the
    /// `clk_unprepare()` call that gives back its prepare count.
    pub fn unprepare(self) -> (r: (Clk<Unprepared>, ClkCall))
        ensures
            r.0.raw() == self.raw(),
            r.1 == ClkCall::Unprepare(self.raw()),
    {
        proof {
            use_type_invariant(&self);
        }
        (Clk { inner: self.inner, _phantom: PhantomData }, ClkCall::Unprepare(self.inner))
    }

    /// The `clk_enable()` call whose status `enable` and `with_enabled` take.
    pub fn enable_call(&self) -> (call: ClkCall)
        ensures
            call == ClkCall::Enable(self.raw()),
    {
        ClkCall::Enable(self.inner)
    }

    /// Converts the clock to the `Enabled` state, given the status that
    /// `clk_enable()` returned for it; on failure the clock comes back
    /// unchanged with the error, so that the operation may be retried.
    pub fn enable(self, status: i32) -> (r: Result<Clk<Enabled>, Error<Prepared>>)
        ensures
            match r {
                Ok(clk) => status >= 0 && clk.raw() == self.raw(),
                Err(e) => status < 0 && e.error.code() == errno_kept(status as int)
                    && e.clk.raw() == self.raw() && (status >= -4095 ==> e.error.code() == status),
            },
    {
        proof {
            use_type_invariant(&self);
        }
        match to_result(status) {
            Ok(()) => Ok(Clk { inner: self.inner, _phantom: PhantomData }),
            Err(error) => Err(Error { error, clk: self }),
        }
    }

    /// Runs `cb` with the clock temporarily enabled, given the status that
    /// `clk_enable()` returned for it.
    ///
    /// When the enable failed, `cb` does not run and the error comes back with no
    /// call to make. Otherwise `cb` runs on the clock in the `Enabled` state, and
    /// its result comes back with the `clk_disable()` call that balances the
    /// enable, so that the clock stays `Prepared`.
    pub fn with_enabled<R, F: FnOnce(&Clk<Enabled>) -> R>(&self, status: i32, cb: F) -> (r: (
        Result<R, error::Error>,
        Option<ClkCall>,
    ))
        requires
            status >= 0 ==> forall|c: &Clk<Enabled>| c.raw() == self.raw() ==> cb.requires((c,)),
        ensures
            match r.0 {
                Ok(v) => {
                    &&& status >= 0
                    &&& r.1 == Some(ClkCall::Disable(self.raw()))
                    &&& exists|c: &Clk<Enabled>| c.raw() == self.raw() && cb.ensures((c,), v)
                },
                Err(e) => status < 0 && e.code() == errno_kept(status as int) && r.1 is None
                    && (status >= -4095 ==> e.code() == status),
            },
    {
        proof {
            use_type_invariant(self);
        }
        match to_result(status) {
            Err(e) => (Err(e), None),
            Ok(()) => {
                let enabled: Clk<Enabled> = Clk { inner: self.inner, _phantom: PhantomData };
                assert(enabled.raw() == self.raw());
                let ret = cb(&enabled);
                assert(cb.ensures((&enabled,), ret));
                (Ok(ret), Some(ClkCall::Disable(self.inner)))
            },
        }
    }
}

impl Clk<Enabled> {
    /// Converts the clock to the `Prepared` state; returns it with the
    /// `clk_disable()` call that gives back its enable count.
    pub fn disable(self) -> (r: (Clk<Prepared>, ClkCall))
        ensures
            r.0.raw() == self.raw(),
            r.1 == ClkCall::Disable(self.raw()),
    {
        proof {
            use_type_invariant(&self);
        }
        (Clk { inner: self.inner, _phantom: PhantomData }, ClkCall::Disable(self.inner))
    }
}

impl<State: ClkState> Error<State> {
    /// Discards the clock and keeps only the error code; also returns the calls
    /// that give back what the discarded clock held.
    pub fn discard(self) -> (r: (error::Error, Vec<ClkCall>))
        ensures
            r.0 == self.error,
            r.1@ == release_calls::<State>(self.clk.raw()),
    {
        let Error { error, clk } = self;
        (error, clk.release())
    }
}

/// Discarding a failed clock by a conversion into its error code alone would
/// lose the calls that give back what it held, so this crate offers no such
/// conversion: `Error::discard` and `settle` keep both.
///
/// Finishes one step of obtaining a clock: a clock that reached the state `T` is
/// kept with no call to make; on failure the error code is kept and the clock
/// that failed to move is given up, with the calls that release what it held.
pub fn settle<T: ClkState, State: ClkState>(step: Result<Clk<T>, Error<State>>) -> (r: (
    Result<Clk<T>, error::Error>,
    Vec<ClkCall>,
))
    ensures
        match step {
            Ok(clk) => r.0 == Ok::<Clk<T>, error::Error>(clk) && r.1@ == Seq::<ClkCall>::empty(),
            Err(e) => r.0 == Err::<Clk<T>, error::Error>(e.error) && r.1@ == release_calls::<
                State,
            >(e.clk.raw()),
        },
{
    match step {
        Ok(clk) => (Ok(clk), Vec::new()),
        Err(e) => {
            let (error, calls) = e.discard();
            (Err(error), calls)
        },
    }
}

/// Each change of state moves the counts by exactly the call that goes with it:
/// preparing takes a prepare count and enabling an enable count; disabling and
/// unpreparing give them back.
pub proof fn lemma_transitions_follow_calls(raw: usize)
    ensures
        after_call(Unprepared::held(), ClkCall::Prepare(raw)) == Prepared::held(),
        after_call(Prepared::held(), ClkCall::Enable(raw)) == Enabled::held(),
        after_call(Enabled::held(), ClkCall::Disable(raw)) == Prepared::held(),
        after_call(Prepared::held(), ClkCall::Unprepare(raw)) == Unprepared::held(),
{
}

/// A temporary enable is balanced: enabling and then disabling a clock leaves
/// its counts as they were.
pub proof fn lemma_enable_disable_balanced(c: Counts, raw: usize)
    ensures
        after_calls(c, seq![ClkCall::Enable(raw), ClkCall::Disable(raw)]) == c,
{
    let calls = seq![ClkCall::Enable(raw), ClkCall::Disable(raw)];
    assert(calls.drop_first() =~= seq![ClkCall::Disable(raw)]);
    assert(calls.drop_first().drop_first() =~= Seq::<ClkCall>::empty());
    reveal_with_fuel(after_calls, 3);
}

/// Giving a clock up returns every count it holds and nothing more: the calls of
/// `release`, performed on what a clock in the state `T` holds, leave no count,
/// and each of them leaves counts that a clock can hold.
pub proof fn lemma_release_returns_held<T: ClkState>(raw: usize)
    ensures
        after_calls(T::held(), release_calls::<T>(raw)) == (0int, 0int, 0int),
        forall|k: int|
            0 <= k <= release_calls::<T>(raw).len() ==> counts_consistent(
                #[trigger] after_calls(T::held(), release_calls::<T>(raw).take(k)),
            ),
{
    T::lemma_held();
    let calls = release_calls::<T>(raw);
    let h = T::held();
    reveal_with_fuel(after_calls, 4);
    if h.2 == 1 {
        assert(calls =~= seq![ClkCall::Disable(raw), ClkCall::Unprepare(raw), ClkCall::Put(raw)]);
        assert(calls.take(0) =~= Seq::<ClkCall>::empty());
        assert(calls.take(1) =~= seq![ClkCall::Disable(raw)]);
        assert(calls.take(2) =~= seq![ClkCall::Disable(raw), ClkCall::Unprepare(raw)]);
        assert(calls.take(3) =~= calls);
        assert(calls.drop_first() =~= seq![ClkCall::Unprepare(raw), ClkCall::Put(raw)]);
        assert(calls.drop_first().drop_first() =~= seq![ClkCall::Put(raw)]);
        assert(calls.drop_first().drop_first().drop_first() =~= Seq::<ClkCall>::empty());
        assert(calls.take(2).drop_first() =~= seq![ClkCall::Unprepare(raw)]);
        assert(calls.take(2).drop_first().drop_first() =~= Seq::<ClkCall>::empty());
        assert(calls.take(1).drop_first() =~= Seq::<ClkCall>::empty());
    } else if h.1 == 1 {
        assert(calls =~= seq![ClkCall::Unprepare(raw), ClkCall::Put(raw)]);
        assert(calls.take(0) =~= Seq::<ClkCall>::empty());
        assert(calls.take(1) =~= seq![ClkCall::Unprepare(raw)]);
        assert(calls.take(2) =~= calls);
        assert(calls.drop_first() =~= seq![ClkCall::Put(raw)]);
        assert(calls.drop_first().drop_first() =~= Seq::<ClkCall>::empty());
        assert(calls.take(1).drop_first() =~= Seq::<ClkCall>::empty());
    } else {
        assert(calls =~= seq![ClkCall::Put(raw)]);
        assert(calls.take(0) =~= Seq::<ClkCall>::empty());
        assert(calls.take(1) =~= calls);
        assert(calls.drop_first() =~= Seq::<ClkCall>::empty());
    }
}

/// Counts after two lists of calls made one after the other are the counts
/// after the first list, moved on by the second.
pub proof fn lemma_after_calls_concat(c: Counts, a: Seq<ClkCall>, b: Seq<ClkCall>)
    ensures
        after_calls(c, a + b) == after_calls(after_calls(c, a), b),
    decreases a.len(),
{
    if a.len() == 0 {
        assert(a + b =~= b);
    } else {
        assert((a + b).drop_first() =~= a.drop_first() + b);
        lemma_after_calls_concat(after_call(c, a[0]), a.drop_first(), b);
    }
}

/// The counts held in a state given by its level: 0 unprepared, 1 prepared,
/// 2 enabled.
pub open spec fn level_held(level: int) -> Counts {
    (1, if level >= 1 { 1 } else { 0 }, if level >= 2 { 1 } else { 0 })
}

/// A successful change that a clock goes through in its life.
#[derive(Copy, Clone, PartialEq, Eq, Debug, Structural)]
pub enum Change {
    /// `prepare` of an unprepared clock.
    Prepare,
    /// `enable` of a prepared clock.
    Enable,
    /// `disable` of an enabled clock.
    Disable,
    /// `unprepare` of a prepared clock.
    Unprepare,
    /// `with_enabled` on a prepared clock whose enable succeeded.
    WithEnabled,
}

/// The level a change leads to from `level`, or `None` where the typed states
/// do not offer that change.
pub open spec fn change_to(level: int, change: Change) -> Option<int> {
    match change {
        Change::Prepare => if level == 0 { Some(1) } else { None },
        Change::Enable => if level == 1 { Some(2) } else { None },
        Change::Disable => if level == 2 { Some(1) } else { None },
        Change::Unprepare => if level == 1 { Some(0) } else { None },
        Change::WithEnabled => if level == 1 { Some(1) } else { None },
    }
}

/// The C calls made by a change, in order: `with_enabled` enables and then
/// disables.
pub open spec fn change_calls(change: Change, raw: usize) -> Seq<ClkCall> {
    match change {
        Change::Prepare => seq![ClkCall::Prepare(raw)],
        Change::Enable => seq![ClkCall::Enable(raw)],
        Change::Disable => seq![ClkCall::Disable(raw)],
        Change::Unprepare => seq![ClkCall::Unprepare(raw)],
        Change::WithEnabled => seq![ClkCall::Enable(raw), ClkCall::Disable(raw)],
    }
}

/// The level a clock obtained by `get` reaches through `changes`, or `None` if
/// one of them is not offered where it stands. A failed change leaves the clock
/// where it was and is no change here.
pub open spec fn life_level(changes: Seq<Change>) -> Option<int>
    decreases changes.len(),
{
    if changes.len() == 0 {
        Some(0)
    } else {
        match life_level(changes.drop_last()) {
            Some(level) => change_to(level, changes.last()),
            None => None,
        }
    }
}

/// The C calls made through `changes`, in order.
pub open spec fn life_calls(changes: Seq<Change>, raw: usize) -> Seq<ClkCall>
    decreases changes.len(),
{
    if changes.len() == 0 {
        Seq::empty()
    } else {
        life_calls(changes.drop_last(), raw) + change_calls(changes.last(), raw)
    }
}

/// The states of this crate sit at their levels.
pub proof fn lemma_states_at_levels()
    ensures
        Unprepared::held() == level_held(0),
        Prepared::held() == level_held(1),
        Enabled::held() == level_held(2),
{
}

/// Through any changes a clock goes through, prepare, enable, disable,
/// unprepare and `with_enabled` alike, the counts it holds are always those of
/// the level it stands at, so they stay consistent.
pub proof fn lemma_life_keeps_counts(changes: Seq<Change>, raw: usize)
    requires
        life_level(changes) is Some,
    ensures
        after_calls(level_held(0), life_calls(changes, raw)) == level_held(
            life_level(changes)->Some_0,
        ),
        counts_consistent(after_calls(level_held(0), life_calls(changes, raw))),
    decreases changes.len(),
{
    if changes.len() > 0 {
        let prev = changes.drop_last();
        lemma_life_keeps_counts(prev, raw);
        let level = life_level(prev)->Some_0;
        let change = changes.last();
        let mid = after_calls(level_held(0), life_calls(prev, raw));
        lemma_after_calls_concat(level_held(0), life_calls(prev, raw), change_calls(change, raw));
        reveal_with_fuel(after_calls, 3);
        let calls = change_calls(change, raw);
        if change == Change::WithEnabled {
            lemma_enable_disable_balanced(mid, raw);
        } else {
            assert(calls.drop_first() =~= Seq::<ClkCall>::empty());
        }
    }
}

/// Over a clock's whole life nothing leaks and nothing is given back twice: a
/// clock obtained by `get` (one reference), taken through any changes, with any
/// number of `with_enabled` runs among them, to the state `S` and then given up
/// by `release`, ends holding no count, with every `clk_get()` matched by one
/// `clk_put()`, every `clk_prepare()` by one `clk_unprepare()` and every
/// `clk_enable()` by one `clk_disable()`.
pub proof fn lemma_lifetime_balanced<S: ClkState>(changes: Seq<Change>, raw: usize)
    requires
        life_level(changes) is Some,
        S::held() == level_held(life_level(changes)->Some_0),
    ensures
        after_calls(Unprepared::held(), life_calls(changes, raw) + release_calls::<S>(raw)) == (
            0int,
            0int,
            0int,
        ),
{
    lemma_life_keeps_counts(changes, raw);
    lemma_after_calls_concat(Unprepared::held(), life_calls(changes, raw), release_calls::<S>(raw));
    lemma_release_returns_held::<S>(raw);
}

/// Giving a clock up touches that clock and no other: every call of `release`
/// names the clock's own pointer, ends with its put, and is preceded by its
/// unprepare when it is prepared and by its disable when it is enabled.
pub proof fn lemma_release_names_own_clock<T: ClkState>(raw: usize)
    ensures
        forall|k: int|
            0 <= k < release_calls::<T>(raw).len() ==> call_ptr(
                #[trigger] release_calls::<T>(raw)[k],
            ) == raw,
        release_calls::<T>(raw).last() == ClkCall::Put(raw),
        T::DISABLE_ON_DROP ==> release_calls::<T>(raw)[0] == ClkCall::Disable(raw),
        T::UNPREPARE_ON_DROP ==> release_calls::<T>(raw)[release_calls::<T>(raw).len() - 2]
            == ClkCall::Unprepare(raw),
        release_calls::<T>(raw).len() == 1 + (if T::DISABLE_ON_DROP { 1int } else { 0 }) + (
        if T::UNPREPARE_ON_DROP { 1int } else { 0 }),
{
    T::lemma_held();
    let calls = release_calls::<T>(raw);
    if T::DISABLE_ON_DROP {
        assert(calls =~= seq![ClkCall::Disable(raw), ClkCall::Unprepare(raw), ClkCall::Put(raw)]);
    } else if T::UNPREPARE_ON_DROP {
        assert(calls =~= seq![ClkCall::Unprepare(raw), ClkCall::Put(raw)]);
    } else {
        assert(calls =~= seq![ClkCall::Put(raw)]);
    }
}

} // verus!
