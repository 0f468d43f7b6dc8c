use vstd::prelude::*;

verus! {

/// A value computed on first access by an initializer that runs at most
/// once.
///
/// The cell holds either the pending initializer or the value it produced,
/// with a flag that tells which. The flag goes from uninitialised to
/// initialised once and never back. Access takes the cell exclusively, so
/// the first transition cannot race.
pub struct Lazy<T, F> {
    initialized: bool,
    init: Option<F>,
    value: Option<T>,
}

impl<T, F: FnOnce() -> T> Lazy<T, F> {
    /// Well-formedness: exactly one of initializer and value is present, as
    /// the flag says.
    pub closed spec fn wf(&self) -> bool {
        &&& self.initialized == self.value.is_some()
        &&& self.initialized == self.init.is_none()
    }

    /// Whether the value has been produced.
    pub closed spec fn is_init(&self) -> bool {
        self.initialized
    }

    /// The pending initializer.
    pub closed spec fn initializer(&self) -> F
        recommends
            !self.is_init(),
    {
        self.init.unwrap()
    }

    /// The stored value.
    pub closed spec fn value(&self) -> T
        recommends
            self.is_init(),
    {
        self.value.unwrap()
    }

    /// Stores `f` without calling it.
    pub fn new(f: F) -> (r: Lazy<T, F>)
        ensures
            r.wf(),
            !r.is_init(),
            r.initializer() == f,
    {
        Lazy { initialized: false, init: Some(f), value: None }
    }

    /// Whether the value has been produced.
    pub fn is_initialized(&self) -> (r: bool)
        ensures
            r == self.is_init(),
    {
        self.initialized
    }

    /// Runs the initializer, stores its result and drops the initializer.
    fn initialize(&mut self)
        requires
            old(self).wf(),
            !old(self).is_init(),
            call_requires(old(self).initializer(), ()),
        ensures
            final(self).wf(),
            final(self).is_init(),
            call_ensures(old(self).initializer(), (), final(self).value()),
    {
        let f = self.init.take().unwrap();
        self.value = Some(f());
        self.initialized = true;
    }

    /// Runs the initializer on the first call only.
    fn force(&mut self)
        requires
            old(self).wf(),
            !old(self).is_init() ==> call_requires(old(self).initializer(), ()),
        ensures
            final(self).wf(),
            final(self).is_init(),
            old(self).is_init() ==> *final(self) == *old(self),
            !old(self).is_init() ==> call_ensures(
                old(self).initializer(),
                (),
                final(self).value(),
            ),
    {
        if !self.initialized {
            self.initialize();
        }
    }

    /// What one access does, from cell `before` to cell `after`, giving
    /// `r`: an initialised cell is left as it is and gives its value; an
    /// uninitialised one becomes initialised with what its initializer
    /// returned.
    pub open spec fn get_step(before: Self, after: Self, r: T) -> bool {
        &&& after.wf()
        &&& after.is_init()
        &&& r == after.value()
        &&& before.is_init() ==> after == before
        &&& !before.is_init() ==> call_ensures(before.initializer(), (), r)
    }

    /// The value, produced by the initializer on the first call; later
    /// calls return the stored value and call nothing.
    pub fn get(&mut self) -> (r: &T)
        requires
            old(self).wf(),
            !old(self).is_init() ==> call_requires(old(self).initializer(), ()),
        ensures
            Self::get_step(*old(self), *final(self), *r),
    {
        self.force();
        self.value.as_ref().unwrap()
    }

    /// Write access to the value, produced by the initializer on the first
    /// call.
    pub fn get_mut(&mut self) -> (r: &mut T)
        requires
            old(self).wf(),
            !old(self).is_init() ==> call_requires(old(self).initializer(), ()),
        ensures
            final(self).wf(),
            final(self).is_init(),
            old(self).is_init() ==> *r == old(self).value(),
            !old(self).is_init() ==> call_ensures(old(self).initializer(), (), *r),
            final(self).value() == *final(r),
    {
        self.force();
        self.value.as_mut().unwrap()
    }
}

/// Any run of accesses to one cell calls the initializer at most once, in
/// the first access, and every access gives the same value: from the
/// second access on the cell is initialised and no longer changes.
pub proof fn lemma_initializer_runs_once<T, F: FnOnce() -> T>(
    cells: Seq<Lazy<T, F>>,
    results: Seq<T>,
)
    requires
        results.len() >= 1,
        cells.len() == results.len() + 1,
        forall|i: int|
            0 <= i < results.len() ==> #[trigger] Lazy::get_step(
                cells[i],
                cells[i + 1],
                results[i],
            ),
    ensures
        forall|i: int| 1 <= i < cells.len() ==> #[trigger] cells[i].is_init() && cells[i] == cells[1],
        forall|i: int| 0 <= i < results.len() ==> #[trigger] results[i] == results[0],
    decreases results.len(),
{
    let n: int = results.len() - 1;
    assert(Lazy::<T, F>::get_step(cells[n], cells[n + 1], results[n]));
    if n > 0 {
        let cs = cells.drop_last();
        let rs = results.drop_last();
        assert forall|i: int| 0 <= i < rs.len() implies #[trigger] Lazy::<T, F>::get_step(
            cs[i],
            cs[i + 1],
            rs[i],
        ) by {
            assert(Lazy::<T, F>::get_step(cells[i], cells[i + 1], results[i]));
        }
        lemma_initializer_runs_once(cs, rs);
        assert(cs[n] == cells[n]);
        assert(cells[n].is_init());
        let m: int = n - 1;
        assert(Lazy::<T, F>::get_step(cells[m], cells[m + 1], results[m]));
        assert(rs[m] == results[m]);
        assert(rs[0] == results[0]);
        assert forall|i: int| 1 <= i < cells.len() implies #[trigger] cells[i].is_init()
            && cells[i] == cells[1] by {
            if i < cells.len() - 1 {
                assert(cs[i] == cells[i]);
            }
        }
        assert forall|i: int| 0 <= i < results.len() implies #[trigger] results[i]
            == results[0] by {
            if i < results.len() - 1 {
                assert(rs[i] == results[i]);
            }
        }
    }
}

} // verus!
