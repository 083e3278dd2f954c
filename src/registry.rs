use vstd::prelude::*;

verus! {

/// The table of live checker instances. The handle of an instance is its
/// position: instances are only ever appended, so the handles handed out
/// so far are exactly `0..len`, in order of creation, and none is reused.
pub struct CheckerRegistry<T> {
    checkers: Vec<T>,
}

impl<T> View for CheckerRegistry<T> {
    type V = Seq<T>;

    closed spec fn view(&self) -> Seq<T> {
        self.checkers@
    }
}

/// `h` names a live instance of a registry whose contents are `s`.
pub open spec fn is_handle<T>(s: Seq<T>, h: u64) -> bool {
    h < s.len()
}

impl<T> CheckerRegistry<T> {
    /// An empty registry.
    pub fn new() -> (r: Self)
        ensures
            r@ == Seq::<T>::empty(),
    {
        CheckerRegistry { checkers: Vec::new() }
    }

    /// The number of instances, which is also the next handle.
    pub fn len(&self) -> (r: usize)
        ensures
            r == self@.len(),
    {
        self.checkers.len()
    }

    /// Whether `id` was handed out by `create`.
    pub fn contains(&self, id: u64) -> (r: bool)
        ensures
            r == is_handle(self@, id),
    {
        id < self.checkers.len() as u64
    }

    /// Adds `checker` under the next handle, the current size, and returns
    /// that handle.
    pub fn create(&mut self, checker: T) -> (r: u64)
        ensures
            r == old(self)@.len(),
            final(self)@ == old(self)@.push(checker),
    {
        let id = self.checkers.len() as u64;
        self.checkers.push(checker);
        id
    }

    /// The instance under `id`.
    pub fn get(&self, id: u64) -> (r: &T)
        requires
            is_handle(self@, id),
        ensures
            *r == self@[id as int],
    {
        let n = self.checkers.len();
        assert(id < n);
        let i = id as usize;
        &self.checkers[i]
    }

    /// The instance under `id`, to be changed in place; no other instance
    /// and no handle changes.
    pub fn get_mut(&mut self, id: u64) -> (r: &mut T)
        requires
            is_handle(old(self)@, id),
        ensures
            *r == old(self)@[id as int],
            final(self)@ == old(self)@.update(id as int, *final(r)),
    {
        let n = self.checkers.len();
        assert(id < n);
        let i = id as usize;
        &mut self.checkers[i]
    }
}

/// Creating instances one after another, starting from an empty registry,
/// hands out the handles `0, 1, ..., n - 1` in that order: `states[i]` is the
/// registry before the `i`-th creation, which added `checkers[i]` and
/// returned `handles[i]`.
pub proof fn lemma_handles_in_creation_order<T>(
    states: Seq<Seq<T>>,
    checkers: Seq<T>,
    handles: Seq<u64>,
)
    requires
        states.len() == handles.len() + 1,
        checkers.len() == handles.len(),
        states[0].len() == 0,
        forall|i: int|
            0 <= i < handles.len() ==> {
                &&& #[trigger] handles[i] == states[i].len()
                &&& states[i + 1] == states[i].push(checkers[i])
            },
    ensures
        forall|i: int| 0 <= i < handles.len() ==> handles[i] == i,
        states.last().len() == handles.len(),
{
    let n = handles.len() as int;
    assert forall|i: int| 0 <= i <= n implies #[trigger] states[i].len() == i by {
        lemma_size_after_creations(states, checkers, handles, i);
    }
    assert(states.last() == states[n]);
}

proof fn lemma_size_after_creations<T>(
    states: Seq<Seq<T>>,
    checkers: Seq<T>,
    handles: Seq<u64>,
    k: int,
)
    requires
        states.len() == handles.len() + 1,
        checkers.len() == handles.len(),
        states[0].len() == 0,
        forall|i: int|
            0 <= i < handles.len() ==> {
                &&& #[trigger] handles[i] == states[i].len()
                &&& states[i + 1] == states[i].push(checkers[i])
            },
        0 <= k <= handles.len(),
    ensures
        states[k].len() == k,
    decreases k,
{
    if k > 0 {
        lemma_size_after_creations(states, checkers, handles, k - 1);
        assert(handles[k - 1] == states[k - 1].len());
    }
}

} // verus!
