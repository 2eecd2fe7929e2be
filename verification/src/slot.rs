use vstd::prelude::*;

verus! {

/// The single cell behind a latest-value store: empty, or the last value published.
pub struct Slot<T> {
    latest: Option<T>,
}

impl<T> View for Slot<T> {
    type V = Option<T>;

    closed spec fn view(&self) -> Option<T> {
        self.latest
    }
}

/// The slot contents once every value of `published` has been set in order,
/// starting from `start`.
pub open spec fn slot_after<T>(start: Option<T>, published: Seq<T>) -> Option<T>
    decreases published.len(),
{
    if published.len() == 0 {
        start
    } else {
        let earlier = slot_after(start, published.drop_last());
        Slot::<T>::replaced(earlier, published.last())
    }
}

impl<T> Slot<T> {
    /// The contents after `value` is published over `previous`: the new value
    /// alone, whatever was there.
    pub open spec fn replaced(previous: Option<T>, value: T) -> Option<T> {
        Some(value)
    }

    /// The slot whose contents are `value`.
    pub closed spec fn holding(value: T) -> Self {
        Slot { latest: Some(value) }
    }

    /// The slot in which nothing has been published.
    pub closed spec fn vacant() -> Self {
        Slot { latest: None }
    }

    /// A slot in which nothing has been published.
    pub fn empty() -> (slot: Self)
        ensures
            slot@ == None::<T>,
    {
        Slot { latest: None }
    }

    /// Overwrites the contents with `value`; the previous value is dropped.
    pub fn publish(&mut self, value: T)
        ensures
            final(self)@ == Self::replaced(old(self)@, value),
    {
        self.latest = Some(value);
    }

    /// A copy of the contents.
    pub fn latest(&self) -> (latest: Option<T>) where T: Copy
        ensures
            latest == self@,
    {
        self.latest
    }
}

/// A slot is nothing more than its contents.
pub proof fn lemma_slot_is_its_contents<T>(slot: Slot<T>)
    ensures
        slot@ matches Some(value) ==> slot == Slot::holding(value),
        slot@ is None ==> slot == Slot::<T>::vacant(),
        forall|value: T| (#[trigger] Slot::holding(value))@ == Some(value),
        Slot::<T>::vacant()@ is None,
{
}

/// A slot never holds anything but what was there at the start or the last
/// value published since: after a run of `set` calls a reader sees one of the
/// published values, whole, and it is the most recent one.
pub proof fn lemma_slot_holds_last_published<T>(start: Option<T>, published: Seq<T>)
    ensures
        published.len() == 0 ==> slot_after(start, published) == start,
        published.len() > 0 ==> slot_after(start, published) == Some(published.last()),
        slot_after(None::<T>, published) matches Some(value) ==> published.contains(value),
        slot_after(None::<T>, published) is None <==> published.len() == 0,
{
    if published.len() > 0 {
        let last = published.last();
        assert(published[published.len() - 1] == last);
    }
}

} // verus!
