use vstd::prelude::*;

verus! {

/// A window the application knows: its identity, its native handle and the
/// window itself.
pub struct RegisteredWindow<W> {
    pub id: u64,
    pub hwnd: isize,
    pub window: W,
}

/// The windows an application knows, in the order they were added. Several
/// entries may share a handle (windows not created yet share the handle 0).
pub struct WindowRegistry<W> {
    entries: Vec<RegisteredWindow<W>>,
}

/// Whether an entry is kept when the window with identity `id` goes.
pub open spec fn kept_after_removal<W>(id: u64) -> spec_fn(RegisteredWindow<W>) -> bool {
    |e: RegisteredWindow<W>| e.id != id
}

impl<W> View for WindowRegistry<W> {
    type V = Seq<RegisteredWindow<W>>;

    closed spec fn view(&self) -> Seq<RegisteredWindow<W>> {
        self.entries@
    }
}

/// The first position in `entries` whose handle is `hwnd`, if any.
pub open spec fn first_with_hwnd<W>(entries: Seq<RegisteredWindow<W>>, hwnd: isize, found: Option<
    usize,
>) -> bool {
    match found {
        Some(i) => {
            &&& i < entries.len()
            &&& entries[i as int].hwnd == hwnd
            &&& forall|j: int| 0 <= j < i ==> #[trigger] entries[j].hwnd != hwnd
        },
        None => forall|j: int| 0 <= j < entries.len() ==> #[trigger] entries[j].hwnd != hwnd,
    }
}

impl<W> WindowRegistry<W> {
    /// A registry that knows no window.
    pub fn new() -> (r: WindowRegistry<W>)
        ensures
            r@ == Seq::<RegisteredWindow<W>>::empty(),
    {
        WindowRegistry { entries: Vec::new() }
    }

    /// Number of entries.
    pub fn len(&self) -> (n: usize)
        ensures
            n == self@.len(),
    {
        self.entries.len()
    }

    /// Adds a window at the end.
    pub fn push(&mut self, id: u64, hwnd: isize, window: W)
        ensures
            final(self)@ == old(self)@.push(RegisteredWindow { id, hwnd, window }),
    {
        self.entries.push(RegisteredWindow { id, hwnd, window });
    }

    /// The window at position `i`.
    pub fn get(&self, i: usize) -> (w: &W)
        requires
            i < self@.len(),
        ensures
            *w == self@[i as int].window,
    {
        &self.entries[i].window
    }

    /// The identity of the window at position `i`.
    pub fn id_at(&self, i: usize) -> (id: u64)
        requires
            i < self@.len(),
        ensures
            id == self@[i as int].id,
    {
        self.entries[i].id
    }

    /// The position of the first window whose handle is `hwnd`, or `None`
    /// when no window has it.
    pub fn find_window_by_hwnd(&self, hwnd: isize) -> (r: Option<usize>)
        ensures
            first_with_hwnd(self@, hwnd, r),
    {
        let len = self.entries.len();
        let mut n: usize = 0;
        while n < len
            invariant
                len == self@.len(),
                n <= len,
                forall|j: int| 0 <= j < n ==> #[trigger] self@[j].hwnd != hwnd,
            decreases len - n,
        {
            if self.entries[n].hwnd == hwnd {
                return Some(n);
            }
            n = n + 1;
        }
        None
    }

    /// Records the native handle of every entry with identity `id`.
    pub fn set_hwnd(&mut self, id: u64, hwnd: isize)
        ensures
            final(self)@.len() == old(self)@.len(),
            forall|j: int|
                0 <= j < old(self)@.len() ==> {
                    let e = #[trigger] final(self)@[j];
                    let o = old(self)@[j];
                    &&& e.id == o.id
                    &&& e.window == o.window
                    &&& e.hwnd == if o.id == id {
                        hwnd
                    } else {
                        o.hwnd
                    }
                },
    {
        let len = self.entries.len();
        let mut i: usize = 0;
        while i < len
            invariant
                len == self@.len(),
                len == old(self)@.len(),
                i <= len,
                forall|j: int|
                    0 <= j < len ==> {
                        let e = #[trigger] self@[j];
                        let o = old(self)@[j];
                        &&& e.id == o.id
                        &&& e.window == o.window
                        &&& e.hwnd == if o.id == id && j < i {
                            hwnd
                        } else {
                            o.hwnd
                        }
                    },
            decreases len - i,
        {
            if self.entries[i].id == id {
                let e = self.entries.remove(i);
                self.entries.insert(i, RegisteredWindow { id: e.id, hwnd, window: e.window });
            }
            i = i + 1;
        }
    }

    /// Forgets every entry of the window with identity `id`; the others keep
    /// their order.
    pub fn remove_window(&mut self, id: u64)
        ensures
            final(self)@ == old(self)@.filter(kept_after_removal(id)),
    {
        let ghost orig = self@;
        let ghost mut k: int = 0;
        let mut i: usize = 0;
        proof {
            assert(orig.take(0) =~= Seq::<RegisteredWindow<W>>::empty());
            reveal_with_fuel(Seq::filter, 1);
            assert(self@.skip(0) =~= orig.skip(0));
        }
        while i < self.entries.len()
            invariant
                0 <= i <= k <= orig.len(),
                i <= self@.len(),
                self@.take(i as int) == orig.take(k).filter(kept_after_removal(id)),
                self@.skip(i as int) == orig.skip(k),
            decreases orig.len() - k,
        {
            proof {
                assert(self@.skip(i as int).len() == self@.len() - i);
                assert(orig.skip(k).len() == orig.len() - k);
                assert(k < orig.len());
                assert(self@[i as int] == self@.skip(i as int)[0]);
                assert(orig.take(k + 1) =~= orig.take(k).push(orig[k]));
                orig.take(k).lemma_filter_push(orig[k], kept_after_removal(id));
                assert(orig.skip(k)[0] == orig[k]);
            }
            if self.entries[i].id == id {
                let ghost before = self@;
                let _removed = self.entries.remove(i);
                proof {
                    assert(self@.take(i as int) =~= before.take(i as int));
                    assert(self@.skip(i as int) =~= before.skip(i as int).skip(1));
                    assert(orig.skip(k + 1) =~= orig.skip(k).skip(1));
                    k = k + 1;
                }
            } else {
                proof {
                    assert(self@.take(i + 1) =~= self@.take(i as int).push(self@[i as int]));
                    assert(self@.skip(i + 1) =~= self@.skip(i as int).skip(1));
                    assert(orig.skip(k + 1) =~= orig.skip(k).skip(1));
                    k = k + 1;
                }
                i = i + 1;
            }
        }
        proof {
            assert(self@.skip(i as int).len() == 0);
            assert(k == orig.len());
            assert(orig.take(k) =~= orig);
            assert(self@.take(i as int) =~= self@);
        }
    }
}

/// After the window with identity `id` is forgotten no entry carries that
/// identity, and every other entry is kept.
pub proof fn lemma_removal_forgets_only_the_window<W>(entries: Seq<RegisteredWindow<W>>, id: u64)
    ensures
        forall|j: int|
            0 <= j < entries.filter(kept_after_removal(id)).len() ==> #[trigger] entries.filter(
                kept_after_removal(id),
            )[j].id != id,
        forall|j: int|
            0 <= j < entries.len() && #[trigger] entries[j].id != id ==> entries.filter(
                kept_after_removal(id),
            ).contains(entries[j]),
        entries.filter(kept_after_removal(id)).len() <= entries.len(),
{
    broadcast use vstd::seq_lib::group_filter_ensures;

    assert forall|j: int|
        0 <= j < entries.filter(kept_after_removal(id)).len() implies #[trigger] entries.filter(
        kept_after_removal(id),
    )[j].id != id by {
        entries.lemma_filter_pred(kept_after_removal(id), j);
    }
    assert forall|j: int|
        0 <= j < entries.len() && #[trigger] entries[j].id != id implies entries.filter(
        kept_after_removal(id),
    ).contains(entries[j]) by {
        entries.lemma_filter_contains(kept_after_removal(id), j);
    }
    entries.lemma_filter_len(kept_after_removal(id));
}

/// A window added with a handle that no known window has is the window found
/// by that handle: it sits at the end, past every other entry.
pub proof fn lemma_added_window_is_found<W>(entries: Seq<RegisteredWindow<W>>, id: u64, hwnd: isize, window: W)
    requires
        entries.len() < usize::MAX,
        forall|j: int| 0 <= j < entries.len() ==> #[trigger] entries[j].hwnd != hwnd,
    ensures
        first_with_hwnd(
            entries.push(RegisteredWindow { id, hwnd, window }),
            hwnd,
            Some(entries.len() as usize),
        ),
{
    let after = entries.push(RegisteredWindow { id, hwnd, window });
    assert forall|j: int| 0 <= j < entries.len() implies #[trigger] after[j].hwnd != hwnd by {
        assert(after[j] == entries[j]);
    }
}

} // verus!
