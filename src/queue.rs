use vstd::prelude::*;

verus! {

/// Queue with `i` and `i + 1` exchanged (`i + 1 < s.len()`).
pub open spec fn swap_adjacent(s: Seq<String>, i: int) -> Seq<String> {
    s.update(i, s[i + 1]).update(i + 1, s[i])
}

/// What `move_up(i)` makes of the queue `s`.
pub open spec fn moved_up(s: Seq<String>, i: int) -> Seq<String> {
    if 0 < i < s.len() {
        swap_adjacent(s, i - 1)
    } else {
        s
    }
}

/// What `move_down(i)` makes of the queue `s`.
pub open spec fn moved_down(s: Seq<String>, i: int) -> Seq<String> {
    if 0 <= i && i + 1 < s.len() {
        swap_adjacent(s, i)
    } else {
        s
    }
}

/// What `remove(i)` makes of the queue `s`.
pub open spec fn removed(s: Seq<String>, i: int) -> Seq<String> {
    if 0 <= i < s.len() {
        s.remove(i)
    } else {
        s
    }
}

/// An ordered queue of URLs; index 0 is the head.
pub struct AsyncQueue {
    queue: Vec<String>,
}

impl View for AsyncQueue {
    type V = Seq<String>;

    closed spec fn view(&self) -> Seq<String> {
        self.queue@
    }
}

impl AsyncQueue {
    pub fn new() -> (r: Self)
        ensures
            r@ == Seq::<String>::empty(),
    {
        AsyncQueue { queue: Vec::new() }
    }

    /// Appends `url` at the tail.
    pub fn push(&mut self, url: String)
        ensures
            final(self)@ == old(self)@.push(url),
    {
        self.queue.push(url);
    }

    /// Takes the head, if there is one.
    pub fn pop(&mut self) -> (r: Option<String>)
        ensures
            old(self)@.len() == 0 ==> r.is_none() && final(self)@ == old(self)@,
            old(self)@.len() > 0 ==> r == Some(old(self)@[0]) && final(self)@ == old(self)@.drop_first(),
    {
        if self.queue.len() == 0 {
            None
        } else {
            Some(self.queue.remove(0))
        }
    }

    pub fn len(&self) -> (r: usize)
        ensures
            r == self@.len(),
    {
        self.queue.len()
    }

    /// Exchanges the entry at `index` with the one before it; a no-op for the
    /// head and for an index out of range.
    pub fn move_up(&mut self, index: usize)
        ensures
            final(self)@ == moved_up(old(self)@, index as int),
    {
        let len = self.queue.len();
        if len < 2 || index == 0 || index > len - 1 {
            return;
        }
        let a = self.queue[index - 1].clone();
        let b = self.queue[index].clone();
        self.queue.set(index, a);
        self.queue.set(index - 1, b);
        assert(self@ =~= moved_up(old(self)@, index as int));
    }

    /// Exchanges the entry at `index` with the one after it; a no-op for the
    /// tail and for an index out of range.
    pub fn move_down(&mut self, index: usize)
        ensures
            final(self)@ == moved_down(old(self)@, index as int),
    {
        let len = self.queue.len();
        if len < 2 || index > len - 2 {
            return;
        }
        let a = self.queue[index + 1].clone();
        let b = self.queue[index].clone();
        self.queue.set(index, a);
        self.queue.set(index + 1, b);
        assert(self@ =~= moved_down(old(self)@, index as int));
    }

    /// Removes the entry at `index`; a no-op for an index out of range.
    pub fn remove(&mut self, index: usize)
        ensures
            final(self)@ == removed(old(self)@, index as int),
    {
        let len = self.queue.len();
        if len == 0 || index > len - 1 {
            return;
        }
        self.queue.remove(index);
    }

    /// An independent copy of the queue, head first.
    pub fn contents(&self) -> (r: Vec<String>)
        ensures
            r@ == self@,
    {
        let mut r: Vec<String> = Vec::new();
        let mut i: usize = 0;
        while i < self.queue.len()
            invariant
                i <= self.queue@.len(),
                r@ == self.queue@.subrange(0, i as int),
            decreases self.queue@.len() - i,
        {
            r.push(self.queue[i].clone());
            i += 1;
            assert(r@ =~= self.queue@.subrange(0, i as int));
        }
        assert(r@ =~= self.queue@);
        r
    }
}

} // verus!
