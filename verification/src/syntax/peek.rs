use vstd::prelude::*;

verus! {

/// A sequence that is consumed from the front, with a view of the next two
/// items.
pub struct PeekWithNext<T> {
    pub items: Vec<T>,
    pub position: usize,
}

impl<T> View for PeekWithNext<T> {
    type V = Seq<T>;

    /// The items that are left, the next one first.
    open spec fn view(&self) -> Seq<T> {
        self.items@.skip(self.position as int)
    }
}

impl<T> PeekWithNext<T> {
    /// As many items as were taken are gone, and no more than there were.
    pub open spec fn wf(&self) -> bool {
        self.position <= self.items@.len()
    }

    /// All of `items` are left.
    pub fn new(items: Vec<T>) -> (p: PeekWithNext<T>)
        ensures
            p.wf(),
            p@ == items@,
            p.items == items,
            p.position == 0,
    {
        let p = PeekWithNext { items, position: 0 };
        proof {
            assert(p@ =~= items@);
        }
        p
    }

    /// The next item, if any.
    pub fn peek(&self) -> (r: Option<&T>)
        requires
            self.wf(),
        ensures
            match r {
                Some(x) => self@.len() > 0 && *x == self@[0],
                None => self@.len() == 0,
            },
    {
        if self.position < self.items.len() {
            Some(&self.items[self.position])
        } else {
            None
        }
    }

    /// The item after the next, if any.
    pub fn peek_next(&self) -> (r: Option<&T>)
        requires
            self.wf(),
        ensures
            match r {
                Some(x) => self@.len() > 1 && *x == self@[1],
                None => self@.len() <= 1,
            },
    {
        if self.position < self.items.len() && self.position + 1 < self.items.len() {
            Some(&self.items[self.position + 1])
        } else {
            None
        }
    }
}

impl<T: Copy> PeekWithNext<T> {
    /// Takes the next item, if any.
    pub fn next(&mut self) -> (r: Option<T>)
        requires
            old(self).wf(),
        ensures
            final(self).wf(),
            final(self).items == old(self).items,
            match r {
                Some(x) => old(self)@.len() > 0 && x == old(self)@[0] && final(self)@
                    == old(self)@.drop_first() && final(self).position == old(self).position + 1,
                None => old(self)@.len() == 0 && final(self).position == old(self).position,
            },
    {
        if self.position < self.items.len() {
            let x = self.items[self.position];
            self.position += 1;
            proof {
                assert(self@ =~= old(self)@.drop_first());
            }
            Some(x)
        } else {
            None
        }
    }
}

} // verus!
