//! How a scene walks the children of a container node of the render tree: a cursor moves over
//! the children as widgets draw, a widget past the last child appends one, and dropping the
//! scene sends the cursor back to the first child. Positions and drawing are floating-point
//! and stay with the caller, which keeps the children in the order these functions give.
use vstd::prelude::*;

verus! {

/// The number of children of a container node and the cursor over them.
#[derive(Copy, Clone, Debug, PartialEq, Eq, Structural)]
pub struct ContainerCursor {
    pub len: usize,
    pub cursor: usize,
}

/// What `next` does.
#[derive(Copy, Clone, Debug, PartialEq, Eq, Structural)]
pub enum NextChild {
    /// Draw into the child at this index.
    Visit(usize),
    /// Every child was visited: append a new child and draw into it.
    Append,
    /// The cursor is past the children: nothing to draw into.
    Nothing,
}

/// The cursor never passes the number of children.
pub open spec fn cursor_wf(c: ContainerCursor) -> bool {
    c.cursor <= c.len
}

impl ContainerCursor {
    /// A container node made for a first child: no children yet.
    pub fn new() -> (r: Self)
        ensures
            r == (ContainerCursor { len: 0, cursor: 0 }),
    {
        ContainerCursor { len: 0, cursor: 0 }
    }

    /// Steps to the child under the cursor, if there is one.
    pub fn quick_next(&mut self) -> (r: Option<usize>)
        ensures
            old(self).cursor < old(self).len ==> r == Some(old(self).cursor) && *final(self)
                == (ContainerCursor { cursor: (old(self).cursor + 1) as usize, ..*old(self) }),
            old(self).cursor >= old(self).len ==> r is None && *final(self) == *old(self),
    {
        if self.cursor < self.len {
            let i = self.cursor;
            self.cursor = self.cursor + 1;
            Some(i)
        } else {
            None
        }
    }

    /// The next child a widget draws into: a new one once every child was visited, otherwise
    /// the one under the cursor.
    pub fn next(&mut self) -> (r: NextChild)
        ensures
            old(self).cursor == old(self).len ==> r == NextChild::Append && *final(self)
                == *old(self),
            old(self).cursor < old(self).len ==> r == NextChild::Visit(old(self).cursor)
                && *final(self) == (ContainerCursor {
                cursor: (old(self).cursor + 1) as usize,
                ..*old(self)
            }),
            old(self).cursor > old(self).len ==> r == NextChild::Nothing && *final(self)
                == *old(self),
    {
        if self.len == self.cursor {
            NextChild::Append
        } else {
            match self.quick_next() {
                Some(i) => NextChild::Visit(i),
                None => NextChild::Nothing,
            }
        }
    }

    /// A child was appended; the cursor goes past it. Returns the new child's index.
    pub fn append(&mut self) -> (r: usize)
        requires
            old(self).len < usize::MAX,
        ensures
            r == old(self).len,
            *final(self) == (ContainerCursor {
                len: (old(self).len + 1) as usize,
                cursor: (old(self).len + 1) as usize,
            }),
    {
        self.cursor = self.len + 1;
        self.len = self.len + 1;
        self.len - 1
    }

    /// Keeps the first `size` children; the cursor is brought back to at most the last index
    /// kept.
    pub fn truncate(&mut self, size: usize)
        requires
            size > 0,
        ensures
            final(self).len == if old(self).len < size {
                old(self).len
            } else {
                size
            },
            final(self).cursor == if old(self).cursor < size - 1 {
                old(self).cursor
            } else {
                (size - 1) as usize
            },
    {
        if self.len > size {
            self.len = size;
        }
        if self.cursor > size - 1 {
            self.cursor = size - 1;
        }
    }

    /// The scene drawing into the container is dropped: the next pass starts at the first
    /// child.
    pub fn reset(&mut self)
        ensures
            *final(self) == (ContainerCursor { cursor: 0, ..*old(self) }),
    {
        self.cursor = 0;
    }
}

/// The next child a scene draws into, as a spec.
pub open spec fn next_of(c: ContainerCursor) -> (ContainerCursor, NextChild) {
    if c.cursor == c.len {
        (c, NextChild::Append)
    } else if c.cursor < c.len {
        (ContainerCursor { cursor: (c.cursor + 1) as usize, ..c }, NextChild::Visit(c.cursor))
    } else {
        (c, NextChild::Nothing)
    }
}

/// Every step keeps the cursor within the children; after a reset, `k` calls of `next` visit
/// the children `0, 1, ..., k - 1` in order as long as there are children left.
pub proof fn lemma_cursor_walk(c: ContainerCursor, size: usize)
    requires
        cursor_wf(c),
    ensures
        cursor_wf(next_of(c).0),
        c.len < usize::MAX ==> cursor_wf(
            ContainerCursor { len: (c.len + 1) as usize, cursor: (c.len + 1) as usize },
        ),
        size > 0 ==> cursor_wf(
            ContainerCursor {
                len: if c.len < size {
                    c.len
                } else {
                    size
                },
                cursor: if c.cursor < size - 1 {
                    c.cursor
                } else {
                    (size - 1) as usize
                },
            },
        ),
        cursor_wf(ContainerCursor { cursor: 0, ..c }),
        next_of(c).1 != NextChild::Nothing,
{
}

/// Starting from a reset cursor, the `k`-th call of `next` (counting from 0) visits child `k`
/// while `k` is below the number of children, and appends once they are all visited.
pub proof fn lemma_visits_in_order(len: usize, k: nat)
    requires
        k <= len,
    ensures
        walk(ContainerCursor { len, cursor: 0 }, k) == (ContainerCursor { len, cursor: k as usize }),
        k < len ==> next_of(walk(ContainerCursor { len, cursor: 0 }, k)).1 == NextChild::Visit(
            k as usize,
        ),
        k == len ==> next_of(walk(ContainerCursor { len, cursor: 0 }, k)).1 == NextChild::Append,
    decreases k,
{
    if k > 0 {
        lemma_visits_in_order(len, (k - 1) as nat);
    }
}

/// The cursor after `k` calls of `next`.
pub open spec fn walk(c: ContainerCursor, k: nat) -> ContainerCursor
    decreases k,
{
    if k == 0 {
        c
    } else {
        next_of(walk(c, (k - 1) as nat)).0
    }
}

} // verus!
