use vstd::prelude::*;

verus! {

/// A forward link: the cell it leads to, or nothing at the end of the chain.
type Link<T> = Option<Box<Node<T>>>;

/// One storage cell: an element and the link to the cell that follows it.
struct Node<T> {
    elem: T,
    next: Link<T>,
}

/// An ordered container built from individually boxed cells, each owning its
/// successor. Its abstract value is the sequence of its elements, head first.
///
/// Elements are moved into the list and moved out again; the list never
/// copies, compares or inspects them.
pub struct LinkList<T> {
    len: usize,
    head: Link<T>,
}

/// The elements reachable from `link`, in the order the forward links visit them.
spec fn chain<T>(link: Link<T>) -> Seq<T>
    decreases link,
{
    match link {
        None => Seq::empty(),
        Some(node) => seq![node.elem] + chain(node.next),
    }
}

/// The element that a lookup at position `i` finds in `s`, if there is one.
pub open spec fn lookup<T>(s: Seq<T>, i: int) -> Option<T> {
    if 0 <= i < s.len() {
        Some(s[i])
    } else {
        None
    }
}

/// The element that removing the last one hands out of `s`, if there is one.
pub open spec fn popped<T>(s: Seq<T>) -> Option<T> {
    if s.len() == 0 {
        None
    } else {
        Some(s.last())
    }
}

/// What is left of `s` once its last element has been removed.
pub open spec fn after_pop<T>(s: Seq<T>) -> Seq<T> {
    if s.len() == 0 {
        s
    } else {
        s.drop_last()
    }
}

impl<T> View for LinkList<T> {
    type V = Seq<T>;

    closed spec fn view(&self) -> Seq<T> {
        chain(self.head)
    }
}

impl<T> LinkList<T> {
    /// The stored count is the number of cells reachable from the head, so the
    /// head is absent exactly when the count is zero.
    #[verifier::type_invariant]
    spec fn counted(self) -> bool {
        self.len == chain(self.head).len()
    }

    /// Creates a list that holds nothing.
    pub fn new() -> (list: Self)
        ensures
            list@ == Seq::<T>::empty(),
            list@.len() == 0,
    {
        LinkList { len: 0, head: None }
    }

    /// Creates a list that holds the elements of `items` in their order.
    /// The vector is consumed: its elements are moved into the list.
    pub fn from(items: Vec<T>) -> (list: Self)
        ensures
            list@ == items@,
            list@.len() == items@.len(),
    {
        let ghost wanted = items@;
        assert(wanted.len() == items.len());
        let mut root = Self::new();
        for item in it: items
            invariant
                it.seq() == wanted,
                wanted.len() <= usize::MAX,
                root@ == wanted.take(it.index() as int),
        {
            root.push(item);
        }
        root
    }

    /// The number of elements in the list.
    pub fn len(&self) -> (n: usize)
        ensures
            n == self@.len(),
    {
        proof {
            use_type_invariant(self);
        }
        self.len
    }

    /// A reference to the element at position `i`, counted from the head, or
    /// `None` when `i` is not below the length. The list is walked from the
    /// head, one link per position.
    pub fn index(&self, i: usize) -> (found: Option<&T>)
        ensures
            match found {
                Some(elem) => lookup(self@, i as int) == Some(*elem),
                None => lookup(self@, i as int) is None,
            },
    {
        proof {
            use_type_invariant(self);
        }
        if i >= self.len {
            return None;
        }
        let mut pos: usize = 0;
        let mut iter = &self.head;
        loop
            invariant
                pos <= i < self@.len(),
                chain(*iter) == self@.skip(pos as int),
            decreases i - pos,
        {
            match iter {
                Some(node) => {
                    assert(chain(*iter)[0] == node.elem);
                    if pos == i {
                        return Some(&node.elem);
                    }
                    assert(chain(node.next) =~= chain(*iter).skip(1));
                    pos += 1;
                    iter = &node.next;
                },
                None => {
                    // Not reached: `i` is below the count, so a cell stands here.
                    return None;
                },
            }
        }
    }

    /// Appends `elem` behind the current last element. No link to the last
    /// cell is kept, so the chain is walked from the head each time.
    pub fn push(&mut self, elem: T)
        requires
            old(self)@.len() < usize::MAX,
        ensures
            final(self)@ == old(self)@.push(elem),
            final(self)@.len() == old(self)@.len() + 1,
            final(self)@.last() == elem,
    {
        proof {
            use_type_invariant(&*self);
        }
        let node = Box::new(Node { elem, next: None });
        attach_last(&mut self.head, &mut self.len, node);
    }

    /// Removes the last element and hands it out; on an empty list nothing
    /// changes and the result is `None`. The chain is walked from the head to
    /// find the last cell.
    pub fn pop(&mut self) -> (last: Option<T>)
        ensures
            last == popped(old(self)@),
            final(self)@ == after_pop(old(self)@),
    {
        proof {
            use_type_invariant(&*self);
        }
        detach_last(&mut self.head, &mut self.len)
    }
}

impl<T> Drop for LinkList<T> {
    /// Releases the cells one at a time, head first, so that no cell's release
    /// sets off the release of the cell behind it. When it is done the head
    /// leads nowhere: no cell is left for the release of the fields to reach.
    fn drop(&mut self)
        ensures
            final(self)@ == Seq::<T>::empty(),
        opens_invariants none
        no_unwind
    {
        unlink_all(&mut self.head, &mut self.len);
    }
}

/// Walks to the end of the chain under `head`, hangs `node` there and counts it.
///
/// The walk starts at the head link itself, so an empty chain and a chain of
/// one cell need no case of their own. The cell is allocated by the caller:
/// nothing here can unwind and leave the count and the chain apart.
fn attach_last<T>(head: &mut Link<T>, len: &mut usize, node: Box<Node<T>>)
    requires
        *old(len) == chain(*old(head)).len(),
        *old(len) < usize::MAX,
        node.next is None,
    ensures
        chain(*final(head)) == chain(*old(head)).push(node.elem),
        *final(len) == *old(len) + 1,
    no_unwind
{
    let ghost before = chain(*head);
    let ghost after = *final(head);
    // `passed` holds the elements of the cells that the cursor has left behind.
    // Whatever ends up under the cursor, the finished chain is `passed`
    // followed by that.
    let ghost mut passed: Seq<T> = Seq::empty();
    let mut cur = &mut *head;
    loop
        invariant
            passed + chain(*cur) == before,
            chain(after) == passed + chain(*final(cur)),
        ensures
            *cur is None,
        decreases chain(*cur).len(),
    {
        match cur {
            Some(here) => {
                proof {
                    passed = passed.push(here.elem);
                }
                cur = &mut here.next;
            },
            None => {
                break;
            },
        }
    }
    *cur = Some(node);
    *len = *len + 1;
}

/// Walks to the last cell of the chain under `head`, unhooks it, counts it out
/// and hands out its element; an empty chain is left as it is.
///
/// The cursor stops on the link that leads to the last cell, which is the head
/// link when the chain has one cell, and the `next` of the cell before the last
/// when it has more.
fn detach_last<T>(head: &mut Link<T>, len: &mut usize) -> (last: Option<T>)
    requires
        *old(len) == chain(*old(head)).len(),
    ensures
        last == popped(chain(*old(head))),
        chain(*final(head)) == after_pop(chain(*old(head))),
        *final(len) == chain(*final(head)).len(),
    no_unwind
{
    let ghost before = chain(*head);
    let ghost after = *final(head);
    let ghost mut passed: Seq<T> = Seq::empty();
    let mut cur = &mut *head;
    loop
        invariant
            passed + chain(*cur) == before,
            chain(after) == passed + chain(*final(cur)),
            passed.len() > 0 ==> *cur is Some,
        ensures
            chain(*cur).len() <= 1,
        decreases chain(*cur).len(),
    {
        let at_tail = match &*cur {
            Some(here) => match &here.next {
                Some(_) => false,
                None => true,
            },
            None => true,
        };
        if at_tail {
            assert(*cur matches Some(here) ==> chain(here.next) =~= Seq::<T>::empty());
            break;
        }
        match cur {
            Some(here) => {
                proof {
                    passed = passed.push(here.elem);
                }
                cur = &mut here.next;
            },
            None => {},
        }
    }
    let mut tail: Link<T> = None;
    core::mem::swap(cur, &mut tail);
    match tail {
        Some(node) => {
            *len = *len - 1;
            let cell = *node;
            Some(cell.elem)
        },
        None => {
            None
        },
    }
}

/// Empties the chain under `head` cell by cell: each cell is cut off from its
/// successor before it is released.
fn unlink_all<T>(head: &mut Link<T>, len: &mut usize)
    ensures
        *final(head) is None,
        *final(len) == 0,
    opens_invariants none
    no_unwind
{
    let mut cur_link: Link<T> = None;
    core::mem::swap(head, &mut cur_link);
    *len = 0;
    loop
        invariant
            *head is None,
            *len == 0,
        decreases chain(cur_link).len(),
    {
        match cur_link {
            Some(mut boxed_node) => {
                let mut next: Link<T> = None;
                core::mem::swap(&mut boxed_node.next, &mut next);
                cur_link = next;
            },
            None => {
                break;
            },
        }
    }
}

} // verus!
