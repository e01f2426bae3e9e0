//! Singly-linked lists / stacks with heap-allocated nodes: the list threads push onto
//! (one value at a time), and the list its contents are taken out as (all at once).

use vstd::prelude::*;

verus! {

/// A heap-allocated linked list node.
struct LinkedListNode<T> {
    val: T,
    next: Option<Box<LinkedListNode<T>>>,
}

impl<T> LinkedListNode<T> {
    /// Allocates on the heap and returns a linked list node for `val`.
    fn new(val: T) -> (node: Box<Self>)
        ensures
            node.val == val,
            node.next.is_none(),
    {
        Box::new(LinkedListNode { val, next: None })
    }
}

/// The values of the list starting at `head`, head first.
spec fn nodes_view<T>(head: Option<Box<LinkedListNode<T>>>) -> Seq<T>
    decreases head,
{
    match head {
        None => seq![],
        Some(node) => seq![node.val] + nodes_view(node.next),
    }
}

/// A (single-) linked list / stack, pushed onto one value at a time and emptied all at once
/// by [`take`](#method.take).
pub struct AtomicLinkedList<T> {
    head: Option<Box<LinkedListNode<T>>>,
}

impl<T> View for AtomicLinkedList<T> {
    type V = Seq<T>;

    /// The values in the list, most recently pushed first.
    closed spec fn view(&self) -> Seq<T> {
        nodes_view(self.head)
    }
}

impl<T> AtomicLinkedList<T> {
    /// Creates an empty list.
    pub fn new() -> (l: Self)
        ensures
            l@ == Seq::<T>::empty(),
    {
        AtomicLinkedList { head: None }
    }

    /// Pushes `val` to the head of the list.
    pub fn push(&mut self, val: T)
        ensures
            final(self)@ == seq![val] + old(self)@,
    {
        let mut node = LinkedListNode::new(val);
        node.next = self.head.take();
        self.head = Some(node);
    }

    /// Takes all values off the list, leaving it empty.
    ///
    /// Returns the list of the values (or `None` if the list was empty).
    pub fn take(&mut self) -> (list: Option<LinkedList<T>>)
        ensures
            final(self)@ == Seq::<T>::empty(),
            old(self)@.len() == 0 ==> list.is_none(),
            old(self)@.len() > 0 ==> (list matches Some(l) && l@ == old(self)@),
    {
        match self.take_head() {
            Some(head) => Some(LinkedList::new(Some(head))),
            None => None,
        }
    }

    fn take_head(&mut self) -> (head: Option<Box<LinkedListNode<T>>>)
        ensures
            final(self)@ == Seq::<T>::empty(),
            nodes_view(head) == old(self)@,
            head.is_none() <==> old(self)@.len() == 0,
    {
        self.head.take()
    }
}

/// A (single-) linked list, owning its values; returned by [`AtomicLinkedList::take`].
pub struct LinkedList<T> {
    head: Option<Box<LinkedListNode<T>>>,
}

impl<T> View for LinkedList<T> {
    type V = Seq<T>;

    /// The values in the list, head first.
    closed spec fn view(&self) -> Seq<T> {
        nodes_view(self.head)
    }
}

impl<T> LinkedList<T> {
    fn new(head: Option<Box<LinkedListNode<T>>>) -> (l: Self)
        ensures
            l@ == nodes_view(head),
    {
        LinkedList { head }
    }

    /// Returns references to the values in the list, head first.
    pub fn iter(&self) -> (vals: Vec<&T>)
        ensures
            vals@.len() == self@.len(),
            forall|i: int| 0 <= i < vals@.len() ==> *vals@[i] == self@[i],
    {
        let mut vals: Vec<&T> = Vec::new();
        let mut cur: &Option<Box<LinkedListNode<T>>> = &self.head;
        loop
            invariant
                vals@.len() + nodes_view(*cur).len() == self@.len(),
                forall|i: int| 0 <= i < vals@.len() ==> *vals@[i] == self@[i],
                forall|i: int| 0 <= i < nodes_view(*cur).len() ==> nodes_view(*cur)[i] == self@[vals@.len() + i],
            decreases nodes_view(*cur).len(),
        {
            match cur {
                Some(node) => {
                    proof {
                        assert(nodes_view(*cur) == seq![node.val] + nodes_view(node.next));
                        assert(nodes_view(*cur)[0] == node.val);
                        assert forall|i: int| 0 <= i < nodes_view(node.next).len() implies
                            nodes_view(node.next)[i] == self@[vals@.len() + 1 + i] by {
                            assert(nodes_view(node.next)[i] == nodes_view(*cur)[i + 1]);
                        }
                    }
                    vals.push(&node.val);
                    cur = &node.next;
                },
                None => {
                    return vals;
                },
            }
        }
    }

    /// Pops the head value off the list, if any.
    pub fn pop(&mut self) -> (val: Option<T>)
        ensures
            old(self)@.len() == 0 ==> val.is_none() && final(self)@ == old(self)@,
            old(self)@.len() > 0 ==> val == Some(old(self)@[0]) && final(self)@ == old(self)@.drop_first(),
    {
        match self.head.take() {
            Some(node) => {
                let LinkedListNode { val, next } = *node;
                self.head = next;
                proof {
                    assert(old(self)@ == seq![val] + nodes_view(next));
                    assert(old(self)@.drop_first() =~= nodes_view(next));
                }
                Some(val)
            },
            None => None,
        }
    }

    /// Returns an iterator which pops and returns the values from the list, head first.
    pub fn into_iter(self) -> (it: LinkedListIntoIter<T>)
        ensures
            it@ == self@,
    {
        LinkedListIntoIter(self)
    }
}

/// Pops and returns the values from a linked list, head first.
pub struct LinkedListIntoIter<T>(LinkedList<T>);

impl<T> View for LinkedListIntoIter<T> {
    type V = Seq<T>;

    /// The values not yet returned, in order.
    closed spec fn view(&self) -> Seq<T> {
        self.0@
    }
}

impl<T> LinkedListIntoIter<T> {
    /// Pops and returns the next value, if any.
    pub fn next(&mut self) -> (val: Option<T>)
        ensures
            old(self)@.len() == 0 ==> val.is_none() && final(self)@ == old(self)@,
            old(self)@.len() > 0 ==> val == Some(old(self)@[0]) && final(self)@ == old(self)@.drop_first(),
    {
        self.0.pop()
    }
}

/// The values of a list after `vals` are pushed onto one holding `l`, in order.
pub open spec fn spec_push_all<T>(l: Seq<T>, vals: Seq<T>) -> Seq<T>
    decreases vals.len(),
{
    if vals.len() == 0 {
        l
    } else {
        seq![vals.last()] + spec_push_all(l, vals.drop_last())
    }
}

/// A list hands its values back most recently pushed first: after `vals` are pushed in order
/// onto a list holding `l`, it holds `vals` reversed, ahead of `l` (so [`AtomicLinkedList::take`]
/// returns them in that order, each once, and leaves the list empty). No value is lost or
/// duplicated: the list holds exactly the values of `l` and of `vals`.
pub proof fn lemma_push_all<T>(l: Seq<T>, vals: Seq<T>)
    ensures
        spec_push_all(l, vals) == vals.reverse() + l,
        spec_push_all(l, vals).to_multiset() == vals.to_multiset().add(l.to_multiset()),
    decreases vals.len(),
{
    broadcast use vstd::seq_lib::group_to_multiset_ensures;
    if vals.len() > 0 {
        let prev = vals.drop_last();
        lemma_push_all(l, prev);
        assert(vals.reverse() =~= seq![vals.last()] + prev.reverse());
        assert(spec_push_all(l, vals) =~= seq![vals.last()] + (prev.reverse() + l));
        let rest = spec_push_all(l, prev);
        assert(spec_push_all(l, vals) =~= rest.insert(0, vals.last()));
        assert(prev.push(vals.last()) =~= vals);
        assert(spec_push_all(l, vals).to_multiset() =~= vals.to_multiset().add(l.to_multiset()));
    } else {
        assert(vals.reverse() =~= Seq::<T>::empty());
        assert(vals.reverse() + l =~= l);
        assert(vals.to_multiset() =~= vstd::multiset::Multiset::<T>::empty());
        assert(spec_push_all(l, vals).to_multiset() =~= vals.to_multiset().add(l.to_multiset()));
    }
}

} // verus!
