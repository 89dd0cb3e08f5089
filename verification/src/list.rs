//! The singly-linked sequence container: an ownership chain of nodes
//! reached from a handle that also maintains a length counter.
//!
//! The abstract model of a list is the `Seq<T>` of its elements in
//! head-to-tail order; every contract is stated over that view.

use vstd::prelude::*;

verus! {

/// One element together with the ownership link to its successor,
/// or to nothing at the tail.
pub(crate) struct Node<T> {
    pub(crate) element: T,
    pub(crate) next: Link<T>,
}

/// An ownership link: either the next node of the chain or the end of it.
pub(crate) type Link<T> = Option<Box<Node<T>>>;

/// The sequence handle: owns the head link and maintains a count of the
/// elements reachable from it.
///
/// The length counter is kept equal to the number of reachable nodes by
/// every operation; in particular a successful positional `delete`
/// decrements it, so the counter never drifts from the content.
pub struct SinglyList<T> {
    head: Link<T>,
    length: usize,
}

/// The elements reachable from a link, in order, as a mathematical sequence.
pub(crate) open spec fn link_view<T>(link: Link<T>) -> Seq<T>
    decreases link,
{
    match link {
        None => Seq::empty(),
        Some(node) => seq![node.element] + link_view(node.next),
    }
}

/// Rebuilds the chain with `element` spliced in as the successor of the
/// node at position `index - 1`; the caller guarantees that this node
/// exists, which makes the splice position `index` of the chain.
fn link_insert<T>(link: Link<T>, index: usize, element: T) -> (res: Link<T>)
    requires
        1 <= index <= link_view(link).len(),
    ensures
        link_view(res) =~= link_view(link).insert(index as int, element),
    decreases link,
{
    match link {
        None => vstd::pervasive::unreached(),
        Some(boxed) => {
            let node = *boxed;
            if index == 1 {
                let spliced = Box::new(Node { element, next: node.next });
                let res = Some(Box::new(Node { element: node.element, next: Some(spliced) }));
                proof {
                    reveal_with_fuel(link_view, 3);
                    assert(link_view(res) =~= link_view(link).insert(1, element));
                }
                res
            } else {
                let rest = link_insert(node.next, index - 1, element);
                let res = Some(Box::new(Node { element: node.element, next: rest }));
                proof {
                    reveal_with_fuel(link_view, 2);
                    assert(link_view(res) =~= link_view(link).insert(index as int, element));
                }
                res
            }
        }
    }
}

/// Rebuilds the chain with the node at position `index` detached; the
/// caller guarantees that both the node at `index - 1` and its successor
/// exist. Returns the new chain and the detached node's element.
fn link_remove<T>(link: Link<T>, index: usize) -> (res: (Link<T>, T))
    requires
        1 <= index < link_view(link).len(),
    ensures
        link_view(res.0) =~= link_view(link).remove(index as int),
        res.1 == link_view(link)[index as int],
    decreases link,
{
    match link {
        None => vstd::pervasive::unreached(),
        Some(boxed) => {
            let node = *boxed;
            if index == 1 {
                match node.next {
                    None => vstd::pervasive::unreached(),
                    Some(detached_boxed) => {
                        let detached = *detached_boxed;
                        let rebuilt = Some(
                            Box::new(Node { element: node.element, next: detached.next }),
                        );
                        (rebuilt, detached.element)
                    }
                }
            } else {
                let (rest, element) = link_remove(node.next, index - 1);
                (Some(Box::new(Node { element: node.element, next: rest })), element)
            }
        }
    }
}

/// Reads the element at position `index` of the chain, or `None` when the
/// chain is shorter than that.
fn link_get<'a, T>(link: &'a Link<T>, index: usize) -> (item: Option<&'a T>)
    ensures
        index < link_view(*link).len() ==> item == Some(&link_view(*link)[index as int]),
        index >= link_view(*link).len() ==> item is None,
    decreases link,
{
    match link {
        None => None,
        Some(node) => {
            if index == 0 {
                Some(&node.element)
            } else {
                link_get(&node.next, index - 1)
            }
        }
    }
}

/// Overwrites the element at position `index` of the chain; the caller
/// guarantees that the position exists. The shape of the chain is kept.
fn link_set<T>(link: &mut Link<T>, index: usize, element: T)
    requires
        index < link_view(*old(link)).len(),
    ensures
        link_view(*final(link)) =~= link_view(*old(link)).update(index as int, element),
    decreases *old(link),
{
    match link.take() {
        None => vstd::pervasive::unreached(),
        Some(mut boxed) => {
            if index == 0 {
                boxed.element = element;
            } else {
                link_set(&mut boxed.next, index - 1, element);
            }
            *link = Some(boxed);
        }
    }
}

impl<T> SinglyList<T> {
    /// The abstract content of the list: its elements in head-to-tail order.
    pub closed spec fn view(&self) -> Seq<T> {
        link_view(self.head)
    }

    /// The maintained length counter, as a mathematical number.
    pub closed spec fn spec_len(&self) -> nat {
        self.length as nat
    }

    /// Well-formedness: the length counter equals the number of reachable
    /// nodes. Established by `new` and preserved by every operation.
    pub open spec fn wf(&self) -> bool {
        self.spec_len() == self.view().len()
    }

    /// An empty sequence: no head node, length zero.
    pub fn new() -> (list: Self)
        ensures
            list.wf(),
            list@ == Seq::<T>::empty(),
    {
        SinglyList { head: None, length: 0 }
    }

    /// Prepends `element` in constant time: a new node owning the current
    /// head chain becomes the head, and the length grows by one.
    pub fn push(&mut self, element: T)
        requires
            old(self).wf(),
            old(self)@.len() < usize::MAX,
        ensures
            final(self).wf(),
            final(self)@ == seq![element] + old(self)@,
    {
        let new_node = Box::new(Node { element, next: self.head.take() });
        self.head = Some(new_node);
        self.length = self.length + 1;
    }

    /// Removes and returns the head element in constant time, or returns
    /// `None` and leaves the list unchanged when it is empty.
    pub fn pop(&mut self) -> (popped: Option<T>)
        requires
            old(self).wf(),
        ensures
            final(self).wf(),
            old(self)@.len() == 0 ==> popped is None && final(self)@ == old(self)@,
            old(self)@.len() > 0 ==> popped == Some(old(self)@[0]) && final(self)@ == old(self)@.drop_first(),
    {
        match self.head.take() {
            None => None,
            Some(head_node) => {
                let node = *head_node;
                self.head = node.next;
                self.length = self.length - 1;
                Some(node.element)
            }
        }
    }

    /// Inserts `element` at position `index` when `index` is at most the
    /// current length: position `0` behaves exactly as `push`, and any
    /// other admissible position splices a new node after the node at
    /// `index - 1`. An `index` beyond the current length is a silent
    /// no-op: nothing is created and nothing changes.
    pub fn insert(&mut self, index: usize, element: T)
        requires
            old(self).wf(),
            index <= old(self)@.len() ==> old(self)@.len() < usize::MAX,
        ensures
            final(self).wf(),
            index <= old(self)@.len() ==> final(self)@ == old(self)@.insert(
                index as int,
                element,
            ),
            index > old(self)@.len() ==> final(self)@ == old(self)@,
    {
        if index == 0 {
            return self.push(element);
        }
        if index <= self.length {
            let head = self.head.take();
            self.head = link_insert(head, index, element);
            self.length = self.length + 1;
        }
    }

    /// Removes and returns the element at position `index`: position `0`
    /// behaves exactly as `pop`, and any other position below the current
    /// length detaches the successor of the node at `index - 1` and
    /// re-links the chain around it, decrementing the length. An `index`
    /// at or beyond the current length returns `None` and changes nothing.
    pub fn delete(&mut self, index: usize) -> (deleted: Option<T>)
        requires
            old(self).wf(),
        ensures
            final(self).wf(),
            index < old(self)@.len() ==> deleted == Some(old(self)@[index as int])
                && final(self)@ == old(self)@.remove(index as int),
            index >= old(self)@.len() ==> deleted is None && final(self)@ == old(self)@,
    {
        if index == 0 {
            let popped = self.pop();
            proof {
                if old(self)@.len() > 0 {
                    assert(self@ =~= old(self)@.remove(0));
                }
            }
            return popped;
        }
        if index < self.length {
            let head = self.head.take();
            let (new_head, element) = link_remove(head, index);
            self.head = new_head;
            self.length = self.length - 1;
            Some(element)
        } else {
            None
        }
    }

    /// The number of elements, as maintained by the length counter.
    pub fn len(&self) -> (n: usize)
        requires
            self.wf(),
        ensures
            n == self@.len(),
    {
        self.length
    }

    /// A borrowed reference to the element at position `index`, or `None`
    /// when the list is shorter than that. The list is not changed.
    pub fn get(&self, index: usize) -> (item: Option<&T>)
        ensures
            index < self@.len() ==> item == Some(&self@[index as int]),
            index >= self@.len() ==> item is None,
    {
        link_get(&self.head, index)
    }

    /// Overwrites the element at position `index` and reports whether a
    /// write happened: the one-position form of exclusive mutable access
    /// to the chain. When the list is shorter than `index + 1`, nothing
    /// changes and `false` is returned.
    pub fn set(&mut self, index: usize, element: T) -> (updated: bool)
        requires
            old(self).wf(),
        ensures
            final(self).wf(),
            index < old(self)@.len() ==> updated && final(self)@ == old(self)@.update(
                index as int,
                element,
            ),
            index >= old(self)@.len() ==> !updated && final(self)@ == old(self)@,
    {
        if index < self.length {
            link_set(&mut self.head, index, element);
            true
        } else {
            false
        }
    }

    /// The head link, for crate-internal walks of the chain.
    pub(crate) fn head_link(&self) -> (link: &Link<T>)
        ensures
            link_view(*link) == self@,
    {
        &self.head
    }

    /// A read-only traversal positioned at the head. Multiple instances
    /// may run against the same list, since none of them mutates it.
    pub fn iter(&self) -> (it: Iter<'_, T>)
        ensures
            it@ == self@,
    {
        let next = match &self.head {
            None => None,
            Some(node) => Some(&**node),
        };
        Iter { next }
    }

    /// An owning traversal: consumes the list and yields its elements in
    /// order by repeatedly detaching the head.
    pub fn into_iter(self) -> (it: IntoIter<T>)
        requires
            self.wf(),
        ensures
            it.wf(),
            it@ == self@,
    {
        IntoIter { next: self }
    }
}

impl<T> Default for SinglyList<T> {
    /// The empty sequence, exactly as `new` builds it.
    fn default() -> (list: Self)
        ensures
            list.wf(),
            list@ == Seq::<T>::empty(),
    {
        SinglyList::new()
    }
}

/// A read-only traversal view: walks the chain head to tail, yielding a
/// borrowed reference to each element without mutating anything.
pub struct Iter<'a, T> {
    next: Option<&'a Node<T>>,
}

impl<'a, T> Iter<'a, T> {
    /// The elements not yet yielded, in order.
    pub closed spec fn view(&self) -> Seq<T> {
        match self.next {
            None => Seq::empty(),
            Some(node) => seq![node.element] + link_view(node.next),
        }
    }

    /// Yields a reference to the next element, or `None` once the
    /// traversal has walked past the tail.
    pub fn next(&mut self) -> (item: Option<&'a T>)
        ensures
            old(self)@.len() == 0 ==> item is None && final(self)@ == old(self)@,
            old(self)@.len() > 0 ==> item == Some(&old(self)@[0]) && final(self)@ == old(
                self,
            )@.drop_first(),
    {
        match self.next {
            None => None,
            Some(node) => {
                self.next = match &node.next {
                    None => None,
                    Some(next_node) => Some(&**next_node),
                };
                Some(&node.element)
            }
        }
    }
}

/// An owning traversal view: holds the remainder of the consumed list and
/// pops its head at every step.
pub struct IntoIter<T> {
    next: SinglyList<T>,
}

impl<T> IntoIter<T> {
    /// The elements not yet yielded, in order.
    pub closed spec fn view(&self) -> Seq<T> {
        self.next@
    }

    /// Well-formedness of the remaining list.
    pub closed spec fn wf(&self) -> bool {
        self.next.wf()
    }

    /// Yields the next element by value, or `None` once the original
    /// list is exhausted.
    pub fn next(&mut self) -> (item: Option<T>)
        requires
            old(self).wf(),
        ensures
            final(self).wf(),
            old(self)@.len() == 0 ==> item is None && final(self)@ == old(self)@,
            old(self)@.len() > 0 ==> item == Some(old(self)@[0]) && final(self)@ == old(
                self,
            )@.drop_first(),
    {
        self.next.pop()
    }
}

} // verus!
