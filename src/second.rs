use vstd::prelude::*;
use vstd::string::StringExecFns;

verus! {

/// A stack of values held in a chain of owned nodes.
pub struct List<T> {
    head: Option<Box<Node<T>>>,
}

/// One link of the chain: a value and the rest of the chain.
pub struct Node<T> {
    pub elem: T,
    pub next: Option<Box<Node<T>>>,
}

/// The values held by `link`, top first.
pub open spec fn chain<T>(link: Option<Box<Node<T>>>) -> Seq<T>
    decreases link,
{
    match link {
        None => Seq::empty(),
        Some(node) => seq![node.elem] + chain(node.next),
    }
}

impl<T> View for List<T> {
    type V = Seq<T>;

    closed spec fn view(&self) -> Seq<T> {
        chain(self.head)
    }
}

/// The values held by the chain that starts at `node`, top first.
pub open spec fn node_seq<T>(node: Node<T>) -> Seq<T> {
    seq![node.elem] + chain(node.next)
}

/// Moves the chain out of `link`, leaving it empty.
fn take_link<T>(link: &mut Option<Box<Node<T>>>) -> (r: Option<Box<Node<T>>>)
    ensures
        r == *old(link),
        *final(link) == None::<Box<Node<T>>>,
    opens_invariants none
    no_unwind
{
    let mut r = None;
    std::mem::swap(&mut r, link);
    r
}

/// `r` is the first element of `s`, or nothing where `s` is empty.
pub open spec fn is_first<T>(r: Option<&T>, s: Seq<T>) -> bool {
    match r {
        None => s.len() == 0,
        Some(x) => s.len() > 0 && *x == s[0],
    }
}

impl<T> List<T> {
    /// An empty stack.
    pub fn new() -> (r: Self)
        ensures
            r@ == Seq::<T>::empty(),
    {
        List { head: None }
    }

    /// Puts `elem` on top.
    pub fn push(&mut self, elem: T)
        ensures
            final(self)@ == seq![elem] + old(self)@,
    {
        let new_node = Node { elem, next: take_link(&mut self.head) };
        self.head = Some(Box::new(new_node));
    }

    /// Takes the top value off, if there is one.
    pub fn pop(&mut self) -> (r: Option<T>)
        ensures
            old(self)@.len() == 0 ==> r == None::<T> && final(self)@ == old(self)@,
            old(self)@.len() > 0 ==> r == Some(old(self)@[0]) && final(self)@ == old(self)@.drop_first(),
    {
        match take_link(&mut self.head) {
            None => None,
            Some(node) => {
                self.head = node.next;
                Some(node.elem)
            },
        }
    }

    /// The top value, if there is one.
    pub fn peek(&self) -> (r: Option<&T>)
        ensures
            is_first(r, self@),
    {
        match &self.head {
            None => None,
            Some(node) => Some(&node.elem),
        }
    }

    /// The top value, to be changed in place, if there is one.
    pub fn peek_mut(&mut self) -> (r: Option<&mut T>)
        ensures
            match r {
                None => old(self)@.len() == 0 && final(self)@ == old(self)@,
                Some(x) => old(self)@.len() > 0 && *x == old(self)@[0] && final(self)@ == old(
                    self,
                )@.update(0, *final(x)),
            },
    {
        match &mut self.head {
            None => None,
            Some(node) => Some(&mut node.elem),
        }
    }

    /// Empties the stack one node at a time, so that a long chain is freed
    /// without deep recursion.
    fn release(&mut self)
        ensures
            final(self)@ == Seq::<T>::empty(),
        opens_invariants none
        no_unwind
    {
        let mut cur = take_link(&mut self.head);
        loop
            decreases chain(cur).len(),
        {
            match cur {
                None => break,
                Some(mut node) => {
                    cur = take_link(&mut node.next);
                },
            }
        }
    }

    /// Turns the stack into a cursor that hands out its values, top first.
    pub fn into_iter(self) -> (r: IntoIter<T>)
        ensures
            r@ == self@,
    {
        IntoIter(self)
    }

    /// A cursor over the values, top first.
    pub fn iter(&self) -> (r: Iter<'_, T>)
        ensures
            r@ == self@,
    {
        match &self.head {
            None => Iter { next: None },
            Some(node) => Iter { next: Some(&**node) },
        }
    }

    /// A cursor over the values, top first, through which each can be changed
    /// in place.
    pub fn iter_mut(&mut self) -> (r: IterMut<'_, T>)
        ensures
            r@ == old(self)@,
            final(self)@ == match r.next {
                None => Seq::<T>::empty(),
                Some(node) => node_seq(*final(node)),
            },
    {
        match &mut self.head {
            None => IterMut { next: None },
            Some(node) => IterMut { next: Some(&mut **node) },
        }
    }
}

impl<T: std::fmt::Debug> List<T> {
    /// The text `Some(Node { elem: 1, next: Some(Node { elem: 2, next: None }) })`
    /// for a stack holding `1` over `2`: each value's own `Debug` text, nested
    /// from the top down.
    pub fn to_debug_string(&self) -> (r: String)
        ensures
            exists|parts: Seq<Seq<char>>|
                parts.len() == self@.len() && r@ == #[trigger] nested_text(parts),
    {
        let mut text = String::new();
        let ghost mut parts: Seq<Seq<char>> = Seq::empty();
        let mut cur = &self.head;
        loop
            invariant
                parts.len() + chain(*cur).len() == self@.len(),
                text@ == opening(parts),
            ensures
                parts.len() == self@.len(),
                text@ == opening(parts),
            decreases chain(*cur).len(),
        {
            match cur {
                None => break,
                Some(node) => {
                    let value = debug_text(&node.elem);
                    text.append("Some(Node { elem: ");
                    text.append(value.as_str());
                    text.append(", next: ");
                    proof {
                        let before = parts;
                        parts = parts.push(value@);
                        assert(parts.drop_last() =~= before);
                    }
                    cur = &node.next;
                },
            }
        }
        text.append("None");
        let mut cur = &self.head;
        let ghost mut closed: nat = 0;
        loop
            invariant
                closed + chain(*cur).len() == parts.len(),
                text@ == opening(parts) + "None"@ + closing(closed),
            ensures
                text@ == nested_text(parts),
            decreases chain(*cur).len(),
        {
            match cur {
                None => break,
                Some(node) => {
                    text.append(" })");
                    proof {
                        closed = closed + 1;
                    }
                    cur = &node.next;
                },
            }
        }
        assert(text@ == nested_text(parts));
        text
    }
}

/// The text before the innermost `None`: one opening per part, outermost first.
pub open spec fn opening(parts: Seq<Seq<char>>) -> Seq<char>
    decreases parts.len(),
{
    if parts.len() == 0 {
        Seq::empty()
    } else {
        opening(parts.drop_last()) + "Some(Node { elem: "@ + parts.last() + ", next: "@
    }
}

/// The text after the innermost `None`: `n` closings.
pub open spec fn closing(n: nat) -> Seq<char>
    decreases n,
{
    if n == 0 {
        Seq::empty()
    } else {
        closing((n - 1) as nat) + " })"@
    }
}

/// The nested text of a stack whose values have the texts `parts`, top first.
pub open spec fn nested_text(parts: Seq<Seq<char>>) -> Seq<char> {
    opening(parts) + "None"@ + closing(parts.len())
}

/// Relies on `T`'s `Debug` impl, through `format!("{:?}")`: the text of one
/// value. Nothing is stated of that text.
#[verifier::external_body]
fn debug_text<T: std::fmt::Debug>(x: &T) -> (r: String) {
    format!("{:?}", x)
}

impl<T> Drop for List<T> {
    fn drop(&mut self)
        opens_invariants none
        no_unwind
    {
        self.release();
    }
}

/// A cursor that owns the stack and hands out its values, top first.
pub struct IntoIter<T>(List<T>);

impl<T> View for IntoIter<T> {
    type V = Seq<T>;

    closed spec fn view(&self) -> Seq<T> {
        self.0@
    }
}

impl<T> IntoIter<T> {
    /// Hands out the next value and moves past it.
    pub fn next(&mut self) -> (r: Option<T>)
        ensures
            old(self)@.len() == 0 ==> r == None::<T> && final(self)@ == old(self)@,
            old(self)@.len() > 0 ==> r == Some(old(self)@[0]) && final(self)@ == old(self)@.drop_first(),
    {
        self.0.pop()
    }
}

/// A borrowing cursor over the values of a stack.
pub struct Iter<'a, T> {
    next: Option<&'a Node<T>>,
}

impl<'a, T> View for Iter<'a, T> {
    type V = Seq<T>;

    closed spec fn view(&self) -> Seq<T> {
        match self.next {
            None => Seq::empty(),
            Some(node) => seq![node.elem] + chain(node.next),
        }
    }
}

impl<'a, T> Iter<'a, T> {
    /// Hands out the next value and moves past it.
    pub fn next(&mut self) -> (r: Option<&'a T>)
        ensures
            is_first(r, old(self)@),
            old(self)@.len() == 0 ==> final(self)@ == old(self)@,
            old(self)@.len() > 0 ==> final(self)@ == old(self)@.drop_first(),
    {
        match self.next {
            None => None,
            Some(node) => {
                self.next = match &node.next {
                    None => None,
                    Some(n) => Some(&**n),
                };
                Some(&node.elem)
            },
        }
    }
}

/// A cursor over the values of a stack, through which each can be changed in
/// place.
pub struct IterMut<'a, T> {
    pub next: Option<&'a mut Node<T>>,
}

impl<'a, T> View for IterMut<'a, T> {
    type V = Seq<T>;

    /// The values not yet handed out, as they are now.
    closed spec fn view(&self) -> Seq<T> {
        match self.next {
            None => Seq::empty(),
            Some(node) => node_seq(*node),
        }
    }
}

impl<'a, T> IterMut<'a, T> {
    /// Hands out the next value, to be changed in place, and moves past it.
    pub fn next(&mut self) -> (r: Option<&'a mut T>)
        ensures
            match r {
                None => old(self)@.len() == 0 && final(self)@ == old(self)@,
                Some(x) => old(self)@.len() > 0 && *x == old(self)@[0] && final(self)@ == old(
                    self,
                )@.drop_first(),
            },
            match old(self).next {
                None => r is None,
                Some(node) => r matches Some(x) && node_seq(*final(node)) == seq![*final(x)]
                    + match final(self).next {
                    None => Seq::<T>::empty(),
                    Some(rest) => node_seq(*final(rest)),
                },
            },
    {
        let mut cur = None;
        std::mem::swap(&mut cur, &mut self.next);
        match cur {
            None => None,
            Some(node) => {
                self.next = match &mut node.next {
                    None => None,
                    Some(n) => Some(&mut **n),
                };
                Some(&mut node.elem)
            },
        }
    }
}

} // verus!
