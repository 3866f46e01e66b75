use std::rc::Rc;
use vstd::prelude::*;

verus! {

struct Node<T> {
    elem: T,
    next: Option<Rc<Node<T>>>,
}

/// A persistent singly-linked list whose nodes are shared between lists.
pub struct List<T> {
    head: Option<Rc<Node<T>>>,
}

/// The elements reachable from `link`, first element first.
spec fn chain<T>(link: Option<Rc<Node<T>>>) -> Seq<T>
    decreases link,
{
    match link {
        None => Seq::empty(),
        Some(node) => seq![node.elem] + chain(node.next),
    }
}

impl<T> View for List<T> {
    type V = Seq<T>;

    closed spec fn view(&self) -> Seq<T> {
        chain(self.head)
    }
}

impl<T> List<T> {
    /// The empty list.
    pub fn new() -> (r: Self)
        ensures
            r@ == Seq::<T>::empty(),
    {
        List { head: None }
    }

    /// A new list with `elem` in front of the elements of `self`; `self` is left as it was.
    pub fn append(&self, elem: T) -> (r: Self)
        ensures
            r@ == prepended(self@, elem),
    {
        List { head: Some(Rc::new(Node { elem, next: share(&self.head) })) }
    }

    /// The list without its first element; the empty list stays empty.
    pub fn tail(&self) -> (r: Self)
        ensures
            r@ == rest(self@),
    {
        match &self.head {
            None => List { head: None },
            Some(node) => List { head: share(&node.next) },
        }
    }

    /// The first element, if any.
    pub fn head(&self) -> (r: Option<&T>)
        ensures
            is_first(r, self@),
    {
        match &self.head {
            None => None,
            Some(node) => Some(&node.elem),
        }
    }

    /// Gives up this list's share of its nodes and leaves it empty. Nodes that
    /// nothing else shares are freed one at a time, so that a long chain is
    /// freed without deep recursion; the walk stops at the first node that
    /// another list or node still shares.
    fn release(&mut self)
        ensures
            final(self)@ == Seq::<T>::empty(),
        opens_invariants none
        no_unwind
    {
        let mut cur: Option<Rc<Node<T>>> = None;
        std::mem::swap(&mut cur, &mut self.head);
        loop
            decreases chain(cur).len(),
        {
            match cur {
                None => break,
                Some(node) => match sole_value(node) {
                    Ok(mut only) => {
                        let mut next: Option<Rc<Node<T>>> = None;
                        std::mem::swap(&mut next, &mut only.next);
                        cur = next;
                    },
                    Err(_) => break,
                },
            }
        }
    }

    /// A cursor over the elements, first element first.
    pub fn iter(&self) -> (r: Iter<'_, T>)
        ensures
            r@ == self@,
    {
        match &self.head {
            None => Iter { next: None },
            Some(node) => Iter { next: Some(&**node) },
        }
    }
}

impl<T> Drop for List<T> {
    fn drop(&mut self)
        opens_invariants none
        no_unwind
    {
        self.release();
    }
}

/// A borrowing cursor over the elements of a list.
pub struct Iter<'a, T> {
    next: Option<&'a Node<T>>,
}

impl<'a, T> View for Iter<'a, T> {
    type V = Seq<T>;

    closed spec fn view(&self) -> Seq<T> {
        match self.next {
            None => Seq::empty(),
            Some(node) => seq![node.elem] + chain(node.next),
        }
    }
}

impl<'a, T> Iter<'a, T> {
    /// Hands out the next element and moves past it.
    pub fn next(&mut self) -> (r: Option<&'a T>)
        ensures
            is_first(r, old(self)@),
            final(self)@ == rest(old(self)@),
    {
        match self.next {
            None => None,
            Some(node) => {
                self.next = match &node.next {
                    None => None,
                    Some(n) => Some(&**n),
                };
                Some(&node.elem)
            },
        }
    }
}

/// Another handle on the node that `link` points to, if any.
fn share<T>(link: &Option<Rc<Node<T>>>) -> (r: Option<Rc<Node<T>>>)
    ensures
        r == *link,
{
    match link {
        None => None,
        Some(node) => Some(rc_clone(node)),
    }
}

/// The sequence with `x` in front.
pub open spec fn prepended<T>(s: Seq<T>, x: T) -> Seq<T> {
    seq![x] + s
}

/// The sequence without its first element; the empty sequence stays empty.
pub open spec fn rest<T>(s: Seq<T>) -> Seq<T> {
    if s.len() == 0 {
        s
    } else {
        s.drop_first()
    }
}

/// `r` is the first element of `s`, or nothing where `s` is empty.
pub open spec fn is_first<T>(r: Option<&T>, s: Seq<T>) -> bool {
    match r {
        None => s.len() == 0,
        Some(x) => s.len() > 0 && *x == s[0],
    }
}

/// The list reached by prepending the values of `vs` to `s` one after another,
/// `vs[0]` first.
pub open spec fn prepend_all<T>(s: Seq<T>, vs: Seq<T>) -> Seq<T>
    decreases vs.len(),
{
    if vs.len() == 0 {
        s
    } else {
        prepended(prepend_all(s, vs.drop_last()), vs.last())
    }
}

/// The list reached by taking the tail `k` times.
pub open spec fn tails<T>(s: Seq<T>, k: nat) -> Seq<T>
    decreases k,
{
    if k == 0 {
        s
    } else {
        rest(tails(s, (k - 1) as nat))
    }
}

/// The empty list has no head, its tail is empty, and a cursor over it
/// yields nothing.
pub proof fn lemma_empty_list<T>()
    ensures
        is_first::<T>(None, Seq::empty()),
        forall|x: &T| !is_first(Some(x), Seq::<T>::empty()),
        rest(Seq::<T>::empty()) == Seq::<T>::empty(),
{
}

/// Prepending `v1, ..., vn` in that order to the empty list gives a list whose
/// head is `vn` and whose elements are `vn, ..., v1`.
pub proof fn lemma_prepends_reverse<T>(vs: Seq<T>)
    ensures
        prepend_all(Seq::empty(), vs) == vs.reverse(),
        vs.len() > 0 ==> is_first(Some(&vs.last()), prepend_all(Seq::empty(), vs)),
    decreases vs.len(),
{
    if vs.len() > 0 {
        lemma_prepends_reverse(vs.drop_last());
        assert(prepend_all(Seq::empty(), vs) =~= vs.reverse());
    } else {
        assert(prepend_all(Seq::empty(), vs) =~= vs.reverse());
    }
}

/// Prepending to a list leaves it as it was: the new list holds the new element
/// followed by exactly the old list, which is also the new list's tail.
pub proof fn lemma_prepend_keeps_list<T>(s: Seq<T>, x: T)
    ensures
        rest(prepended(s, x)) == s,
        is_first(Some(&x), prepended(s, x)),
        prepended(s, x).subrange(1, prepended(s, x).len() as int) == s,
{
    assert(prepended(s, x).drop_first() =~= s);
    assert(prepended(s, x).subrange(1, prepended(s, x).len() as int) =~= s);
}

/// Taking the tail past the end keeps giving the empty list.
pub proof fn lemma_tail_past_end<T>(s: Seq<T>, k: nat)
    requires
        k >= s.len(),
    ensures
        tails(s, k) == Seq::<T>::empty(),
    decreases k,
{
    if k > s.len() {
        lemma_tail_past_end(s, (k - 1) as nat);
    } else {
        lemma_tails_drop(s, k);
        assert(s.subrange(k as int, s.len() as int) =~= Seq::<T>::empty());
    }
}

/// Taking the tail `k` times, for `k` up to the length, drops the first `k`
/// elements.
pub proof fn lemma_tails_drop<T>(s: Seq<T>, k: nat)
    requires
        k <= s.len(),
    ensures
        tails(s, k) == s.subrange(k as int, s.len() as int),
    decreases k,
{
    if k == 0 {
        assert(s.subrange(0, s.len() as int) =~= s);
    } else {
        lemma_tails_drop(s, (k - 1) as nat);
        assert(s.subrange(k - 1, s.len() as int).drop_first() =~= s.subrange(
            k as int,
            s.len() as int,
        ));
    }
}

/// Relies on `Rc::clone`: the new pointer points to the same allocation as `v`.
#[verifier::external_body]
fn rc_clone<X>(v: &Rc<X>) -> (r: Rc<X>)
    ensures
        r == *v,
{
    Rc::clone(v)
}


/// Relies on `Rc::try_unwrap`: the value itself where `v` is the only strong
/// pointer to it, else `v` handed back; it neither panics nor opens invariants.
#[verifier::external_body]
fn sole_value<X>(v: Rc<X>) -> (r: Result<X, Rc<X>>)
    ensures
        match r {
            Ok(x) => x == *v,
            Err(w) => w == v,
        },
    opens_invariants none
    no_unwind
{
    Rc::try_unwrap(v)
}

} // verus!
