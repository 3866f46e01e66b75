use vstd::prelude::*;
use vstd::string::StringExecFns;

verus! {

/// A stack of `i32` values held in a chain of owned nodes.
pub struct List {
    head: Link,
}

enum Link {
    Empty,
    More(Box<Node>),
}

struct Node {
    elem: i32,
    next: Link,
}

/// The values held by `link`, top first.
spec fn chain(link: Link) -> Seq<i32>
    decreases link,
{
    match link {
        Link::Empty => Seq::empty(),
        Link::More(node) => seq![node.elem] + chain(node.next),
    }
}

impl View for List {
    type V = Seq<i32>;

    closed spec fn view(&self) -> Seq<i32> {
        chain(self.head)
    }
}

/// Moves the chain out of `link`, leaving it empty.
fn take_link(link: &mut Link) -> (r: Link)
    ensures
        r == *old(link),
        *final(link) == Link::Empty,
    opens_invariants none
    no_unwind
{
    let mut r = Link::Empty;
    std::mem::swap(&mut r, link);
    r
}

impl List {
    /// An empty stack.
    pub fn new() -> (r: Self)
        ensures
            r@ == Seq::<i32>::empty(),
    {
        List { head: Link::Empty }
    }

    /// Puts `elem` on top.
    pub fn push(&mut self, elem: i32)
        ensures
            final(self)@ == seq![elem] + old(self)@,
    {
        let new_node = Node { elem, next: take_link(&mut self.head) };
        self.head = Link::More(Box::new(new_node));
    }

    /// Takes the top value off, if there is one.
    pub fn pop(&mut self) -> (r: Option<i32>)
        ensures
            old(self)@.len() == 0 ==> r == None::<i32> && final(self)@ == old(self)@,
            old(self)@.len() > 0 ==> r == Some(old(self)@[0]) && final(self)@ == old(self)@.drop_first(),
    {
        match take_link(&mut self.head) {
            Link::Empty => None,
            Link::More(node) => {
                self.head = node.next;
                Some(node.elem)
            },
        }
    }

    /// Empties the stack one node at a time, so that a long chain is freed
    /// without deep recursion.
    fn release(&mut self)
        ensures
            final(self)@ == Seq::<i32>::empty(),
        opens_invariants none
        no_unwind
    {
        let mut cur = take_link(&mut self.head);
        loop
            decreases chain(cur).len(),
        {
            match cur {
                Link::Empty => break,
                Link::More(mut node) => {
                    cur = take_link(&mut node.next);
                },
            }
        }
    }
}

impl List {
    /// The values top first, each followed by ` -> `, and then `()`:
    /// `1 -> 2 -> 3 -> ()`.
    pub fn to_string(&self) -> (r: String)
        ensures
            r@ == rendered(self@),
    {
        let mut text = String::new();
        let mut cur = &self.head;
        loop
            invariant
                text@ + rendered(chain(*cur)) == rendered(self@),
            decreases chain(*cur).len(),
        {
            match cur {
                Link::Empty => {
                    proof {
                        reveal_strlit("()");
                    }
                    text.append("()");
                    return text;
                },
                Link::More(node) => {
                    let value = decimal_text(node.elem);
                    text.append(value.as_str());
                    proof {
                        reveal_strlit(" -> ");
                    }
                    text.append(" -> ");
                    assert(chain(*cur).drop_first() =~= chain(node.next));
                    assert(rendered(chain(*cur)) == decimal(node.elem as int) + arrow() + rendered(
                        chain(node.next),
                    ));
                    assert(text@ + rendered(chain(node.next)) == rendered(self@));
                    cur = &node.next;
                },
            }
        }
    }
}

/// The decimal digit with value `d`.
pub open spec fn digit_char(d: int) -> char {
    seq!['0', '1', '2', '3', '4', '5', '6', '7', '8', '9'][d]
}

/// The decimal digits of `n`, most significant first, without leading zeros.
pub open spec fn digits(n: nat) -> Seq<char>
    decreases n,
{
    if n < 10 {
        seq![digit_char(n as int)]
    } else {
        digits(n / 10) + seq![digit_char((n % 10) as int)]
    }
}

/// `n` in decimal, with a leading `-` where it is negative.
pub open spec fn decimal(n: int) -> Seq<char> {
    if n < 0 {
        seq!['-'] + digits((-n) as nat)
    } else {
        digits(n as nat)
    }
}

/// The separator that follows each value.
pub open spec fn arrow() -> Seq<char> {
    seq![' ', '-', '>', ' ']
}

/// The text of a stack holding `s`, top first.
pub open spec fn rendered(s: Seq<i32>) -> Seq<char>
    decreases s.len(),
{
    if s.len() == 0 {
        seq!['(', ')']
    } else {
        decimal(s[0] as int) + arrow() + rendered(s.drop_first())
    }
}

/// Relies on `i32`'s `Display` impl, through `to_string`: the decimal digits of
/// `n`, with a leading `-` where it is negative.
#[verifier::external_body]
fn decimal_text(n: i32) -> (r: String)
    ensures
        r@ == decimal(n as int),
{
    n.to_string()
}

impl Drop for List {
    fn drop(&mut self)
        opens_invariants none
        no_unwind
    {
        self.release();
    }
}

} // verus!
