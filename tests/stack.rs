use linked_lists::second::List;

#[test]
fn second_it_works() {
    let mut list = List::new();
    list.push(3);
    list.push(2);
    list.push(1);

    assert_eq!(
        "Some(Node { elem: 1, next: Some(Node { elem: 2, next: Some(Node { elem: 3, next: None }) }) })",
        list.to_debug_string()
    );
}

#[test]
fn second_basics() {
    let mut list = List::new();

    // Check empty list behaves right
    assert_eq!(list.pop(), None);

    // Populate list
    list.push(1);
    list.push(2);
    list.push(3);

    // Check peek
    assert_eq!(list.peek(), Some(&3));

    // Check normal removal
    assert_eq!(list.pop(), Some(3));
    assert_eq!(list.pop(), Some(2));

    // Push some more just to make sure nothing's corrupted
    list.push(4);
    list.push(5);

    // Check normal removal
    assert_eq!(list.pop(), Some(5));
    assert_eq!(list.pop(), Some(4));

    // Check exhaustion
    assert_eq!(list.pop(), Some(1));
    assert_eq!(list.pop(), None);
}

#[test]
fn peek() {
    let mut list = List::new();
    assert_eq!(list.peek(), None);
    assert_eq!(list.peek_mut(), None);

    list.push(1);
    list.push(2);
    list.push(3);
    assert_eq!(list.peek(), Some(&3));
    assert_eq!(list.peek_mut(), Some(&mut 3));

    list.peek_mut().map(|value| *value = 42);
    assert_eq!(list.peek(), Some(&42));
    assert_eq!(list.peek_mut(), Some(&mut 42));
}

#[test]
fn into_iter() {
    let mut list = List::new();
    list.push(1);
    list.push(2);
    list.push(3);

    let mut iter = list.into_iter();
    assert_eq!(iter.next(), Some(3));
    assert_eq!(iter.next(), Some(2));
    assert_eq!(iter.next(), Some(1));
    assert_eq!(iter.next(), None);
}

#[test]
fn second_iter() {
    let mut list = List::new();
    list.push(1);
    list.push(2);
    list.push(3);

    let mut iter = list.iter();
    assert_eq!(iter.next(), Some(&3));
    assert_eq!(iter.next(), Some(&2));
    assert_eq!(iter.next(), Some(&1));
    assert_eq!(iter.next(), None);
}

#[test]
fn iter_mut() {
    let mut list = List::new();
    list.push(1);
    list.push(2);
    list.push(3);

    let mut iter = list.iter_mut();
    assert_eq!(iter.next(), Some(&mut 3));
    assert_eq!(iter.next(), Some(&mut 2));
    assert_eq!(iter.next(), Some(&mut 1));
    assert_eq!(iter.next(), None);
}

#[test]
fn second_iter_mut_changes_stay() {
    let mut list = List::new();
    list.push(1);
    list.push(2);

    let mut iter = list.iter_mut();
    if let Some(x) = iter.next() {
        *x = 20;
    }
    if let Some(x) = iter.next() {
        *x = 10;
    }
    assert_eq!(list.pop(), Some(20));
    assert_eq!(list.pop(), Some(10));
    assert_eq!(list.pop(), None);
}

#[test]
fn second_debug_of_empty_and_strings() {
    let mut list: List<String> = List::new();
    assert_eq!(list.to_debug_string(), "None");
    list.push(String::from("a"));
    assert_eq!(list.to_debug_string(), "Some(Node { elem: \"a\", next: None })");
}

#[test]
fn second_long_stack_drops() {
    let mut list = List::new();
    let mut i: u64 = 0;
    while i < 200_000 {
        list.push(i);
        i += 1;
    }
    assert_eq!(list.peek(), Some(&199_999));
    drop(list);
}
