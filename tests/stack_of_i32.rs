use linked_lists::first::List;

#[test]
fn first_it_works() {
    let mut list = List::new();
    list.push(3);
    list.push(2);
    list.push(1);

    assert_eq!("1 -> 2 -> 3 -> ()", list.to_string());
}

#[test]
fn first_basics() {
    let mut list = List::new();

    // Check empty list behaves right
    assert_eq!(list.pop(), None);

    // Populate list
    list.push(1);
    list.push(2);
    list.push(3);

    // Check normal removal
    assert_eq!(list.pop(), Some(3));
    assert_eq!(list.pop(), Some(2));

    // Push some more just to make sure nothing's corrupted
    list.push(4);
    list.push(5);

    // Check normal removal
    assert_eq!(list.pop(), Some(5));
    assert_eq!(list.pop(), Some(4));

    // Check exhaustion
    assert_eq!(list.pop(), Some(1));
    assert_eq!(list.pop(), None);
}

#[test]
fn first_renders_empty_and_negative() {
    let mut list = List::new();
    assert_eq!(list.to_string(), "()");
    list.push(-7);
    list.push(i32::MIN);
    list.push(0);
    assert_eq!(list.to_string(), "0 -> -2147483648 -> -7 -> ()");
}

#[test]
fn first_long_stack_drops() {
    let mut list = List::new();
    let mut i: i32 = 0;
    while i < 200_000 {
        list.push(i);
        i += 1;
    }
    assert_eq!(list.pop(), Some(199_999));
    drop(list);
}
