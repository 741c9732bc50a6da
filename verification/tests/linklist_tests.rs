use linklist::LinkList;

#[test]
fn test_linklist_new() {
    let linklist = LinkList::<usize>::new();
    assert_eq!(true, linklist.index(0).is_none());
    assert_eq!(0, linklist.len());
}

#[test]
fn test_linklist_from() {
    let list = LinkList::<usize>::from(vec![2, 3, 4]);
    assert_eq!(3, list.len());
    assert_eq!(2, *list.index(0).unwrap());
    assert_eq!(3, *list.index(1).unwrap());
    assert_eq!(4, *list.index(2).unwrap());
    assert_eq!(true, list.index(3).is_none());
}

#[test]
fn test_linklist_len() {
    let mut list = LinkList::<usize>::new();
    assert_eq!(0, list.len());

    list = LinkList::<usize>::from(vec![3, 4, 5]);
    assert_eq!(3, list.len());
}

#[test]
fn test_linklist_index() {
    let list = LinkList::<usize>::from(vec![2, 3, 4, 5]);
    assert_eq!(&2, list.index(0).unwrap());
    assert_eq!(&5, list.index(3).unwrap());
    assert_eq!(true, list.index(4).is_none());
}

#[test]
fn test_linklist_push() {
    let mut list = LinkList::<usize>::new();
    list.push(4);
    assert_eq!(1, list.len());
    assert_eq!(4, *list.index(0).unwrap());

    list.push(5);
    assert_eq!(2, list.len());
    assert_eq!(5, *list.index(1).unwrap());

    list.push(6);
    assert_eq!(3, list.len());
    assert_eq!(6, *list.index(2).unwrap());
}

#[test]
fn test_linklist_pop() {
    let mut list = LinkList::<usize>::new();
    list.push(1);
    list.push(2);
    list.push(3);

    let mut t = list.pop();
    assert_eq!(3, t.unwrap());
    t = list.pop();
    assert_eq!(2, t.unwrap());
    t = list.pop();
    assert_eq!(1, t.unwrap());
    t = list.pop();
    assert_eq!(true, t.is_none());
}
