use mypaint_rs::add;

#[test]
fn it_works() {
    let result = add(2, 2);
    assert_eq!(result, 4);
}

#[test]
fn add_reaches_the_top_of_the_range() {
    assert_eq!(add(u64::MAX - 1, 1), u64::MAX);
}
