use local_async_utils::shared::Busy;
use local_async_utils::shared::LocalShared;
use local_async_utils::shared::Shared;

#[test]
fn test_local_shared() {
    let mut shared = LocalShared::new(5);

    shared
        .with(|data| {
            *data += 1;
        })
        .unwrap();

    let mut shared_clone = shared.clone();
    let result = shared_clone.with(|data| *data).unwrap();
    assert_eq!(result, 6);
}

#[test]
fn test_projected_shared() {
    let mut shared = LocalShared::new((1, 2));
    let mut projected = shared.project(|data: &mut (i32, i32)| &mut data.0);

    projected
        .with(|data| {
            *data += 10;
        })
        .unwrap();

    let result = shared.with(|data| data.0).unwrap();
    assert_eq!(result, 11);
}

#[test]
fn rc_ref_cell_is_a_capability() {
    let mut shared_data = std::rc::Rc::new(std::cell::RefCell::new(vec![1, 2, 3]));

    shared_data.with(|data| data.push(42)).unwrap();

    let copy: Vec<_> = shared_data.clone().with(|data| data.clone()).unwrap();

    assert_eq!(copy, vec![1, 2, 3, 42]);
}

#[test]
fn local_shared_clones_reach_the_same_value() {
    let first = LocalShared::new(String::from("a"));
    let second = first.clone();

    assert_eq!(first.access(|text| text.push('b')), Some(()));
    assert_eq!(second.access(|text| text.push('c')), Some(()));

    assert_eq!(first.access(|text| text.clone()), Some(String::from("abc")));
    assert_eq!(second.access_with(3, |text, extra| text.len() + extra), Ok(6));
}

#[test]
fn projection_of_a_projection() {
    let shared = LocalShared::new(((1, 2), 3));
    let outer = shared.project(|data: &mut ((i32, i32), i32)| &mut data.0);
    let mut inner = outer.project(|pair: &mut (i32, i32)| &mut pair.1);
    let mut inner_clone = inner.clone();

    assert_eq!(inner.with(|value| *value += 40), Some(()));
    assert_eq!(inner_clone.with(|value| *value), Some(42));
    assert_eq!(shared.access(|data| *data), Some(((1, 42), 3)));
}

#[test]
fn nested_access_is_refused_without_a_trap() {
    let mut shared = LocalShared::new(5);
    let mut inside = shared.clone();

    let outcome = shared.with(|data| {
        *data += 1;
        // The value is in use: the access from inside is not let in.
        let nested = inside.with(|again| *again += 100);
        let handed_back = inside.access_with(String::from("kept"), |again, text| {
            *again += 1000;
            text.len()
        });
        (nested, handed_back, *data)
    });

    assert_eq!(outcome, Some((None, Err(Busy(String::from("kept"))), 6)));

    // The access is released on return: a later one is let in, and finds what
    // the outer callback left.
    assert_eq!(shared.with(|data| *data), Some(6));
    assert_eq!(inside.with(|data| *data), Some(6));
}

#[test]
fn nested_access_through_a_projection_is_refused() {
    let mut shared = LocalShared::new((1, 2));
    let mut projected = shared.project(|data: &mut (i32, i32)| &mut data.1);

    let outcome = shared.with(|data| {
        data.0 = 10;
        projected.with(|second| *second = 20)
    });

    assert_eq!(outcome, Some(None));
    assert_eq!(shared.with(|data| *data), Some((10, 2)));
    assert_eq!(projected.with(|second| *second), Some(2));
}

#[test]
fn access_to_another_value_from_inside_is_let_in() {
    let mut first = LocalShared::new(1);
    let mut second = LocalShared::new(2);

    let sum = first.with(|a| second.with(|b| *a + *b));
    assert_eq!(sum, Some(Some(3)));
}
