use primer::pair::{Point, PointWithTwoGenerics};

#[test]
fn x_borrows_the_first_coordinate() {
    let integer = Point { x: 5, y: 10 };
    assert_eq!(*integer.x(), 5);
    let text = Point { x: String::from("left"), y: String::from("right") };
    assert_eq!(text.x(), "left");
    assert!(std::ptr::eq(text.x(), &text.x));
}

#[test]
fn x_is_idempotent() {
    let point = Point { x: 3.0f32, y: 4.0f32 };
    let first = *point.x();
    let second = *point.x();
    let third = *point.x();
    assert_eq!(first, 3.0);
    assert_eq!(first, second);
    assert_eq!(second, third);
    assert_eq!(point.x, 3.0);
    assert_eq!(point.y, 4.0);
}

#[test]
fn mixup_takes_x_from_self_and_y_from_other() {
    let left = PointWithTwoGenerics { x: 5, y: 10.4 };
    let right = PointWithTwoGenerics { x: "Hello", y: 'c' };
    let mixed = left.mixup(right);
    assert_eq!(mixed.x, 5);
    assert_eq!(mixed.y, 'c');
}

#[test]
fn mixup_of_four_different_values() {
    let a = String::from("a");
    let b: u8 = 2;
    let c: Vec<i32> = vec![3];
    let d: Option<bool> = Some(true);
    let mixed = PointWithTwoGenerics { x: a, y: b }.mixup(PointWithTwoGenerics { x: c, y: d });
    assert_eq!(mixed.x, "a");
    assert_eq!(mixed.y, Some(true));
}

#[test]
fn mixup_of_same_types_keeps_positions() {
    let mixed = PointWithTwoGenerics { x: 1, y: 2 }.mixup(PointWithTwoGenerics { x: 3, y: 4 });
    assert_eq!((mixed.x, mixed.y), (1, 4));
}
