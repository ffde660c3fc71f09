use primer::maximum::{largest, EmptyInputError};
use std::cmp::Ordering;

#[test]
fn largest_of_numbers() {
    let number_list: Vec<i32> = vec![34, 50, 25, 100, 65];
    assert_eq!(largest(&number_list), Ok(100));
}

#[test]
fn largest_of_chars() {
    let char_list: Vec<char> = vec!['y', 'm', 'a', 'q'];
    assert_eq!(largest(&char_list), Ok('y'));
}

#[test]
fn largest_of_nothing_is_an_error() {
    let empty: Vec<i32> = Vec::new();
    assert_eq!(largest(&empty), Err(EmptyInputError));
    let no_chars: [char; 0] = [];
    assert_eq!(largest(&no_chars), Err(EmptyInputError));
}

#[test]
fn largest_of_one() {
    assert_eq!(largest(&[7u8]), Ok(7));
    assert_eq!(largest(&[i64::MIN]), Ok(i64::MIN));
}

#[test]
fn largest_at_either_end() {
    assert_eq!(largest(&[9u32, 1, 2, 3]), Ok(9));
    assert_eq!(largest(&[1u32, 2, 3, 9]), Ok(9));
    assert_eq!(largest(&[-5i32, -1, -9]), Ok(-1));
}

#[test]
fn largest_leaves_the_input_alone() {
    let list: Vec<i32> = vec![3, 8, 8, 1];
    let found = largest(&list);
    assert_eq!(found, Ok(8));
    assert_eq!(list, vec![3, 8, 8, 1]);
}

#[derive(Clone, Copy, Debug)]
struct Tagged {
    key: u32,
    tag: u32,
}

impl PartialEq for Tagged {
    fn eq(&self, other: &Tagged) -> bool {
        self.key == other.key
    }
}

impl PartialOrd for Tagged {
    fn partial_cmp(&self, other: &Tagged) -> Option<Ordering> {
        self.key.partial_cmp(&other.key)
    }
}

#[test]
fn largest_keeps_the_first_of_equal_maxima() {
    let list = [
        Tagged { key: 2, tag: 0 },
        Tagged { key: 7, tag: 1 },
        Tagged { key: 7, tag: 2 },
        Tagged { key: 1, tag: 3 },
        Tagged { key: 7, tag: 4 },
    ];
    let found = largest(&list).unwrap();
    assert_eq!(found.key, 7);
    assert_eq!(found.tag, 1);
}

#[test]
fn largest_of_floats() {
    assert_eq!(largest(&[1.5f64, -2.0, 9.25, 3.0]), Ok(9.25));
}

#[test]
fn largest_settles_by_scanning_when_values_do_not_compare() {
    let seeded_with_nan = largest(&[f64::NAN, 1.0, 2.0]).unwrap();
    assert!(seeded_with_nan.is_nan());
    assert_eq!(largest(&[1.0, f64::NAN, 2.0]), Ok(2.0));
}
