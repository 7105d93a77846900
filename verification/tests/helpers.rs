use counter_demo::decimal::u64_to_decimal;
use counter_demo::numbers::square_numbers;
use counter_demo::shapes::{draw_shape, print_area, Circle, Rectangle};
use counter_demo::text::{combine_strings, longest, modify_and_return};

#[test]
fn modify_and_return_appends() {
    let owner_string = String::from("Hello, ownership!");
    assert_eq!(modify_and_return(owner_string), "Hello, ownership! Modified");
}

#[test]
fn modify_and_return_on_empty() {
    assert_eq!(modify_and_return(String::new()), " Modified");
}

#[test]
fn combine_strings_keeps_borrows() {
    let string1 = String::from("Hello");
    let string2 = String::from("world!");
    let result = combine_strings(&string1, &string2, "Rust");
    assert_eq!(result, "Hello world! Rust");
    // Both inputs are still available for use after the call.
    assert_eq!(string1, "Hello");
    assert_eq!(string2, "world!");
}

#[test]
fn longest_picks_strictly_longer() {
    assert_eq!(longest("longer", "short"), "longer");
    assert_eq!(longest("tiny", "enormous"), "enormous");
}

#[test]
fn longest_tie_goes_to_second() {
    assert_eq!(longest("Hello", "world"), "world");
}

#[test]
fn square_numbers_one_to_five() {
    let numbers: Vec<i32> = (1..=5).collect();
    assert_eq!(square_numbers(numbers), vec![1, 4, 9, 16, 25]);
}

#[test]
fn square_numbers_negative_and_empty() {
    assert_eq!(square_numbers(vec![-3, 0, 2]), vec![9, 0, 4]);
    assert_eq!(square_numbers(Vec::new()), Vec::<i32>::new());
}

#[test]
fn decimal_rendering() {
    assert_eq!(u64_to_decimal(0), "0");
    assert_eq!(u64_to_decimal(7), "7");
    assert_eq!(u64_to_decimal(10), "10");
    assert_eq!(u64_to_decimal(12345), "12345");
    assert_eq!(u64_to_decimal(u64::MAX), "18446744073709551615");
}

#[test]
fn circle_drawing_and_area() {
    let circle = Circle { radius: 5 };
    assert_eq!(draw_shape(&circle), "Drawing a circle with radius 5");
    assert_eq!(print_area(&circle), "The area of this circle:  25 pi");
    assert_eq!(circle.describe(), "Circle { radius: 5 }");
}

#[test]
fn rectangle_drawing_and_area() {
    let rectangle = Rectangle { width: 4, height: 6 };
    assert_eq!(draw_shape(&rectangle), "Drawing a rectangle with width 4 and height 6");
    assert_eq!(print_area(&rectangle), "The area of this rectangle:  24");
    assert_eq!(rectangle.describe(), "Rectangle { width: 4, height: 6 }");
}
