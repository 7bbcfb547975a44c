use basic_learning::common_concept::{array_to_csv, join_csv};
use basic_learning::compound_type::struct_test::create_user;
use basic_learning::decimal::{i32_to_string, u32_to_string, u64_to_string, u8_to_string};
use basic_learning::match_pattern::all_patterns::{e, i, Point};
use basic_learning::match_pattern::if_let;
use basic_learning::match_pattern::match_test::{
    odd_name, odd_name_or_number, value_in_cents, Coin, Direction, UsState,
};
use basic_learning::match_pattern::option::plus_one;
use basic_learning::method::definition::Rectangle;
use basic_learning::ownership::first_word;

#[test]
fn decimal_of_unsigned_numbers() {
    assert_eq!(u8_to_string(0), "0");
    assert_eq!(u8_to_string(9), "9");
    assert_eq!(u8_to_string(10), "10");
    assert_eq!(u8_to_string(100), "100");
    assert_eq!(u8_to_string(255), "255");
    assert_eq!(u32_to_string(4_294_967_295), "4294967295");
    assert_eq!(u64_to_string(u64::MAX), "18446744073709551615");
    assert_eq!(u64_to_string(1000), "1000");
    for v in 0u32..2000 {
        assert_eq!(u32_to_string(v), v.to_string());
    }
}

#[test]
fn decimal_of_signed_numbers() {
    assert_eq!(i32_to_string(0), "0");
    assert_eq!(i32_to_string(-1), "-1");
    assert_eq!(i32_to_string(-10), "-10");
    assert_eq!(i32_to_string(i32::MIN), "-2147483648");
    assert_eq!(i32_to_string(i32::MAX), "2147483647");
    for v in -300i32..300 {
        assert_eq!(i32_to_string(v), v.to_string());
    }
}

#[test]
fn csv_of_lists() {
    assert_eq!(array_to_csv(&[1, 2, 3, 4, 5]), "1,2,3,4,5");
    assert_eq!(array_to_csv(&["1", "2", "3"]), "1,2,3");
    assert_eq!(array_to_csv(&[3; 5]), "3,3,3,3,3");
    assert_eq!(array_to_csv(&[1, 2, 3, 4, 5, 6, 7, 8, 9]), "1,2,3,4,5,6,7,8,9");
    assert_eq!(array_to_csv(&[7]), "7");
    let none: [u8; 0] = [];
    assert_eq!(array_to_csv(&none), "");
    assert_eq!(array_to_csv(&["", ""]), ",");
    assert_eq!(array_to_csv(&["a,b", "c"]), "a,b,c");
}

#[test]
fn join_of_strings() {
    assert_eq!(join_csv(&Vec::new()), "");
    assert_eq!(join_csv(&vec!["a".to_string()]), "a");
    assert_eq!(join_csv(&vec!["a".to_string(), "b".to_string(), "c".to_string()]), "a,b,c");
    assert_eq!(join_csv(&vec![String::new(), String::new(), String::new()]), ",,");
}

#[test]
fn new_user_is_active_and_signed_in_once() {
    let user = create_user("20482048@email.cc".to_string(), "init name".to_string());
    assert_eq!(user.email, "20482048@email.cc");
    assert_eq!(user.username, "init name");
    assert!(user.active);
    assert_eq!(user.sign_in_count, 1);
}

#[test]
fn destructuring_holds() {
    e();
    i();
    let Point { x, y } = Point { x: 0, y: 7 };
    assert_eq!((x, y), (0, 7));
}

#[test]
fn three_is_told_apart() {
    assert_eq!(if_let::func(3), 1);
    assert_eq!(if_let::func(4), 10);
    assert_eq!(if_let::func(-3), 10);
    assert_eq!(if_let::run(), 10);
}

#[test]
fn directions_and_coins() {
    assert_eq!(Direction::East.name(), "East");
    assert_eq!(Direction::West.name(), "West");
    assert_eq!(Direction::North.name(), "South or North");
    assert_eq!(Direction::South.name(), "South or North");
    assert_eq!(value_in_cents(Coin::Penny), 1);
    assert_eq!(value_in_cents(Coin::Nickel), 5);
    assert_eq!(value_in_cents(Coin::Dime), 10);
    assert_eq!(value_in_cents(Coin::Quarter(UsState::Alaska)), 25);
    assert_eq!(value_in_cents(Coin::Quarter(UsState::Alabama)), 25);
}

#[test]
fn odd_names() {
    assert_eq!(odd_name(1), "one");
    assert_eq!(odd_name(3), "three");
    assert_eq!(odd_name(5), "five");
    assert_eq!(odd_name(7), "seven");
    assert_eq!(odd_name(88), "else");
    assert_eq!(odd_name(0), "else");
    assert_eq!(odd_name_or_number(1), "one");
    assert_eq!(odd_name_or_number(3), "three");
    assert_eq!(odd_name_or_number(5), "five");
    assert_eq!(odd_name_or_number(7), "seven");
    assert_eq!(odd_name_or_number(88), "其他数值: 88");
    assert_eq!(odd_name_or_number(0), "其他数值: 0");
}

#[test]
fn missing_number_counts_as_zero() {
    assert_eq!(plus_one(Some(1)), 1);
    assert_eq!(plus_one(Some(5)), 5);
    assert_eq!(plus_one(None), 0);
    assert_eq!(plus_one(Some(-7)), -7);
}

#[test]
fn rectangle_methods() {
    let rect = Rectangle::new(30, 50);
    assert_eq!(rect.width(), "30px");
    assert_eq!(rect.width, 30);
    assert_eq!(rect.height, 50);
    assert_eq!(rect.area(), 1500);
    assert_eq!(Rectangle::new(65535, 65537).area(), 4_294_967_295);
    assert_eq!(Rectangle::new(0, u32::MAX).area(), 0);
    assert_eq!(Rectangle::new(0, 1).width(), "0px");
    let rect1 = Rectangle { width: 30, height: 50 };
    let rect2 = Rectangle { width: 10, height: 40 };
    let rect3 = Rectangle { width: 60, height: 45 };
    assert!(rect1.can_hold(&rect2));
    assert!(!rect1.can_hold(&rect3));
    assert!(!rect1.can_hold(&rect1));
    assert!(!rect1.can_hold(&Rectangle::new(29, 50)));
}

#[test]
fn first_word_of_a_sentence() {
    assert_eq!(first_word("Hello world"), "Hello");
    assert_eq!(first_word("Hello"), "Hello");
    assert_eq!(first_word(""), "");
    assert_eq!(first_word(" leading"), "");
    assert_eq!(first_word("two  spaces"), "two");
    assert_eq!(first_word("你好 世界"), "你好");
    assert_eq!(first_word("tab\tis no space"), "tab\tis");
    assert_eq!(first_word("a b c"), "a");
}
