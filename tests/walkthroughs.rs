use rust_basics::control_flow;
use rust_basics::data_types;
use rust_basics::enums;
use rust_basics::enums::{Coin, UsState};
use rust_basics::functions_in_rust;
use rust_basics::ownership;
use rust_basics::structs;
use rust_basics::text;
use rust_basics::variables_and_mutability;

#[test]
fn integer_text_renders_sign_and_digits() {
    assert_eq!(text::int_to_text(0), "0");
    assert_eq!(text::int_to_text(7), "7");
    assert_eq!(text::int_to_text(1500), "1500");
    assert_eq!(text::int_to_text(-1), "-1");
    assert_eq!(text::int_to_text(i64::MAX), "9223372036854775807");
    assert_eq!(text::int_to_text(i64::MIN), "-9223372036854775808");
    assert_eq!(text::labeled("x = ", 42), "x = 42");
}

#[test]
fn shadowing_lines() {
    assert_eq!(variables_and_mutability::shadow(5), (11, 12));
    assert_eq!(variables_and_mutability::shadow(0), (6, 2));
    assert_eq!(variables_and_mutability::shadow(-3), (3, -4));
    assert_eq!(
        variables_and_mutability::run(),
        vec![
            "The value of x in the inner scope is: 12",
            "The value of x is: 11",
            "3\n",
        ]
    );
}

#[test]
fn conditions_and_divisibility() {
    assert_eq!(control_flow::condition_message(3), "condition was true");
    assert_eq!(control_flow::condition_message(5), "condtion was false");
    assert_eq!(control_flow::divisibility_message(6), "number is divisible by 3");
    assert_eq!(control_flow::divisibility_message(12), "number is divisible by 4");
    assert_eq!(control_flow::divisibility_message(10), "number is divisible by 2");
    assert_eq!(control_flow::divisibility_message(-9), "number is divisible by 3");
    assert_eq!(control_flow::divisibility_message(7), "number is not divisible by 4, 3, or 2");
    assert_eq!(control_flow::divisibility_message(0), "number is divisible by 4");
}

#[test]
fn loops_compute_their_values() {
    assert_eq!(control_flow::double_on_reaching(10), 20);
    assert_eq!(control_flow::double_on_reaching(1), 2);
    let (lines, count) = control_flow::counting_up(0);
    assert_eq!(lines, vec!["count = 0", "remaining = 10"]);
    assert_eq!(count, 0);
    assert_eq!(control_flow::countdown(0), Vec::<String>::new());
    assert_eq!(control_flow::countdown(2), vec!["2!", "1!"]);
    assert_eq!(control_flow::print_elements(&[]), Vec::<String>::new());
    assert_eq!(control_flow::print_elements(&[-4]), vec!["the value is: -4"]);
}

#[test]
fn control_flow_lines() {
    assert_eq!(
        control_flow::run(),
        vec![
            "condition was true",
            "number is divisible by 3",
            "The value of nubmer is: 5",
            "This is a loop, but i'm breaking out so i don't crash",
            "The result is 20",
            "count = 0",
            "remaining = 10",
            "remaining = 9",
            "count = 1",
            "remaining = 10",
            "remaining = 9",
            "count = 2",
            "remaining = 10",
            "End count = 2",
            "3!",
            "2!",
            "1!",
            "LIFTOFF!!!",
            "the value is: 10",
            "the value is: 20",
            "the value is: 30",
            "the value is: 40",
            "the value is: 50",
            "3!",
            "2!",
            "1!",
            "LIFTOFF!!!",
        ]
    );
}

#[test]
fn truncating_division() {
    assert_eq!(data_types::truncated_div(-5, 3), -1);
    assert_eq!(data_types::truncated_div(5, -3), -1);
    assert_eq!(data_types::truncated_div(-7, -2), 3);
    assert_eq!(data_types::truncated_div(i32::MIN, 1), i32::MIN);
    assert_eq!(data_types::truncated_div(i32::MIN, 2), -1073741824);
    assert_eq!(data_types::truncated_rem(43, 5), 3);
    assert_eq!(data_types::truncated_rem(-7, 2), -1);
    assert_eq!(data_types::truncated_rem(7, -2), 1);
    assert_eq!(data_types::truncated_rem(i32::MIN, -1), 0);
    for (a, b) in [(-5, 3), (5, -3), (-7, -2), (43, 5), (0, 9)] {
        assert_eq!(a / b, data_types::truncated_div(a, b));
        assert_eq!(a % b, data_types::truncated_rem(a, b));
    }
}

#[test]
fn month_names() {
    assert_eq!(data_types::month_name(0), "January");
    assert_eq!(data_types::month_name(11), "December");
    assert_eq!(data_types::months().len(), 12);
}

#[test]
fn data_type_lines() {
    let quotient = format!("{}", 56.7_f64 / 32.2_f64);
    let y = format!("{}", 6.4_f64);
    assert_eq!(
        data_types::run(&quotient, &y),
        vec![
            "Numberic Operations\n".to_string(),
            "5 + 10 = 15".to_string(),
            "10 - 5 = 5".to_string(),
            "5 * 10 = 50".to_string(),
            format!("56.7 / 32.2 = {}", 56.7_f64 / 32.2_f64),
            "-5 / 3 = -1".to_string(),
            "43 % 5 = 3".to_string(),
            "\nCompound Types\n".to_string(),
            "The value of y is: 6.4".to_string(),
            "You can also access a tuple by using a .index".to_string(),
            "tup.0: 500".to_string(),
            "\nArrays are stored on the stack. And are fixed sized as a result".to_string(),
            "You can access arrays using the months[0]: January".to_string(),
        ]
    );
}

#[test]
fn measurement_lines() {
    assert_eq!(functions_in_rust::labeled_measurement(5, 'h'), "The measurement is: 5h");
    assert_eq!(functions_in_rust::labeled_measurement(-12, 'é'), "The measurement is: -12é");
    assert_eq!(
        functions_in_rust::run(),
        vec!["The measurement is: 5h", "The value of y is: ()"]
    );
}

#[test]
fn moves_and_borrows() {
    assert_eq!(ownership::greeting(), "hello, world!");
    assert_eq!(ownership::takes_ownership("hi".to_string()), "hi");
    assert_eq!(ownership::makes_copy(-3), "-3");
    assert_eq!(ownership::gives_ownership(), "yours");
    assert_eq!(ownership::takes_and_gives_back("back".to_string()), "back");
    assert_eq!(
        ownership::calculate_length("hello".to_string()),
        ("hello".to_string(), 5)
    );
    assert_eq!(ownership::calculate_length_borrowed(&"héllo".to_string()), 6);
    assert_eq!(ownership::calculate_length_borrowed(&String::new()), 0);
    let mut s = "hello".to_string();
    ownership::change(&mut s);
    assert_eq!(s, "hello, world");
}

#[test]
fn first_word_cases() {
    assert_eq!(ownership::first_word("hello world"), "hello");
    assert_eq!(ownership::first_word("hello"), "hello");
    assert_eq!(ownership::first_word(""), "");
    assert_eq!(ownership::first_word(" leading"), "");
    assert_eq!(ownership::first_word("héllo wörld"), "héllo");
    assert_eq!(ownership::first_word("two  spaces"), "two");
}

#[test]
fn ownership_lines() {
    assert_eq!(
        ownership::run(),
        vec![
            "---- STRINGS ----",
            "hello, world!",
            "s1 = hello, s2 = hello",
            "hello",
            "5",
            "OG: 5",
            "The length of 'hello' is 5.",
        ]
    );
}

#[test]
fn rectangles_and_users() {
    let rect = structs::Rectangle { width: 30, height: 50 };
    let rec2 = structs::Rectangle { width: 40, height: 60 };
    assert_eq!(rect.area(), 1500);
    assert!(rect.width());
    assert!(!structs::Rectangle { width: 0, height: 5 }.width());
    assert!(!rect.can_hold(&rec2));
    assert!(rec2.can_hold(&rect));
    assert!(!rect.can_hold(&rect));
    assert_eq!(structs::Rectangle::square(10), structs::Rectangle { width: 10, height: 10 });
    let user = structs::User::new(true, "mark".to_string(), "me@example.com".to_string(), 1);
    let user2 = user.with_email("you@example.com".to_string());
    assert!(user2.active);
    assert_eq!(user2.username, "mark");
    assert_eq!(user2.email, "you@example.com");
    assert_eq!(user2.sign_in_count, 1);
}

#[test]
fn struct_lines() {
    assert_eq!(
        structs::run(),
        vec![
            "60x50",
            "The area of a rect is 1500 square pixels",
            "The rectangle has a nonzero width; it is 30",
        ]
    );
}

#[test]
fn coins_and_options() {
    assert_eq!(enums::value_in_cents(Coin::Penny), 1);
    assert_eq!(enums::value_in_cents(Coin::Nickel), 5);
    assert_eq!(enums::value_in_cents(Coin::Dime), 10);
    assert_eq!(enums::value_in_cents(Coin::Quarter(UsState::Alaska)), 25);
    assert_eq!(
        enums::quarter_note(Coin::Quarter(UsState::Alabama)),
        Some("State quarter from Alabama!".to_string())
    );
    assert_eq!(enums::quarter_note(Coin::Dime), None);
    assert_eq!(UsState::Alaska.name(), "Alaska");
    assert_eq!(enums::plus_one(Some(5)), Some(6));
    assert_eq!(enums::plus_one(None), None);
    assert_eq!(enums::add_optional(5, Some(5)), Some(10));
    assert_eq!(enums::add_optional(5, None), None);
    assert_eq!(enums::add_optional(-128, Some(127)), Some(-1));
}

#[test]
fn maximum_message_lines() {
    assert_eq!(
        enums::maximum_messages(Some(3)),
        vec!["The maximum is configure to be 3", "The maximum is configured to be 3"]
    );
    assert_eq!(enums::maximum_messages(None), vec!["something else"]);
    assert_eq!(
        enums::maximum_messages(Some(255)),
        vec!["The maximum is configure to be 255", "The maximum is configured to be 255"]
    );
}

#[test]
fn enum_lines() {
    assert_eq!(
        enums::run(),
        vec!["", "10", "The maximum is configure to be 3", "The maximum is configured to be 3"]
    );
}
