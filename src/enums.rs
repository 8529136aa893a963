//! Enums with and without data, `Option`, and pattern matching.
use vstd::prelude::*;
use crate::text::{append_lines, int_text, labeled, push_int, texts};

verus! {

/// The two versions of IP address.
#[derive(Debug, Clone, Copy, PartialEq, Eq, Structural)]
pub enum IpAddrKind {
    V4,
    V6,
}

/// An address as a kind beside its text.
#[derive(Debug)]
pub struct IpAddr {
    pub kind: IpAddrKind,
    pub address: String,
}

/// An address whose variant carries its text.
#[derive(Debug)]
pub enum IpAddress {
    V4(String),
    V6(String),
}

/// Variants with no data, named fields, one field, and several fields.
#[derive(Debug)]
pub enum Message {
    Quit,
    Move { x: i32, y: i32 },
    Write(String),
    ChangeColor(i32, i32, i32),
}

impl Message {
    /// A method on an enum; it does nothing.
    pub fn call(&self) {
    }
}

/// The state on the back of a quarter.
#[derive(Debug, Clone, Copy, PartialEq, Eq, Structural)]
pub enum UsState {
    Alabama,
    Alaska,
}

/// A coin; a quarter carries its state.
#[derive(Debug, Clone, Copy, PartialEq, Eq, Structural)]
pub enum Coin {
    Penny,
    Nickel,
    Dime,
    Quarter(UsState),
}

/// The name of a state.
pub open spec fn state_text(state: UsState) -> Seq<char> {
    match state {
        UsState::Alabama => "Alabama"@,
        UsState::Alaska => "Alaska"@,
    }
}

/// The value of a coin in cents.
pub open spec fn cents(coin: Coin) -> nat {
    match coin {
        Coin::Penny => 1,
        Coin::Nickel => 5,
        Coin::Dime => 10,
        Coin::Quarter(_) => 25,
    }
}

impl UsState {
    /// The state's name, as its variant is written.
    pub fn name(&self) -> (r: &'static str)
        ensures
            r@ == state_text(*self),
    {
        match self {
            UsState::Alabama => "Alabama",
            UsState::Alaska => "Alaska",
        }
    }
}

/// The value of a coin in cents.
pub fn value_in_cents(coin: Coin) -> (r: u8)
    ensures
        r == cents(coin),
{
    match coin {
        Coin::Penny => 1,
        Coin::Nickel => 5,
        Coin::Dime => 10,
        Coin::Quarter(_) => 25,
    }
}

/// The line announcing a state quarter, for a quarter; none for other coins.
pub fn quarter_note(coin: Coin) -> (r: Option<String>)
    ensures
        match coin {
            Coin::Quarter(state) => r is Some && r->0@ == "State quarter from "@ + state_text(state)
                + "!"@,
            _ => r is None,
        },
{
    match coin {
        Coin::Quarter(state) => {
            let line = String::from_str("State quarter from ").concat(state.name()).concat("!");
            Some(line)
        },
        _ => None,
    }
}

/// Adds one to the value inside, if there is one.
pub fn plus_one(x: Option<i32>) -> (r: Option<i32>)
    requires
        x != Some(i32::MAX),
    ensures
        match x {
            None => r is None,
            Some(i) => r == Some((i + 1) as i32),
        },
{
    match x {
        None => None,
        Some(i) => Some(i + 1),
    }
}

/// `x` plus the value inside `y`, if there is one.
pub fn add_optional(x: i8, y: Option<i8>) -> (r: Option<i8>)
    requires
        y matches Some(i) ==> i8::MIN <= x + i <= i8::MAX,
    ensures
        match y {
            None => r is None,
            Some(i) => r == Some((x + i) as i8),
        },
{
    match y {
        Some(i) => Some(x + i),
        None => None,
    }
}

/// The lines that `match` and then `if let` print for a configured maximum:
/// each names the maximum when there is one; only `if let` has an `else`.
pub open spec fn maximum_lines(config_max: Option<u8>) -> Seq<Seq<char>> {
    match config_max {
        Some(max) => seq![
            "The maximum is configure to be "@ + int_text(max as int),
            "The maximum is configured to be "@ + int_text(max as int),
        ],
        None => seq!["something else"@],
    }
}

/// Reads an optional maximum first with `match`, then with `if let`, and
/// returns the lines printed.
pub fn maximum_messages(config_max: Option<u8>) -> (r: Vec<String>)
    ensures
        texts(r@) == maximum_lines(config_max),
{
    let mut lines: Vec<String> = Vec::new();
    match config_max {
        Some(max) => lines.push(labeled("The maximum is configure to be ", max as i64)),
        _ => (),
    }
    if let Some(max) = config_max {
        lines.push(labeled("The maximum is configured to be ", max as i64));
    } else {
        lines.push(String::from_str("something else"));
    }
    assert(texts(lines@) =~= maximum_lines(config_max));
    lines
}

/// The lines the enums walkthrough prints.
pub open spec fn run_lines() -> Seq<Seq<char>> {
    seq![""@, int_text(10)] + maximum_lines(Some(3u8))
}

/// Runs the enums walkthrough and returns the lines it prints.
pub fn run() -> (r: Vec<String>)
    ensures
        texts(r@) == run_lines(),
{
    let mut lines: Vec<String> = Vec::new();
    lines.push(String::new());
    proof {
        reveal_strlit("");
    }
    assert(lines@[0]@ =~= ""@);
    let _home = IpAddr { kind: IpAddrKind::V4, address: String::from_str("127.0.0.1") };
    let _loopback = IpAddr { kind: IpAddrKind::V6, address: String::from_str("::1") };
    let _home = IpAddress::V4(String::from_str("127.0.0.1"));
    let _loopback = IpAddress::V6(String::from_str(":1"));
    let m = Message::Write(String::from_str("hello"));
    m.call();
    let x: i8 = 5;
    let y: Option<i8> = Some(5);
    match add_optional(x, y) {
        Some(sum) => {
            let mut line = String::new();
            push_int(&mut line, sum as i64);
            assert(line@ =~= int_text(10));
            lines.push(line);
        },
        None => (),
    }
    let five = Some(5i32);
    let _six = plus_one(five);
    let _none = plus_one(None);
    append_lines(&mut lines, maximum_messages(Some(3u8)));
    assert(texts(lines@) =~= run_lines());
    lines
}

} // verus!
