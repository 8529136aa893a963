//! Structs with named fields, tuple structs, unit structs, and methods.
use vstd::prelude::*;
use crate::text::{int_text, labeled, push_int, texts};

verus! {

/// An account with named fields.
#[derive(Debug)]
pub struct User {
    pub active: bool,
    pub username: String,
    pub email: String,
    pub sign_in_count: i16,
}

/// A colour as three channels.
#[derive(Debug, Clone, Copy, PartialEq, Eq, Structural)]
pub struct Color(pub i32, pub i32, pub i32);

/// A point in three dimensions.
#[derive(Debug, Clone, Copy, PartialEq, Eq, Structural)]
pub struct Point(pub i32, pub i32, pub i32);

/// A struct without fields.
#[derive(Debug, Clone, Copy, PartialEq, Eq, Structural)]
pub struct AlwaysEquals;

/// A rectangle by its side lengths.
#[derive(Debug, Clone, Copy, PartialEq, Eq, Structural)]
pub struct Rectangle {
    pub width: u32,
    pub height: u32,
}

impl User {
    /// A new user from all four fields.
    pub fn new(active: bool, username: String, email: String, sign_in_count: i16) -> (r: User)
        ensures
            r.active == active,
            r.username@ == username@,
            r.email@ == email@,
            r.sign_in_count == sign_in_count,
    {
        User { active, username, email, sign_in_count }
    }

    /// Struct update: a user with a new email and every other field moved
    /// over from `self`.
    pub fn with_email(self, email: String) -> (r: User)
        ensures
            r.active == self.active,
            r.username@ == self.username@,
            r.email@ == email@,
            r.sign_in_count == self.sign_in_count,
    {
        User { email, ..self }
    }
}

impl Rectangle {
    /// The square with sides of length `size`.
    pub fn square(size: u32) -> (r: Rectangle)
        ensures
            r.width == size,
            r.height == size,
    {
        Self { width: size, height: size }
    }

    /// Whether the width is nonzero (a method named like a field).
    pub fn width(&self) -> (r: bool)
        ensures
            r == (self.width > 0),
    {
        self.width > 0
    }

    /// The area, for a rectangle whose area fits in `u32`.
    pub fn area(&self) -> (r: u32)
        requires
            self.width * self.height <= u32::MAX,
        ensures
            r == self.width * self.height,
    {
        self.width * self.height
    }

    /// Whether `other` fits strictly inside `self` in both directions.
    pub fn can_hold(&self, other: &Rectangle) -> (r: bool)
        ensures
            r == (self.width > other.width && self.height > other.height),
    {
        self.width > other.width && self.height > other.height
    }
}

/// The lines the structs walkthrough prints.
pub open spec fn run_lines() -> Seq<Seq<char>> {
    seq![
        int_text(60) + "x"@ + int_text(50),
        "The area of a rect is "@ + int_text(1500) + " square pixels"@,
        "The rectangle has a nonzero width; it is "@ + int_text(30),
    ]
}

/// Runs the structs walkthrough and returns the lines it prints.
pub fn run() -> (r: Vec<String>)
    ensures
        texts(r@) == run_lines(),
{
    let mut lines: Vec<String> = Vec::new();
    let user = User::new(
        true,
        String::from_str("mark"),
        String::from_str("me@example.com"),
        1,
    );
    let _user2 = user.with_email(String::from_str("you@example.com"));
    let _black = Color(0, 0, 0);
    let _origin = Point(0, 0, 0);
    let _subject = AlwaysEquals;
    let scale: u32 = 2;
    let rect = Rectangle { width: 30 * scale, height: 50 };
    let mut line = String::new();
    push_int(&mut line, rect.width as i64);
    line.append("x");
    push_int(&mut line, rect.height as i64);
    assert(line@ =~= run_lines()[0]);
    lines.push(line);
    let rect = Rectangle { width: 30, height: 50 };
    let rec2 = Rectangle { width: 40, height: 60 };
    let _rec3 = Rectangle::square(10);
    assert(rect.width * rect.height == 1500) by (nonlinear_arith)
        requires
            rect.width == 30,
            rect.height == 50,
    ;
    let mut line = labeled("The area of a rect is ", rect.area() as i64);
    line.append(" square pixels");
    lines.push(line);
    if rect.width() {
        lines.push(labeled("The rectangle has a nonzero width; it is ", rect.width as i64));
    }
    if rect.can_hold(&rec2) {
        lines.push(String::from_str("The rectangle can hold rec2"));
    }
    assert(texts(lines@) =~= run_lines());
    lines
}

} // verus!
