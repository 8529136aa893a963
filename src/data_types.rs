//! Integer arithmetic, tuples and arrays. Floating-point values are rendered
//! by the caller and handed in as text.
use vstd::prelude::*;
use crate::text::{int_text, labeled, texts};

verus! {

/// Division that rounds toward zero, as integer `/` does.
pub open spec fn truncated_quotient(a: int, b: int) -> int {
    let q = abs(a) / abs(b);
    if (a < 0) == (b < 0) {
        q
    } else {
        -q
    }
}

/// The remainder that goes with `truncated_quotient`: it takes the sign of `a`.
pub open spec fn truncated_remainder(a: int, b: int) -> int {
    let m = abs(a) % abs(b);
    if a < 0 {
        -m
    } else {
        m
    }
}

/// The absolute value.
pub open spec fn abs(a: int) -> int {
    if a < 0 {
        -a
    } else {
        a
    }
}

/// The size of `a`, which fits in `u32` for every `i32`.
fn magnitude(a: i32) -> (r: u32)
    ensures
        r == abs(a as int),
{
    if a < 0 {
        (0i64 - a as i64) as u32
    } else {
        a as u32
    }
}

/// Integer division, rounding toward zero.
pub fn truncated_div(a: i32, b: i32) -> (r: i32)
    requires
        b != 0,
        !(a == i32::MIN && b == -1),
    ensures
        r == truncated_quotient(a as int, b as int),
{
    let q = magnitude(a) / magnitude(b);
    assert(q <= abs(a as int)) by (nonlinear_arith)
        requires
            q == abs(a as int) / abs(b as int),
            abs(b as int) >= 1,
            abs(a as int) >= 0,
    ;
    if (a < 0) == (b < 0) {
        assert(q < 0x8000_0000) by (nonlinear_arith)
            requires
                q == abs(a as int) / abs(b as int),
                abs(b as int) >= 1,
                abs(a as int) <= 0x8000_0000,
                abs(a as int) == 0x8000_0000 ==> abs(b as int) >= 2,
        ;
        q as i32
    } else {
        (0i64 - q as i64) as i32
    }
}

/// Integer remainder, with the sign of the dividend.
pub fn truncated_rem(a: i32, b: i32) -> (r: i32)
    requires
        b != 0,
    ensures
        r == truncated_remainder(a as int, b as int),
{
    let m = magnitude(a) % magnitude(b);
    assert(m < abs(b as int)) by (nonlinear_arith)
        requires
            m == abs(a as int) % abs(b as int),
            abs(b as int) >= 1,
    ;
    if a < 0 {
        (0i64 - m as i64) as i32
    } else {
        m as i32
    }
}

/// Truncating division and its remainder put the dividend back together:
/// `a == b * q + r`, with `r` smaller than `b` in size and of `a`'s sign.
pub proof fn lemma_truncated_division(a: int, b: int)
    requires
        b != 0,
    ensures
        a == b * truncated_quotient(a, b) + truncated_remainder(a, b),
        abs(truncated_remainder(a, b)) < abs(b),
        a >= 0 ==> truncated_remainder(a, b) >= 0,
        a <= 0 ==> truncated_remainder(a, b) <= 0,
{
    let (n, d) = (abs(a), abs(b));
    assert(n == d * (n / d) + n % d && 0 <= n % d < d) by (nonlinear_arith)
        requires
            n >= 0,
            d > 0,
    ;
    let (q, p) = (n / d, d * (n / d));
    if b > 0 {
        assert(b * truncated_quotient(a, b) == if a < 0 { -p } else { p }) by (nonlinear_arith)
            requires
                b == d,
                p == d * q,
                truncated_quotient(a, b) == if a < 0 { -q } else { q },
        ;
    } else {
        assert(b * truncated_quotient(a, b) == if a < 0 { -p } else { p }) by (nonlinear_arith)
            requires
                b == -d,
                p == d * q,
                truncated_quotient(a, b) == if a < 0 { q } else { -q },
        ;
    }
}

/// The English name of month `index`, counting January as 0.
pub open spec fn month_text(index: int) -> Seq<char> {
    if index == 0 {
        "January"@
    } else if index == 1 {
        "February"@
    } else if index == 2 {
        "March"@
    } else if index == 3 {
        "April"@
    } else if index == 4 {
        "May"@
    } else if index == 5 {
        "June"@
    } else if index == 6 {
        "July"@
    } else if index == 7 {
        "August"@
    } else if index == 8 {
        "September"@
    } else if index == 9 {
        "October"@
    } else if index == 10 {
        "November"@
    } else {
        "December"@
    }
}

/// The months of the year, in order.
pub fn months() -> (r: [&'static str; 12])
    ensures
        forall|i: int| 0 <= i < 12 ==> (#[trigger] r[i])@ == month_text(i),
{
    [
        "January",
        "February",
        "March",
        "April",
        "May",
        "June",
        "July",
        "August",
        "September",
        "October",
        "November",
        "December",
    ]
}

/// The name of month `index` (January is 0), read from the array of months.
pub fn month_name(index: usize) -> (r: &'static str)
    requires
        index < 12,
    ensures
        r@ == month_text(index as int),
{
    let months = months();
    months[index]
}

/// The lines the data-type walkthrough prints. The two floating-point values
/// appear as the texts `quotient` and `tuple_y`.
pub open spec fn run_lines(quotient: Seq<char>, tuple_y: Seq<char>) -> Seq<Seq<char>> {
    seq![
        "Numberic Operations\n"@,
        "5 + 10 = "@ + int_text(15),
        "10 - 5 = "@ + int_text(5),
        "5 * 10 = "@ + int_text(50),
        "56.7 / 32.2 = "@ + quotient,
        "-5 / 3 = "@ + int_text(-1),
        "43 % 5 = "@ + int_text(3),
        "\nCompound Types\n"@,
        "The value of y is: "@ + tuple_y,
        "You can also access a tuple by using a .index"@,
        "tup.0: "@ + int_text(500),
        "\nArrays are stored on the stack. And are fixed sized as a result"@,
        "You can access arrays using the months[0]: "@ + month_text(0),
    ]
}

/// `label` followed by `value`.
fn with_text(label: &str, value: &str) -> (r: String)
    ensures
        r@ == label@ + value@,
{
    String::from_str(label).concat(value)
}

/// Runs the data-type walkthrough and returns the lines it prints: `quotient`
/// is the text of `56.7 / 32.2`, `tuple_y` that of the tuple's middle field.
pub fn run(quotient: &str, tuple_y: &str) -> (r: Vec<String>)
    ensures
        texts(r@) == run_lines(quotient@, tuple_y@),
{
    let mut lines: Vec<String> = Vec::new();
    lines.push(String::from_str("Numberic Operations\n"));
    let sum: i32 = 5 + 10;
    lines.push(labeled("5 + 10 = ", sum as i64));
    let difference: i32 = 10 - 5;
    lines.push(labeled("10 - 5 = ", difference as i64));
    let product: i32 = 5 * 10;
    lines.push(labeled("5 * 10 = ", product as i64));
    lines.push(with_text("56.7 / 32.2 = ", quotient));
    let truncated = truncated_div(-5, 3);
    lines.push(labeled("-5 / 3 = ", truncated as i64));
    let remainder = truncated_rem(43, 5);
    lines.push(labeled("43 % 5 = ", remainder as i64));
    lines.push(String::from_str("\nCompound Types\n"));
    lines.push(with_text("The value of y is: ", tuple_y));
    lines.push(String::from_str("You can also access a tuple by using a .index"));
    let tup: (i32, i32) = (500, 1);
    lines.push(labeled("tup.0: ", tup.0 as i64));
    lines.push(
        String::from_str("\nArrays are stored on the stack. And are fixed sized as a result"),
    );
    lines.push(with_text("You can access arrays using the months[0]: ", month_name(0)));
    assert(5int / 3 == 1 && 43int % 5 == 3) by (nonlinear_arith);
    assert(texts(lines@) =~= run_lines(quotient@, tuple_y@));
    lines
}

} // verus!
