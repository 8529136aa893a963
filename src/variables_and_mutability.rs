//! Immutable bindings and shadowing.
use vstd::prelude::*;
use crate::text::{int_text, labeled, push_int, texts};

verus! {

/// Shadowing `x` by `x + 1`; an inner scope shadows that by twice its value,
/// which leaves the outer binding as it was; after the scope the outer `x` is
/// shadowed once more by itself plus 5. Returns the final outer value and the
/// inner one.
pub fn shadow(x: i32) -> (r: (i32, i32))
    requires
        -0x4000_0000 <= x + 1 < 0x4000_0000,
    ensures
        r.0 == x + 6,
        r.1 == 2 * (x + 1),
{
    let x = x + 1;
    let inner = {
        let x = x * 2;
        x
    };
    let x = x + 5;
    (x, inner)
}

/// The lines the shadowing walkthrough prints.
pub open spec fn run_lines() -> Seq<Seq<char>> {
    seq![
        "The value of x in the inner scope is: "@ + int_text(12),
        "The value of x is: "@ + int_text(11),
        int_text(3) + "\n"@,
    ]
}

/// Runs the shadowing walkthrough and returns the lines it prints.
pub fn run() -> (r: Vec<String>)
    ensures
        texts(r@) == run_lines(),
{
    let x: i32 = 5;
    let (x, inner) = shadow(x);
    let mut lines: Vec<String> = Vec::new();
    lines.push(labeled("The value of x in the inner scope is: ", inner as i64));
    lines.push(labeled("The value of x is: ", x as i64));
    let spaces = "   ";
    proof {
        reveal_strlit("   ");
        vstd::string::is_ascii_spec_bytes(spaces);
        assert(vstd::string::is_ascii(spaces));
    }
    // shadowed by a value of another type: the text's length in bytes
    let spaces = spaces.len();
    let mut last = String::new();
    push_int(&mut last, spaces as i64);
    last.append("\n");
    lines.push(last);
    assert(texts(lines@) =~= run_lines());
    lines
}

} // verus!
