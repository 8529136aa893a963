//! Functions with parameters, and statements versus expressions.
use vstd::prelude::*;
use crate::text::{int_text, labeled, push_char, texts};

verus! {

/// The line describing a measurement of `value` in the unit `unit_label`.
pub open spec fn measurement_text(value: int, unit_label: char) -> Seq<char> {
    ("The measurement is: "@ + int_text(value)).push(unit_label)
}

/// The measurement line: the value followed directly by its unit.
pub fn labeled_measurement(value: i32, unit_label: char) -> (r: String)
    ensures
        r@ == measurement_text(value as int, unit_label),
{
    let mut line = labeled("The measurement is: ", value as i64);
    push_char(&mut line, unit_label);
    line
}

/// The lines the functions walkthrough prints.
pub open spec fn run_lines() -> Seq<Seq<char>> {
    seq![measurement_text(5, 'h'), "The value of y is: ()"@]
}

/// Runs the functions walkthrough and returns the lines it prints.
pub fn run() -> (r: Vec<String>)
    ensures
        texts(r@) == run_lines(),
{
    let mut lines: Vec<String> = Vec::new();
    lines.push(labeled_measurement(5, 'h'));
    // a block whose last item is a statement has the unit value
    let y = {
        let x: i32 = 3;
        let _ = x + 1;
    };
    let _unit: () = y;
    lines.push(String::from_str("The value of y is: ()"));
    assert(texts(lines@) =~= run_lines());
    lines
}

} // verus!
