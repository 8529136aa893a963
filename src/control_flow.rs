//! Conditions, `if` as an expression, and the loop forms.
use vstd::prelude::*;
use crate::text::{append_lines, int_text, labeled, lemma_texts_push, push_int, texts};

verus! {

/// Text announcing whether `number < 5`.
pub open spec fn condition_text(number: int) -> Seq<char> {
    if number < 5 {
        "condition was true"@
    } else {
        "condtion was false"@
    }
}

/// Text naming the first of 4, 3 and 2 that divides `number`.
pub open spec fn divisibility_text(number: int) -> Seq<char> {
    if number % 4 == 0 {
        "number is divisible by 4"@
    } else if number % 3 == 0 {
        "number is divisible by 3"@
    } else if number % 2 == 0 {
        "number is divisible by 2"@
    } else {
        "number is not divisible by 4, 3, or 2"@
    }
}

/// Whether `number < 5`, as the text announcing it.
pub fn condition_message(number: i32) -> (r: &'static str)
    ensures
        r@ == condition_text(number as int),
{
    if number < 5 {
        "condition was true"
    } else {
        "condtion was false"
    }
}

/// The first of 4, 3 and 2 that divides `number`, as the text naming it.
pub fn divisibility_message(number: i32) -> (r: &'static str)
    ensures
        r@ == divisibility_text(number as int),
{
    if number % 4 == 0 {
        "number is divisible by 4"
    } else if number % 3 == 0 {
        "number is divisible by 3"
    } else if number % 2 == 0 {
        "number is divisible by 2"
    } else {
        "number is not divisible by 4, 3, or 2"
    }
}

/// Counts up from zero until the counter reaches `limit`, breaks out of the
/// loop there, and returns twice the counter.
pub fn double_on_reaching(limit: u32) -> (r: u32)
    requires
        1 <= limit <= 0x7fff_ffff,
    ensures
        r == 2 * limit,
{
    let mut counter: u32 = 0;
    loop
        invariant_except_break
            counter < limit,
        ensures
            counter == limit,
        decreases limit - counter,
    {
        counter += 1;
        if counter == limit {
            break;
        }
    }
    counter * 2
}

/// The line printing the outer counter of the labelled loop.
pub open spec fn count_line(c: int) -> Seq<char> {
    "count = "@ + int_text(c)
}

/// The line printing the inner counter of the labelled loop.
pub open spec fn remaining_line(r: int) -> Seq<char> {
    "remaining = "@ + int_text(r)
}

/// The lines of the first `n` full rounds of the labelled loop: each prints
/// its count, then the inner loop counts 10 and 9 and ends.
pub open spec fn full_rounds(n: nat) -> Seq<Seq<char>>
    decreases n,
{
    if n == 0 {
        seq![]
    } else {
        full_rounds((n - 1) as nat) + seq![
            count_line(n - 1),
            remaining_line(10),
            remaining_line(9),
        ]
    }
}

/// The lines of the labelled loop that stops at `stop`: the full rounds
/// below it, then the round that leaves both loops at once.
pub open spec fn counting_lines(stop: nat) -> Seq<Seq<char>> {
    full_rounds(stop) + seq![count_line(stop as int), remaining_line(10)]
}

/// Nested loops where the inner one ends the outer one through its label
/// once the count reaches `stop`: the lines printed, and the final count.
pub fn counting_up(stop: u32) -> (r: (Vec<String>, u32))
    ensures
        texts(r.0@) == counting_lines(stop as nat),
        r.1 == stop,
{
    let mut lines: Vec<String> = Vec::new();
    let mut count: u32 = 0;
    'counting_up: loop
        invariant_except_break
            count <= stop,
            texts(lines@) == full_rounds(count as nat),
        ensures
            count == stop,
            texts(lines@) == counting_lines(stop as nat),
        decreases stop - count,
    {
        let ghost before = lines@;
        let line = labeled("count = ", count as i64);
        proof {
            lemma_texts_push(lines@, line);
        }
        lines.push(line);
        let mut remaining: u32 = 10;
        loop
            invariant_except_break
                9 <= remaining <= 10,
                count <= stop,
                remaining == 9 ==> count < stop,
                texts(before) == full_rounds(count as nat),
                texts(lines@) == texts(before).push(count_line(count as int)) + (if remaining == 9 {
                    seq![remaining_line(10)]
                } else {
                    seq![]
                }),
            ensures
                count < stop,
                texts(lines@) == texts(before) + seq![
                    count_line(count as int),
                    remaining_line(10),
                    remaining_line(9),
                ],
            decreases remaining,
        {
            let line = labeled("remaining = ", remaining as i64);
            proof {
                lemma_texts_push(lines@, line);
            }
            lines.push(line);
            if remaining == 9 {
                assert(texts(lines@) =~= texts(before) + seq![
                    count_line(count as int),
                    remaining_line(10),
                    remaining_line(9),
                ]);
                break;
            }
            if count == stop {
                assert(texts(lines@) =~= counting_lines(stop as nat));
                break 'counting_up;
            }
            remaining -= 1;
            assert(texts(lines@) =~= texts(before).push(count_line(count as int)) + seq![
                remaining_line(10),
            ]);
        }
        count += 1;
    }
    (lines, count)
}

/// The countdown from `from` to 1, one `n!` line each.
pub open spec fn countdown_lines(from: nat) -> Seq<Seq<char>> {
    Seq::new(from, |i: int| int_text(from - i) + "!"@)
}

/// One `the value is: ` line for each element, in order.
pub open spec fn element_lines(a: Seq<i32>) -> Seq<Seq<char>> {
    Seq::new(a.len(), |i: int| "the value is: "@ + int_text(a[i] as int))
}

/// A `while` loop counting down from `from` to 1.
pub fn countdown(from: u32) -> (r: Vec<String>)
    ensures
        texts(r@) == countdown_lines(from as nat),
{
    let mut lines: Vec<String> = Vec::new();
    let mut number = from;
    while number != 0
        invariant
            number <= from,
            texts(lines@) == Seq::new(
                (from - number) as nat,
                |i: int| int_text(from - i) + "!"@,
            ),
        decreases number,
    {
        let mut line = String::new();
        push_int(&mut line, number as i64);
        line.append("!");
        proof {
            lemma_texts_push(lines@, line);
        }
        lines.push(line);
        number -= 1;
        assert(texts(lines@) =~= Seq::new(
            (from - number) as nat,
            |i: int| int_text(from - i) + "!"@,
        ));
    }
    assert(texts(lines@) =~= countdown_lines(from as nat));
    lines
}

/// A loop over every element of an array.
pub fn print_elements(a: &[i32]) -> (r: Vec<String>)
    ensures
        texts(r@) == element_lines(a@),
{
    let mut lines: Vec<String> = Vec::new();
    let mut i: usize = 0;
    while i < a.len()
        invariant
            i <= a@.len(),
            texts(lines@) =~= element_lines(a@.subrange(0, i as int)),
        decreases a@.len() - i,
    {
        let line = labeled("the value is: ", a[i] as i64);
        proof {
            lemma_texts_push(lines@, line);
        }
        lines.push(line);
        i += 1;
        assert(texts(lines@) =~= element_lines(a@.subrange(0, i as int)));
    }
    assert(a@.subrange(0, i as int) =~= a@);
    lines
}

/// The lines the control-flow walkthrough prints.
pub open spec fn run_lines() -> Seq<Seq<char>> {
    seq![
        condition_text(3),
        divisibility_text(6),
        "The value of nubmer is: "@ + int_text(5),
        "This is a loop, but i'm breaking out so i don't crash"@,
        "The result is "@ + int_text(20),
    ] + counting_lines(2) + seq!["End count = "@ + int_text(2)] + countdown_lines(3) + seq![
        "LIFTOFF!!!"@,
    ] + element_lines(seq![10, 20, 30, 40, 50]) + countdown_lines(3) + seq!["LIFTOFF!!!"@]
}

/// Adds one line at the end.
fn push_line(lines: &mut Vec<String>, line: String)
    ensures
        texts(final(lines)@) == texts(old(lines)@).push(line@),
{
    proof {
        lemma_texts_push(lines@, line);
    }
    lines.push(line);
}

/// Runs the control-flow walkthrough and returns the lines it prints.
pub fn run() -> (r: Vec<String>)
    ensures
        texts(r@) == run_lines(),
{
    let mut lines: Vec<String> = Vec::new();
    let number: i32 = 3;
    push_line(&mut lines, String::from_str(condition_message(number)));
    let number: i32 = 6;
    push_line(&mut lines, String::from_str(divisibility_message(number)));
    let condition = true;
    let number: i32 = if condition {
        5
    } else {
        6
    };
    push_line(&mut lines, labeled("The value of nubmer is: ", number as i64));
    let ghost before = texts(lines@);
    loop
        invariant_except_break
            texts(lines@) == before,
        ensures
            texts(lines@) == before.push(
                "This is a loop, but i'm breaking out so i don't crash"@,
            ),
        decreases 1int,
    {
        push_line(
            &mut lines,
            String::from_str("This is a loop, but i'm breaking out so i don't crash"),
        );
        break;
    }
    let result = double_on_reaching(10);
    push_line(&mut lines, labeled("The result is ", result as i64));
    let (counted, count) = counting_up(2);
    append_lines(&mut lines, counted);
    push_line(&mut lines, labeled("End count = ", count as i64));
    append_lines(&mut lines, countdown(3));
    push_line(&mut lines, String::from_str("LIFTOFF!!!"));
    let a: Vec<i32> = vec![10, 20, 30, 40, 50];
    append_lines(&mut lines, print_elements(a.as_slice()));
    append_lines(&mut lines, countdown(3));
    push_line(&mut lines, String::from_str("LIFTOFF!!!"));
    assert(texts(lines@) =~= run_lines());
    lines
}

} // verus!
