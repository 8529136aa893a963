//! Moving, cloning and borrowing strings, and string slices.
use vstd::prelude::*;
use vstd::utf8::encode_utf8;
use crate::text::{int_text, labeled, push_int, texts};

verus! {

/// The length in bytes of the UTF-8 encoding of `s`.
pub open spec fn byte_len(s: Seq<char>) -> nat {
    encode_utf8(s).len()
}

/// `w` is the first word of `s`: the longest prefix of `s` without a space.
pub open spec fn is_first_word(s: Seq<char>, w: Seq<char>) -> bool {
    &&& w.len() <= s.len()
    &&& w == s.subrange(0, w.len() as int)
    &&& forall|i: int| 0 <= i < w.len() ==> w[i] != ' '
    &&& w.len() == s.len() || s[w.len() as int] == ' '
}

/// A growable string: `"hello"` with `", world!"` added at the end.
pub fn greeting() -> (r: String)
    ensures
        r@ == "hello"@ + ", world!"@,
{
    let mut s = String::from_str("hello");
    s.append(", world!");
    s
}

/// Takes the string by value; returns the line it prints, which is the string.
pub fn takes_ownership(some_string: String) -> (r: String)
    ensures
        r@ == some_string@,
{
    some_string
}

/// Takes a copy of the integer; returns the line it prints.
pub fn makes_copy(an_integer: i32) -> (r: String)
    ensures
        r@ == int_text(an_integer as int),
{
    let mut line = String::new();
    push_int(&mut line, an_integer as i64);
    assert(line@ =~= int_text(an_integer as int));
    line
}

/// Builds a string and moves it out to the caller.
pub fn gives_ownership() -> (r: String)
    ensures
        r@ == "yours"@,
{
    let some_string = String::from_str("yours");
    some_string
}

/// Takes a string and moves it back out unchanged.
pub fn takes_and_gives_back(a_string: String) -> (r: String)
    ensures
        r@ == a_string@,
{
    a_string
}

/// Takes a string by value and hands it back with its length in bytes.
pub fn calculate_length(s: String) -> (r: (String, usize))
    ensures
        r.0@ == s@,
        r.1 == byte_len(s@) as usize,
{
    let length = s.as_str().len();
    (s, length)
}

/// The length in bytes of a borrowed string.
pub fn calculate_length_borrowed(s: &String) -> (r: usize)
    ensures
        r == byte_len(s@) as usize,
{
    s.as_str().len()
}

/// Adds `", world"` at the end of a mutably borrowed string.
pub fn change(some_string: &mut String)
    ensures
        final(some_string)@ == old(some_string)@ + ", world"@,
{
    some_string.append(", world");
}

/// The slice of `s` up to its first space, or the whole of `s` if it has none.
pub fn first_word(s: &str) -> (r: &str)
    ensures
        is_first_word(s@, r@),
{
    let n = s.unicode_len();
    let mut i: usize = 0;
    while i < n
        invariant
            n == s@.len(),
            i <= n,
            forall|j: int| 0 <= j < i ==> s@[j] != ' ',
        decreases n - i,
    {
        if s.get_char(i) == ' ' {
            let w = s.substring_char(0, i);
            assert(w@ =~= s@.subrange(0, w@.len() as int));
            return w;
        }
        i += 1;
    }
    let w = s.substring_char(0, n);
    assert(w@ =~= s@);
    assert(w@ =~= s@.subrange(0, w@.len() as int));
    w
}

/// The lines the ownership walkthrough prints.
pub open spec fn run_lines() -> Seq<Seq<char>> {
    seq![
        "---- STRINGS ----"@,
        "hello, world!"@,
        "s1 = hello, s2 = hello"@,
        "hello"@,
        int_text(5),
        "OG: "@ + int_text(5),
        "The length of 'hello' is "@ + int_text(5) + "."@,
    ]
}

/// Runs the ownership walkthrough and returns the lines it prints.
pub fn run() -> (r: Vec<String>)
    ensures
        texts(r@) == run_lines(),
{
    let mut lines: Vec<String> = Vec::new();
    lines.push(String::from_str("---- STRINGS ----"));
    let s = greeting();
    proof {
        reveal_strlit("hello");
        reveal_strlit(", world!");
        reveal_strlit("hello, world!");
    }
    assert(s@ =~= "hello, world!"@);
    lines.push(s);
    // a copy of an integer leaves the original usable
    let x: i32 = 5;
    let _y = x;
    // a move leaves only the new owner usable; a clone leaves both
    let s1 = String::from_str("hello");
    let _s2 = s1;
    let s1 = String::from_str("hello");
    let s2 = s1.clone();
    let mut line = String::from_str("s1 = ");
    line.append(s1.as_str());
    line.append(", s2 = ");
    line.append(s2.as_str());
    proof {
        reveal_strlit("s1 = ");
        reveal_strlit(", s2 = ");
        reveal_strlit("s1 = hello, s2 = hello");
    }
    assert(line@ =~= "s1 = hello, s2 = hello"@);
    lines.push(line);
    lines.push(takes_ownership(String::from_str("hello")));
    lines.push(makes_copy(x));
    lines.push(labeled("OG: ", x as i64));
    let _s1 = gives_ownership();
    let s2 = String::from_str("hello");
    let _s3 = takes_and_gives_back(s2);
    let (s2, len) = calculate_length(String::from_str("hello"));
    proof {
        vstd::string::is_ascii_spec_bytes("hello");
        assert(vstd::string::is_ascii("hello"));
    }
    let mut line = String::from_str("The length of '");
    line.append(s2.as_str());
    line.append("' is ");
    push_int(&mut line, len as i64);
    line.append(".");
    proof {
        reveal_strlit("The length of '");
        reveal_strlit("' is ");
        reveal_strlit("The length of 'hello' is ");
    }
    assert(line@ =~= "The length of 'hello' is "@ + int_text(5) + "."@);
    lines.push(line);
    let s1 = String::from_str("hello");
    let _len = calculate_length_borrowed(&s1);
    let mut s = String::from_str("hello");
    change(&mut s);
    assert(texts(lines@) =~= run_lines());
    lines
}

} // verus!
