//! Building the text of findings: decimal numbers and sentences with names
//! and numbers in them.

use vstd::prelude::*;
use vstd::string::StringExecFns;

verus! {

/// The character of the decimal digit `d`.
pub open spec fn digit(d: nat) -> char {
    if d == 0 {
        '0'
    } else if d == 1 {
        '1'
    } else if d == 2 {
        '2'
    } else if d == 3 {
        '3'
    } else if d == 4 {
        '4'
    } else if d == 5 {
        '5'
    } else if d == 6 {
        '6'
    } else if d == 7 {
        '7'
    } else if d == 8 {
        '8'
    } else {
        '9'
    }
}

/// `n` written in base ten, without leading zeros.
pub open spec fn decimal(n: nat) -> Seq<char>
    decreases n,
{
    if n < 10 {
        seq![digit(n)]
    } else {
        decimal(n / 10).push(digit(n % 10))
    }
}

fn digit_text(d: usize) -> (text: &'static str)
    requires
        d < 10,
    ensures
        text@ == seq![digit(d as nat)],
{
    proof {
        reveal_strlit("0");
        reveal_strlit("1");
        reveal_strlit("2");
        reveal_strlit("3");
        reveal_strlit("4");
        reveal_strlit("5");
        reveal_strlit("6");
        reveal_strlit("7");
        reveal_strlit("8");
        reveal_strlit("9");
    }
    let text = if d == 0 {
        "0"
    } else if d == 1 {
        "1"
    } else if d == 2 {
        "2"
    } else if d == 3 {
        "3"
    } else if d == 4 {
        "4"
    } else if d == 5 {
        "5"
    } else if d == 6 {
        "6"
    } else if d == 7 {
        "7"
    } else if d == 8 {
        "8"
    } else {
        "9"
    };
    assert(text@ =~= seq![digit(d as nat)]);
    text
}

/// Appends `n` in base ten to `out`.
pub fn push_decimal(out: &mut String, n: usize)
    ensures
        final(out)@ == old(out)@ + decimal(n as nat),
    decreases n,
{
    if n >= 10 {
        push_decimal(out, n / 10);
    }
    out.append(digit_text(n % 10));
    assert(out@ =~= old(out)@ + decimal(n as nat));
}

/// `n` in base ten.
pub fn decimal_string(n: usize) -> (text: String)
    ensures
        text@ == decimal(n as nat),
{
    let mut text = String::new();
    push_decimal(&mut text, n);
    assert(text@ =~= decimal(n as nat));
    text
}

/// The sentence `head name middle count tail`.
pub fn counted_note(head: &str, name: &str, middle: &str, count: usize, tail: &str) -> (note:
    String)
    ensures
        note@ == head@ + name@ + middle@ + decimal(count as nat) + tail@,
{
    let mut note = String::new();
    note.append(head);
    note.append(name);
    note.append(middle);
    push_decimal(&mut note, count);
    note.append(tail);
    assert(note@ =~= head@ + name@ + middle@ + decimal(count as nat) + tail@);
    note
}

/// The sentence `head name link file middle count tail`.
pub fn located_note(
    head: &str,
    name: &str,
    link: &str,
    file: &str,
    middle: &str,
    count: usize,
    tail: &str,
) -> (note: String)
    ensures
        note@ == head@ + name@ + link@ + file@ + middle@ + decimal(count as nat) + tail@,
{
    let mut note = String::new();
    note.append(head);
    note.append(name);
    note.append(link);
    note.append(file);
    note.append(middle);
    push_decimal(&mut note, count);
    note.append(tail);
    assert(note@ =~= head@ + name@ + link@ + file@ + middle@ + decimal(count as nat) + tail@);
    note
}

} // verus!
