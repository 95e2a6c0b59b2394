//! The Markdown primitives as sequences of characters, and decimal numbers.
use vstd::prelude::*;

verus! {

/// `# {text}`
pub open spec fn heading_markup(text: Seq<char>) -> Seq<char> {
    seq!['#', ' '] + text
}

/// The prefix that opens a blockquote line.
pub open spec fn blockquote_prefix() -> Seq<char> {
    seq!['>', ' ']
}

/// `> {text}`
pub open spec fn blockquote_markup(text: Seq<char>) -> Seq<char> {
    blockquote_prefix() + text
}

/// `**{text}**`
pub open spec fn bold_markup(text: Seq<char>) -> Seq<char> {
    seq!['*', '*'] + text + seq!['*', '*']
}

/// `*{text}*`
pub open spec fn italic_markup(text: Seq<char>) -> Seq<char> {
    seq!['*'] + text + seq!['*']
}

/// `[{title}]({url})`
pub open spec fn link_markup(title: Seq<char>, url: Seq<char>) -> Seq<char> {
    seq!['['] + title + seq![']', '('] + url + seq![')']
}

/// `---`, a horizontal rule.
pub open spec fn rule_markup() -> Seq<char> {
    seq!['-', '-', '-']
}

/// A single line feed.
pub open spec fn newline() -> Seq<char> {
    seq!['\n']
}

/// `text` terminated by a line feed.
pub open spec fn line_of(text: Seq<char>) -> Seq<char> {
    text + newline()
}

/// The character of a decimal digit.
pub open spec fn digit_char(d: nat) -> char
    recommends
        d < 10,
{
    if d == 0 {
        '0'
    } else if d == 1 {
        '1'
    } else if d == 2 {
        '2'
    } else if d == 3 {
        '3'
    } else if d == 4 {
        '4'
    } else if d == 5 {
        '5'
    } else if d == 6 {
        '6'
    } else if d == 7 {
        '7'
    } else if d == 8 {
        '8'
    } else {
        '9'
    }
}

/// `n` written in decimal, without sign or leading zeros.
pub open spec fn decimal(n: nat) -> Seq<char>
    decreases n,
{
    if n < 10 {
        seq![digit_char(n)]
    } else {
        decimal(n / 10).push(digit_char(n % 10))
    }
}

/// A string of one decimal digit.
fn digit_str(d: usize) -> (r: &'static str)
    requires
        d < 10,
    ensures
        r@ == seq![digit_char(d as nat)],
{
    proof {
        reveal_strlit("0");
        reveal_strlit("1");
        reveal_strlit("2");
        reveal_strlit("3");
        reveal_strlit("4");
        reveal_strlit("5");
        reveal_strlit("6");
        reveal_strlit("7");
        reveal_strlit("8");
        reveal_strlit("9");
    }
    match d {
        0 => "0",
        1 => "1",
        2 => "2",
        3 => "3",
        4 => "4",
        5 => "5",
        6 => "6",
        7 => "7",
        8 => "8",
        _ => "9",
    }
}

/// Appends `n` written in decimal to `out`.
pub fn push_decimal(out: &mut String, n: usize)
    ensures
        final(out)@ == old(out)@ + decimal(n as nat),
    decreases n,
{
    if n >= 10 {
        push_decimal(out, n / 10);
    }
    out.append(digit_str(n % 10));
    assert(out@ =~= old(out)@ + decimal(n as nat));
}

} // verus!
