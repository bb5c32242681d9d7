//! What the built-in commands compute before they print or act: the line
//! that `echo` prints, the texts that `help` shows, and the code with which
//! `exit` leaves.

use vstd::prelude::*;
use crate::chars::{push_char, to_chars};
use crate::input::texts;

verus! {

/// The words joined by single spaces.
pub open spec fn joined(words: Seq<Seq<char>>) -> Seq<char>
    decreases words.len(),
{
    if words.len() == 0 {
        Seq::empty()
    } else if words.len() == 1 {
        words[0]
    } else {
        joined(words.drop_last()).push(' ') + words.last()
    }
}

/// The line that `echo` prints: its arguments joined by single spaces, and
/// an empty line where it has none.
pub fn echo_text(args: &Option<Vec<String>>) -> (line: String)
    ensures
        line@ == match *args {
            Some(list) => joined(texts(list@)),
            None => Seq::empty(),
        },
{
    let mut line = String::new();
    match args {
        None => {},
        Some(list) => {
            let ghost words = texts(list@);
            let mut i: usize = 0;
            while i < list.len()
                invariant
                    i <= list.len(),
                    words == texts(list@),
                    line@ == joined(words.take(i as int)),
                decreases list.len() - i,
            {
                let ghost next = words.take(i as int + 1);
                assert(next.drop_last() =~= words.take(i as int));
                if i > 0 {
                    push_char(&mut line, ' ');
                }
                line.append(list[i].as_str());
                i = i + 1;
            }
            assert(words.take(i as int) =~= words);
        },
    }
    line
}

/// What `help` shows of one command.
pub open spec fn help_entry(
    name: Seq<char>,
    description: Seq<char>,
    params: Seq<char>,
    help: Seq<char>,
) -> Seq<char> {
    "Command: "@ + name + "\n\tDescription: "@ + description + "\n\tParameters: "@ + params
        + "\n\tHelp: "@ + help + "\n"@
}

/// What `help` shows of one command: its name, its description, its
/// parameters and its help text, each on a line of its own.
pub fn help_entry_text(name: &str, description: &str, params: &str, help: &str) -> (text: String)
    ensures
        text@ == help_entry(name@, description@, params@, help@),
{
    let mut text = String::from_str("Command: ");
    text.append(name);
    text.append("\n\tDescription: ");
    text.append(description);
    text.append("\n\tParameters: ");
    text.append(params);
    text.append("\n\tHelp: ");
    text.append(help);
    text.append("\n");
    text
}

/// What `help` shows of one alias.
pub open spec fn alias_entry(alias: Seq<char>, target: Seq<char>) -> Seq<char> {
    "\t"@ + alias + " -> "@ + target
}

/// What `help` shows of one alias: the alias, an arrow and the name it
/// stands for.
pub fn alias_entry_text(alias: &str, target: &str) -> (text: String)
    ensures
        text@ == alias_entry(alias@, target@),
{
    let mut text = String::from_str("\t");
    text.append(alias);
    text.append(" -> ");
    text.append(target);
    text
}

/// Whether `c` is one of the digits `0` to `9`.
pub open spec fn is_digit(c: char) -> bool {
    '0' <= c <= '9'
}

/// The number that a text of decimal digits spells; `None` where the text
/// is empty or holds anything but digits.
pub open spec fn decimal(s: Seq<char>) -> Option<nat>
    decreases s.len(),
{
    if s.len() == 0 || !is_digit(s.last()) {
        None
    } else if s.len() == 1 {
        Some((s.last() as nat - '0' as nat) as nat)
    } else {
        match decimal(s.drop_last()) {
            Some(value) => Some((value * 10 + (s.last() as nat - '0' as nat)) as nat),
            None => None,
        }
    }
}

/// The exit code that a text spells: decimal digits after an optional `+`
/// or `-`, with a value that a 32-bit signed number holds. Anything else
/// spells none.
pub open spec fn code_of(s: Seq<char>) -> Option<i32> {
    let negative = s.len() > 0 && s[0] == '-';
    let signed = s.len() > 0 && (s[0] == '-' || s[0] == '+');
    let digits = if signed {
        s.skip(1)
    } else {
        s
    };
    match decimal(digits) {
        None => None,
        Some(value) => {
            let number = if negative {
                -(value as int)
            } else {
                value as int
            };
            if i32::MIN <= number <= i32::MAX {
                Some(number as i32)
            } else {
                None
            }
        },
    }
}

/// The code with which `exit` leaves: 0 where it has no argument, and
/// otherwise the number that its first argument spells.
pub open spec fn exit_code_of(args: Option<Vec<String>>) -> Option<i32> {
    match args {
        Some(list) => if list@.len() == 0 {
            Some(0i32)
        } else {
            code_of(list@[0]@)
        },
        None => Some(0i32),
    }
}

/// Reads an exit code.
#[verifier::loop_isolation(false)]
pub fn parse_code(text: &str) -> (r: Option<i32>)
    ensures
        r == code_of(text@),
{
    let v = to_chars(text);
    let n = v.len();
    let negative = n > 0 && v[0] == '-';
    let start: usize = if n > 0 && (v[0] == '-' || v[0] == '+') {
        1
    } else {
        0
    };
    let ghost digits = v@.skip(start as int);
    assert(digits == if text@.len() > 0 && (text@[0] == '-' || text@[0] == '+') {
        text@.skip(1)
    } else {
        text@
    });
    if start == n {
        return None;
    }
    let mut value: u64 = 0;
    let mut i: usize = start;
    while i < n
        invariant
            start <= i <= n == v.len(),
            start < n,
            digits == v@.skip(start as int),
            value <= 0x8000_0000u64,
            i > start ==> (decimal(digits.take(i - start)) matches Some(d) && d == value),
            i == start ==> value == 0,
        decreases n - i,
    {
        let c = v[i];
        let ghost next = digits.take(i - start + 1);
        assert(next.drop_last() =~= digits.take(i - start));
        if !(c >= '0' && c <= '9') {
            proof {
                lemma_decimal_needs_digits(digits, i - start);
            }
            return None;
        }
        let d = (c as u32 - '0' as u32) as u64;
        value = value * 10 + d;
        if value > 0x8000_0000u64 {
            proof {
                lemma_decimal_grows(digits, i - start + 1);
            }
            return None;
        }
        i = i + 1;
    }
    assert(digits.take(n - start) =~= digits);
    if negative {
        if value == 0x8000_0000u64 {
            Some(i32::MIN)
        } else {
            Some(-(value as i32))
        }
    } else if value == 0x8000_0000u64 {
        None
    } else {
        Some(value as i32)
    }
}

/// A text with something other than a digit at some position spells no
/// number.
pub proof fn lemma_decimal_needs_digits(s: Seq<char>, i: int)
    requires
        0 <= i < s.len(),
        !is_digit(s[i]),
    ensures
        decimal(s) is None,
    decreases s.len(),
{
    if i < s.len() - 1 {
        lemma_decimal_needs_digits(s.drop_last(), i);
    }
}

/// The number that a text spells is no less than the number that any of
/// its beginnings spells.
pub proof fn lemma_decimal_grows(s: Seq<char>, k: int)
    requires
        0 < k <= s.len(),
    ensures
        decimal(s) matches Some(whole) ==> (decimal(s.take(k)) matches Some(part) && part
            <= whole),
    decreases s.len(),
{
    if k == s.len() {
        assert(s.take(k) =~= s);
    } else {
        lemma_decimal_grows(s.drop_last(), k);
        assert(s.drop_last().take(k) =~= s.take(k));
    }
}

/// The code with which `exit` leaves: 0 where it has no argument, the
/// number that its first argument spells otherwise, and `None` where that
/// argument spells no such number.
pub fn exit_code(args: &Option<Vec<String>>) -> (r: Option<i32>)
    ensures
        r == exit_code_of(*args),
{
    match args {
        Some(list) => {
            if list.len() == 0 {
                Some(0)
            } else {
                parse_code(list[0].as_str())
            }
        },
        None => Some(0),
    }
}

} // verus!
