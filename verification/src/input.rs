//! Reading one line of input: splitting it into statements, trimming a
//! statement, and cutting a statement into tokens.

use vstd::prelude::*;
use crate::chars::{char_is_whitespace, from_chars, is_whitespace, push_char, to_chars};
use crate::error::EvalError;

verus! {

/// The texts of a sequence of strings.
pub open spec fn texts(v: Seq<String>) -> Seq<Seq<char>> {
    Seq::new(v.len(), |i: int| v[i]@)
}

/// The text of an optional string.
pub open spec fn option_text(s: Option<String>) -> Option<Seq<char>> {
    match s {
        Some(text) => Some(text@),
        None => None,
    }
}

/// The texts of an optional list of strings.
pub open spec fn option_texts(s: Option<Vec<String>>) -> Option<Seq<Seq<char>>> {
    match s {
        Some(list) => Some(texts(list@)),
        None => None,
    }
}

/// A statement ends at `;` or at a line feed.
pub open spec fn is_separator(c: char) -> bool {
    c == ';' || c == '\n'
}

/// Either quote character opens or closes a quoted region.
pub open spec fn is_quote(c: char) -> bool {
    c == '"' || c == '\''
}

/// The statements of an input: the pieces between separators, in order.
/// An input with `n` separators has `n + 1` statements, some possibly empty.
/// Separators inside quotes are separators too.
pub open spec fn statements(s: Seq<char>) -> Seq<Seq<char>>
    decreases s.len(),
{
    if s.len() == 0 {
        seq![Seq::<char>::empty()]
    } else {
        let before = statements(s.drop_last());
        if is_separator(s.last()) {
            before.push(Seq::<char>::empty())
        } else {
            before.drop_last().push(before.last().push(s.last()))
        }
    }
}

/// `s` without its leading white space.
pub open spec fn trim_start(s: Seq<char>) -> Seq<char>
    decreases s.len(),
{
    if s.len() > 0 && is_whitespace(s.first()) {
        trim_start(s.drop_first())
    } else {
        s
    }
}

/// `s` without its trailing white space.
pub open spec fn trim_end(s: Seq<char>) -> Seq<char>
    decreases s.len(),
{
    if s.len() > 0 && is_whitespace(s.last()) {
        trim_end(s.drop_last())
    } else {
        s
    }
}

/// `s` without leading and trailing white space.
pub open spec fn trim(s: Seq<char>) -> Seq<char> {
    trim_end(trim_start(s))
}

/// A text is blank when it holds nothing but white space.
pub open spec fn is_blank(s: Seq<char>) -> bool {
    forall|i: int| 0 <= i < s.len() ==> is_whitespace(#[trigger] s[i])
}

/// The tokenizer's state after some prefix of a statement.
pub struct Scan {
    /// The tokens that are complete.
    pub done: Seq<Seq<char>>,
    /// The token being read; empty between tokens.
    pub current: Seq<char>,
    /// Whether the prefix ends inside a quoted region.
    pub quoted: bool,
}

/// The state before any character is read.
pub open spec fn scan_start() -> Scan {
    Scan { done: Seq::empty(), current: Seq::empty(), quoted: false }
}

/// One character's effect: a quote toggles the quoted flag and is dropped,
/// white space outside quotes ends the current token if there is one, and
/// any other character joins the current token.
pub open spec fn scan_step(st: Scan, c: char) -> Scan {
    if is_quote(c) {
        Scan { done: st.done, current: st.current, quoted: !st.quoted }
    } else if is_whitespace(c) && !st.quoted {
        if st.current.len() > 0 {
            Scan { done: st.done.push(st.current), current: Seq::empty(), quoted: st.quoted }
        } else {
            st
        }
    } else {
        Scan { done: st.done, current: st.current.push(c), quoted: st.quoted }
    }
}

/// The state after all of `s`.
pub open spec fn scan(s: Seq<char>) -> Scan
    decreases s.len(),
{
    if s.len() == 0 {
        scan_start()
    } else {
        scan_step(scan(s.drop_last()), s.last())
    }
}

/// The tokens of a statement: what the scan completed, and the token it
/// was reading at the end unless that one is empty.
pub open spec fn tokens_of(s: Seq<char>) -> Seq<Seq<char>> {
    let st = scan(s);
    if st.current.len() > 0 {
        st.done.push(st.current)
    } else {
        st.done
    }
}

/// The bounds `(a, b)` of `v[from..to]` without its leading and trailing
/// white space.
pub fn trim_bounds(v: &Vec<char>, from: usize, to: usize) -> (r: (usize, usize))
    requires
        from <= to <= v.len(),
    ensures
        from <= r.0 <= r.1 <= to,
        v@.subrange(r.0 as int, r.1 as int) == trim(v@.subrange(from as int, to as int)),
        forall|i: int| from <= i < r.0 ==> is_whitespace(#[trigger] v@[i]),
        forall|i: int| r.1 <= i < to ==> is_whitespace(#[trigger] v@[i]),
        r.0 < r.1 ==> !is_whitespace(v@[r.0 as int]) && !is_whitespace(v@[r.1 - 1]),
        r.0 == r.1 ==> r.0 == to,
{
    let mut a: usize = from;
    while a < to && char_is_whitespace(v[a])
        invariant
            from <= a <= to <= v.len(),
            trim_start(v@.subrange(from as int, to as int)) == trim_start(
                v@.subrange(a as int, to as int),
            ),
            forall|i: int| from <= i < a ==> is_whitespace(#[trigger] v@[i]),
        decreases to - a,
    {
        assert(v@.subrange(a as int, to as int).drop_first() =~= v@.subrange(
            a as int + 1,
            to as int,
        ));
        a = a + 1;
    }
    let mut b: usize = to;
    while a < b && char_is_whitespace(v[b - 1])
        invariant
            from <= a <= b <= to <= v.len(),
            trim_end(v@.subrange(a as int, to as int)) == trim_end(
                v@.subrange(a as int, b as int),
            ),
            forall|i: int| b <= i < to ==> is_whitespace(#[trigger] v@[i]),
            a < to ==> !is_whitespace(v@[a as int]),
        decreases b - a,
    {
        assert(v@.subrange(a as int, b as int).drop_last() =~= v@.subrange(
            a as int,
            b as int - 1,
        ));
        b = b - 1;
    }
    (a, b)
}

/// The tokens of the statement `v[from..to]`.
pub fn tokenize_range(v: &Vec<char>, from: usize, to: usize) -> (tokens: Vec<String>)
    requires
        from <= to <= v.len(),
    ensures
        texts(tokens@) == tokens_of(v@.subrange(from as int, to as int)),
{
    let mut tokens: Vec<String> = Vec::new();
    let mut current = String::new();
    let mut inside_string = false;
    let mut i: usize = from;
    assert(texts(tokens@) =~= Seq::<Seq<char>>::empty());
    while i < to
        invariant
            from <= i <= to <= v.len(),
            scan(v@.subrange(from as int, i as int)) == (Scan {
                done: texts(tokens@),
                current: current@,
                quoted: inside_string,
            }),
        decreases to - i,
    {
        let c = v[i];
        proof {
            let next = v@.subrange(from as int, i as int + 1);
            assert(next.drop_last() =~= v@.subrange(from as int, i as int));
        }
        if c == '"' || c == '\'' {
            inside_string = !inside_string;
        } else if char_is_whitespace(c) && !inside_string {
            if !current.as_str().is_empty() {
                let ghost before = texts(tokens@);
                tokens.push(current);
                assert(texts(tokens@) =~= before.push(current@));
                current = String::new();
            }
        } else {
            push_char(&mut current, c);
        }
        i = i + 1;
    }
    if !current.as_str().is_empty() {
        tokens.push(current);
    }
    tokens
}

/// Cuts one statement into tokens. Tokens are separated by white space
/// outside quotes; a quote character of either kind toggles the quoted
/// state and is not part of any token; no token is empty.
pub fn tokenize(command: &str) -> (tokens: Vec<String>)
    ensures
        texts(tokens@) == tokens_of(command@),
{
    let v = to_chars(command);
    assert(v@.subrange(0, v@.len() as int) =~= v@);
    tokenize_range(&v, 0, v.len())
}

/// The texts that the bounds `r` cut out of `s`.
pub open spec fn pieces(s: Seq<char>, r: Seq<(usize, usize)>) -> Seq<Seq<char>> {
    Seq::new(r.len(), |k: int| s.subrange(r[k].0 as int, r[k].1 as int))
}

/// Whether every pair in `r` bounds a part of a text of length `len`.
pub open spec fn bounds_within(r: Seq<(usize, usize)>, len: nat) -> bool {
    forall|k: int| 0 <= k < r.len() ==> (#[trigger] r[k]).0 <= r[k].1 <= len
}

/// The bounds of the statements of `v`, in order.
pub fn statement_bounds(v: &Vec<char>) -> (r: Vec<(usize, usize)>)
    ensures
        bounds_within(r@, v@.len()),
        pieces(v@, r@) == statements(v@),
{
    let mut r: Vec<(usize, usize)> = Vec::new();
    let mut start: usize = 0;
    let mut i: usize = 0;
    assert(v@.take(0) =~= Seq::<char>::empty());
    while i < v.len()
        invariant
            start <= i <= v.len(),
            bounds_within(r@, v@.len()),
            statements(v@.take(i as int)) == pieces(v@, r@).push(
                v@.subrange(start as int, i as int),
            ),
        decreases v.len() - i,
    {
        let c = v[i];
        let ghost before = pieces(v@, r@);
        proof {
            let next = v@.take(i as int + 1);
            assert(next.drop_last() =~= v@.take(i as int));
        }
        if c == ';' || c == '\n' {
            r.push((start, i));
            start = i + 1;
            assert(v@.subrange(start as int, i as int + 1) =~= Seq::<char>::empty());
        } else {
            let ghost head = before.push(v@.subrange(start as int, i as int));
            assert(head.last().push(c) =~= v@.subrange(start as int, i as int + 1));
        }
        i = i + 1;
    }
    assert(v@.take(i as int) =~= v@);
    r.push((start, i));
    r
}

/// Splits an input into its statements at every `;` and line feed. The
/// statements are not trimmed, and separators inside quotes split too.
/// Never fails.
pub fn parse_command(input: &str) -> (r: Result<Vec<String>, EvalError>)
    ensures
        r matches Ok(parts) && texts(parts@) == statements(input@),
{
    let v = to_chars(input);
    let bounds = statement_bounds(&v);
    let mut parts: Vec<String> = Vec::new();
    let mut k: usize = 0;
    while k < bounds.len()
        invariant
            k <= bounds.len(),
            bounds_within(bounds@, v@.len()),
            texts(parts@) == pieces(v@, bounds@).take(k as int),
        decreases bounds.len() - k,
    {
        let (a, b) = bounds[k];
        let ghost before = texts(parts@);
        let part = from_chars(&v, a, b);
        parts.push(part);
        assert(before.push(part@) =~= pieces(v@, bounds@).take(k as int + 1));
        k = k + 1;
    }
    Ok(parts)
}

/// The number of quote characters in `s`.
pub open spec fn quotes_in(s: Seq<char>) -> nat
    decreases s.len(),
{
    if s.len() == 0 {
        0
    } else {
        quotes_in(s.drop_last()) + if is_quote(s.last()) {
            1nat
        } else {
            0nat
        }
    }
}

/// The number of separators in `s`.
pub open spec fn separators_in(s: Seq<char>) -> nat
    decreases s.len(),
{
    if s.len() == 0 {
        0
    } else {
        separators_in(s.drop_last()) + if is_separator(s.last()) {
            1nat
        } else {
            0nat
        }
    }
}

/// The characters of a statement that end up in its tokens: all but the
/// quote characters and the white space outside quotes. A character is
/// outside quotes when an even number of quote characters come before it.
pub open spec fn kept(s: Seq<char>) -> Seq<char>
    decreases s.len(),
{
    if s.len() == 0 {
        Seq::empty()
    } else {
        let before = s.drop_last();
        let c = s.last();
        if is_quote(c) || (is_whitespace(c) && quotes_in(before) % 2 == 0) {
            kept(before)
        } else {
            kept(before).push(c)
        }
    }
}

/// Whether a text is not empty and holds no quote character.
pub open spec fn is_token(t: Seq<char>) -> bool {
    t.len() > 0 && forall|i: int| 0 <= i < t.len() ==> !is_quote(#[trigger] t[i])
}

/// What holds of the tokenizer's state after any prefix: the state is
/// quoted exactly after an odd number of quote characters, every complete
/// token is a token, the one being read holds no quote, and the two laid
/// end to end are the characters kept so far.
pub proof fn lemma_scan(s: Seq<char>)
    ensures
        scan(s).quoted == (quotes_in(s) % 2 == 1),
        forall|k: int| 0 <= k < scan(s).done.len() ==> is_token(#[trigger] scan(s).done[k]),
        forall|i: int| 0 <= i < scan(s).current.len() ==> !is_quote(#[trigger] scan(s).current[i]),
        scan(s).done.flatten() + scan(s).current == kept(s),
    decreases s.len(),
{
    if s.len() > 0 {
        let before = scan(s.drop_last());
        let c = s.last();
        lemma_scan(s.drop_last());
        let after = scan(s);
        if !is_quote(c) {
            if is_whitespace(c) && !before.quoted {
                if before.current.len() > 0 {
                    before.done.lemma_flatten_push(before.current);
                }
            } else {
                assert(after.done.flatten() + after.current =~= (before.done.flatten()
                    + before.current).push(c));
            }
        }
    }
}

/// Every token is non-empty and free of quote characters, and the tokens
/// laid end to end are the statement without its quote characters and
/// without the white space outside quotes.
pub proof fn lemma_tokens(s: Seq<char>)
    ensures
        forall|k: int| 0 <= k < tokens_of(s).len() ==> is_token(#[trigger] tokens_of(s)[k]),
        tokens_of(s).flatten() == kept(s),
{
    lemma_scan(s);
    let st = scan(s);
    if st.current.len() > 0 {
        st.done.lemma_flatten_push(st.current);
    }
}

/// An input has one statement more than it has separators, and no
/// statement holds a separator.
pub proof fn lemma_statements(s: Seq<char>)
    ensures
        statements(s).len() == separators_in(s) + 1,
        forall|k: int, i: int|
            0 <= k < statements(s).len() && 0 <= i < statements(s)[k].len() ==> !is_separator(
                #[trigger] statements(s)[k][i],
            ),
    decreases s.len(),
{
    if s.len() > 0 {
        lemma_statements(s.drop_last());
    }
}

} // verus!
