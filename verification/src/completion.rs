//! Completing a command's name while it is typed.

use vstd::prelude::*;
use crate::chars::{from_chars, to_chars};
use crate::handler::{CommandManager, entries_of, entry_of};
use crate::input::texts;

verus! {

/// Whether `name` begins with `prefix`.
pub open spec fn starts_with(name: Seq<char>, prefix: Seq<char>) -> bool {
    prefix.len() <= name.len() && name.take(prefix.len() as int) == prefix
}

/// What completes a line: of each of `names` that begins with `line`, in
/// order, what follows its first `pos` characters.
pub open spec fn completions_of(names: Seq<Seq<char>>, line: Seq<char>, pos: int) -> Seq<Seq<char>>
    decreases names.len(),
{
    if names.len() == 0 {
        Seq::empty()
    } else {
        let before = completions_of(names.drop_last(), line, pos);
        if starts_with(names.last(), line) {
            before.push(names.last().skip(pos))
        } else {
            before
        }
    }
}

/// Whether `name` begins with `prefix`.
pub fn has_prefix(name: &Vec<char>, prefix: &Vec<char>) -> (r: bool)
    ensures
        r == starts_with(name@, prefix@),
{
    if prefix.len() > name.len() {
        return false;
    }
    let mut i: usize = 0;
    while i < prefix.len()
        invariant
            i <= prefix.len() <= name.len(),
            name@.take(i as int) == prefix@.take(i as int),
        decreases prefix.len() - i,
    {
        if name[i] != prefix[i] {
            assert(name@.take(prefix@.len() as int)[i as int] != prefix@[i as int]);
            return false;
        }
        assert(name@.take(i as int + 1) =~= name@.take(i as int).push(name@[i as int]));
        assert(prefix@.take(i as int + 1) =~= prefix@.take(i as int).push(prefix@[i as int]));
        i = i + 1;
    }
    assert(prefix@.take(i as int) =~= prefix@);
    true
}

/// The completions of `line` with the cursor after its first `pos`
/// characters: of each command whose name begins with `line`, in the order
/// of registration, the rest of the name from the cursor on.
pub fn complete<C: ?Sized>(manager: &CommandManager<C>, line: &str, pos: usize) -> (r: Vec<String>)
    requires
        pos <= line@.len(),
    ensures
        texts(r@) == completions_of(manager@.names(), line@, pos as int),
{
    let typed = to_chars(line);
    let slots = manager.get_commands();
    let ghost names = manager@.names();
    let mut found: Vec<String> = Vec::new();
    let mut i: usize = 0;
    assert(names.take(0) =~= Seq::<Seq<char>>::empty());
    assert(texts(found@) =~= completions_of(names.take(0), line@, pos as int));
    while i < slots.len()
        invariant
            i <= slots.len() == names.len(),
            names == manager@.names(),
            entries_of(slots@) == manager@.entries,
            typed@ == line@,
            pos <= line@.len(),
            texts(found@) == completions_of(names.take(i as int), line@, pos as int),
        decreases slots.len() - i,
    {
        let name = to_chars(slots[i].name.as_str());
        let ghost next = names.take(i as int + 1);
        assert(next.drop_last() =~= names.take(i as int));
        assert(next.last() == name@) by {
            assert(manager@.entries[i as int] == entry_of(slots@[i as int]));
        }
        if has_prefix(&name, &typed) {
            let ghost before = texts(found@);
            let rest = from_chars(&name, pos, name.len());
            assert(rest@ =~= name@.skip(pos as int));
            found.push(rest);
            assert(texts(found@) =~= before.push(rest@));
        }
        i = i + 1;
    }
    assert(names.take(i as int) =~= names);
    found
}

} // verus!
