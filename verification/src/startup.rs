//! Filling the registry when the shell starts.

use vstd::prelude::*;
use crate::chars::lowercase;
use crate::handler::{Command, CommandManager, ManagerView};

verus! {

/// The registry after `commands` were registered one after the other, each
/// under the name at its position in `names` and with no declared number
/// of arguments.
pub open spec fn registered_all<C: ?Sized>(
    m: ManagerView<C>,
    names: Seq<Seq<char>>,
    commands: Seq<Box<C>>,
) -> ManagerView<C>
    decreases commands.len(),
{
    if commands.len() == 0 || names.len() != commands.len() {
        m
    } else {
        registered_all(m, names.drop_last(), commands.drop_last()).register(
            lowercase(names.last()),
            None,
            commands.last(),
        )
    }
}

/// Whether each of `names` is a name that the command at its position may
/// give itself.
pub open spec fn names_fit<C: Command + ?Sized>(names: Seq<Seq<char>>, commands: Seq<Box<C>>) -> bool {
    &&& names.len() == commands.len()
    &&& forall|i: int| 0 <= i < names.len() ==> (#[trigger] commands[i]).may_be_named(names[i])
}

/// Makes the registry that the shell starts with: registers `commands` in
/// order, each under the name it gives itself. Of two commands with the
/// same name the later one stays.
pub fn setup<C: Command + ?Sized>(commands: Vec<Box<C>>) -> (r: CommandManager<C>)
    ensures
        r@.wf(),
        exists|names: Seq<Seq<char>>|
            names_fit(names, commands@) && r@ == #[trigger] registered_all(
                ManagerView::<C>::empty(),
                names,
                commands@,
            ),
{
    let mut manager: CommandManager<C> = CommandManager::init();
    let mut rest = commands;
    let ghost mut names: Seq<Seq<char>> = Seq::empty();
    let ghost all = commands@;
    while rest.len() > 0
        invariant
            manager@.wf(),
            names.len() + rest@.len() == all.len(),
            rest@ == all.skip(names.len() as int),
            names_fit(names, all.take(names.len() as int)),
            manager@ == registered_all(ManagerView::<C>::empty(), names, all.take(names.len() as int)),
        decreases rest@.len(),
    {
        let ghost before = manager@;
        let ghost done = names.len() as int;
        let ghost earlier = names;
        let command = rest.remove(0);
        let index = manager.add_command(command);
        proof {
            let name = choose|name: Seq<char>|
                {
                    &&& #[trigger] command.may_be_named(name)
                    &&& manager@ == before.register(lowercase(name), None, command)
                    &&& manager@.index_of(lowercase(name)) == Some(index as int)
                };
            names = names.push(name);
            assert(names.drop_last() =~= earlier);
            assert(all.take(done + 1).drop_last() =~= all.take(done));
        }
    }
    assert(all.take(names.len() as int) =~= all);
    manager
}

} // verus!
