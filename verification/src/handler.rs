//! The command registry: named commands in the order of their
//! registration, aliases that stand for a command's name, and categories
//! whose prefix sets a command's name apart.
//!
//! Names are kept in lowercase, and every name that is looked up is put in
//! lowercase first, so that lookup ignores case. Registering a name again
//! replaces the command that had it (the last registration wins) and keeps
//! the name's place in the listing.

use vstd::prelude::*;
use crate::chars::{lowercase, push_char, to_lowercase};
use crate::error::ConfigError;
use crate::input::option_texts;
use crate::similarity::{closest, lemma_suggestion_none, lemma_suggestion_some, suggestion};
use crate::keyed::{
    Keyed, distinct, first_index, keys, lemma_distinct_push, lemma_first_index,
    lemma_first_index_push, position,
};

verus! {

/// A unit of shell behaviour. The shell calls `execute` with `None` where
/// the statement had no arguments and with the arguments otherwise, and
/// with the depth of script nesting at which the statement runs.
///
/// The two spec functions are what the shell's contracts say of a command:
/// which names it may give itself, and what it may return on which call.
/// As they stand they allow everything, so that an implementation owes
/// nothing; one that wants to promise more states it there.
pub trait Command: Send + Sync {
    /// Whether `name` is a name that the command may give itself.
    open spec fn may_be_named(&self, name: Seq<char>) -> bool {
        true
    }

    /// Whether `outcome` is what the command may return when it is called
    /// with the arguments `args` at the depth `depth`.
    open spec fn may_return(
        &self,
        args: Option<Seq<Seq<char>>>,
        depth: usize,
        outcome: Result<(), String>,
    ) -> bool {
        true
    }

    fn execute(&self, args: Option<Vec<String>>, depth: usize) -> (r: Result<(), String>)
        requires
            args matches Some(list) ==> list@.len() > 0,
        ensures
            self.may_return(option_texts(args), depth, r),
    ;

    fn undo(&self);

    fn redo(&self);

    fn get_description(&self) -> String;

    fn get_name(&self) -> (r: String)
        ensures
            self.may_be_named(r@),
    ;

    fn get_help(&self) -> String;

    fn get_params(&self) -> String;
}

/// A group of commands. Commands registered with a category get its `uid`
/// as a prefix of their name.
#[derive(Debug, Clone)]
pub struct Category {
    /// The short prefix, as in `cr` for a category named `core`.
    pub uid: String,
    /// The category's name, by which it is found.
    pub name: String,
    /// What the category is for.
    pub description: String,
}

impl Category {
    pub fn new(uid: &str, name: &str, description: &str) -> (r: Self)
        ensures
            r.uid@ == uid@,
            r.name@ == name@,
            r.description@ == description@,
    {
        Self {
            uid: uid.to_owned(),
            name: name.to_owned(),
            description: description.to_owned(),
        }
    }
}

impl Keyed for Category {
    open spec fn key(&self) -> Seq<char> {
        self.name@
    }

    fn key_text(&self) -> (r: &String) {
        &self.name
    }
}

/// A registered command: its name in lowercase, the number of arguments
/// it declares (`None` where it declares none and takes what it is given),
/// and the command itself.
pub struct Slot<C: ?Sized> {
    pub name: String,
    pub arity: Option<usize>,
    pub command: Box<C>,
}

impl<C: ?Sized> Keyed for Slot<C> {
    open spec fn key(&self) -> Seq<char> {
        self.name@
    }

    fn key_text(&self) -> (r: &String) {
        &self.name
    }
}

/// An alias: another name for the command named `target`.
#[derive(Debug, Clone)]
pub struct Alias {
    pub name: String,
    pub target: String,
}

impl Keyed for Alias {
    open spec fn key(&self) -> Seq<char> {
        self.name@
    }

    fn key_text(&self) -> (r: &String) {
        &self.name
    }
}

/// What the registry knows of one command.
pub ghost struct Entry<C: ?Sized> {
    pub name: Seq<char>,
    pub arity: Option<usize>,
    pub command: Box<C>,
}

/// What the registry knows of one category.
pub ghost struct CategoryView {
    pub uid: Seq<char>,
    pub name: Seq<char>,
    pub description: Seq<char>,
}

/// The registry as a mathematical value: its commands in the order of
/// their registration, its aliases as pairs of an alias and the name it
/// stands for, and its categories.
#[verifier::ext_equal]
pub ghost struct ManagerView<C: ?Sized> {
    pub entries: Seq<Entry<C>>,
    pub aliases: Seq<(Seq<char>, Seq<char>)>,
    pub categories: Seq<CategoryView>,
}

impl<C: ?Sized> ManagerView<C> {
    /// The names of the commands, in order.
    pub open spec fn names(self) -> Seq<Seq<char>> {
        Seq::new(self.entries.len(), |i: int| self.entries[i].name)
    }

    /// The aliases' own names, in order.
    pub open spec fn alias_names(self) -> Seq<Seq<char>> {
        Seq::new(self.aliases.len(), |i: int| self.aliases[i].0)
    }

    /// The names of the categories, in order.
    pub open spec fn category_names(self) -> Seq<Seq<char>> {
        Seq::new(self.categories.len(), |i: int| self.categories[i].name)
    }

    /// No command name, alias or category name occurs twice.
    pub open spec fn wf(self) -> bool {
        &&& distinct(self.names())
        &&& distinct(self.alias_names())
        &&& distinct(self.category_names())
    }

    /// The registry without anything in it.
    pub open spec fn empty() -> Self {
        ManagerView { entries: Seq::empty(), aliases: Seq::empty(), categories: Seq::empty() }
    }

    /// The position of the command whose name is exactly `key`.
    pub open spec fn index_of(self, key: Seq<char>) -> Option<int> {
        first_index(self.names(), key)
    }

    /// Whether a category named `name` exists.
    pub open spec fn has_category(self, name: Seq<char>) -> bool {
        first_index(self.category_names(), name) is Some
    }

    /// The name under which `query` is looked up: `query` in lowercase, or,
    /// where that is an alias, the name the alias stands for. One alias is
    /// followed, never a second.
    pub open spec fn canonical(self, query: Seq<char>) -> Seq<char> {
        let key = lowercase(query);
        match first_index(self.alias_names(), key) {
            Some(i) => self.aliases[i].1,
            None => key,
        }
    }

    /// The position of the command that `query` names, directly or by an
    /// alias.
    pub open spec fn lookup(self, query: Seq<char>) -> Option<int> {
        self.index_of(self.canonical(query))
    }

    /// The registry after `command` is registered under `key`: in the place
    /// of the command that had the name, or after all others.
    pub open spec fn register(self, key: Seq<char>, arity: Option<usize>, command: Box<C>) -> Self {
        let entry = Entry { name: key, arity, command };
        match self.index_of(key) {
            Some(i) => ManagerView { entries: self.entries.update(i, entry), ..self },
            None => ManagerView { entries: self.entries.push(entry), ..self },
        }
    }

    /// The registry after the alias `alias` is added for `target`.
    pub open spec fn with_alias(self, alias: Seq<char>, target: Seq<char>) -> Self {
        ManagerView { aliases: self.aliases.push((alias, target)), ..self }
    }

    /// The registry after `category` is added: in the place of the category
    /// that had the name, or after all others.
    pub open spec fn with_category(self, category: CategoryView) -> Self {
        match first_index(self.category_names(), category.name) {
            Some(i) => ManagerView { categories: self.categories.update(i, category), ..self },
            None => ManagerView { categories: self.categories.push(category), ..self },
        }
    }
}

impl<C: ?Sized> ManagerView<C> {
    /// Registration keeps the registry well formed, puts the command at the
    /// position of its name (the old one, or the end), and moves no other
    /// name.
    pub proof fn lemma_register(self, key: Seq<char>, arity: Option<usize>, command: Box<C>)
        requires
            self.wf(),
        ensures
            self.register(key, arity, command).wf(),
            self.register(key, arity, command).index_of(key) == Some(
                match self.index_of(key) {
                    Some(i) => i,
                    None => self.entries.len() as int,
                },
            ),
            forall|other: Seq<char>|
                other != key ==> #[trigger] self.register(key, arity, command).index_of(other)
                    == self.index_of(other),
    {
        let after = self.register(key, arity, command);
        lemma_first_index(self.names(), key);
        match self.index_of(key) {
            Some(i) => {
                assert(after.names() =~= self.names());
            },
            None => {
                assert(after.names() =~= self.names().push(key));
                lemma_distinct_push(self.names(), key);
                lemma_first_index_push(self.names(), key, key);
                assert forall|other: Seq<char>| other != key implies #[trigger] after.index_of(
                    other,
                ) == self.index_of(other) by {
                    lemma_first_index_push(self.names(), key, other);
                }
            },
        }
    }
}

/// What the registry knows of the command in `slot`.
pub open spec fn entry_of<C: ?Sized>(slot: Slot<C>) -> Entry<C> {
    Entry { name: slot.name@, arity: slot.arity, command: slot.command }
}

/// What the registry knows of the commands in `slots`.
pub open spec fn entries_of<C: ?Sized>(slots: Seq<Slot<C>>) -> Seq<Entry<C>> {
    Seq::new(slots.len(), |i: int| entry_of(slots[i]))
}

/// The name that a command named `name` gets in the category with prefix
/// `uid`: both in lowercase, with `_` between them.
pub open spec fn prefixed(uid: Seq<char>, name: Seq<char>) -> Seq<char> {
    lowercase(uid).push('_') + lowercase(name)
}

/// The registry of commands, aliases and categories.
pub struct CommandManager<C: ?Sized> {
    commands: Vec<Slot<C>>,
    aliases: Vec<Alias>,
    categories: Vec<Category>,
}

impl<C: ?Sized> View for CommandManager<C> {
    type V = ManagerView<C>;

    closed spec fn view(&self) -> ManagerView<C> {
        ManagerView {
            entries: entries_of(self.commands@),
            aliases: Seq::new(
                self.aliases@.len(),
                |i: int| (self.aliases@[i].name@, self.aliases@[i].target@),
            ),
            categories: Seq::new(
                self.categories@.len(),
                |i: int|
                    CategoryView {
                        uid: self.categories@[i].uid@,
                        name: self.categories@[i].name@,
                        description: self.categories@[i].description@,
                    },
            ),
        }
    }
}

impl<C: ?Sized> CommandManager<C> {
    proof fn lemma_view(&self)
        ensures
            self@.names() == keys(self.commands@),
            self@.alias_names() == keys(self.aliases@),
            self@.category_names() == keys(self.categories@),
            self@.entries.len() == self.commands@.len(),
            self@.aliases.len() == self.aliases@.len(),
            self@.categories.len() == self.categories@.len(),
    {
    }

    /// A registry without anything in it.
    pub fn init() -> (r: CommandManager<C>)
        ensures
            r@ == ManagerView::<C>::empty(),
            r@.wf(),
    {
        CommandManager { commands: Vec::new(), aliases: Vec::new(), categories: Vec::new() }
    }
}

impl<C: ?Sized> CommandManager<C> {
    /// Registers `command` under a key that is already in its final form.
    fn register_key(&mut self, key: String, command: Box<C>, arity: Option<usize>) -> (index: usize)
        requires
            old(self)@.wf(),
        ensures
            final(self)@ == old(self)@.register(key@, arity, command),
            final(self)@.wf(),
            final(self)@.index_of(key@) == Some(index as int),
    {
        proof {
            self.lemma_view();
        }
        let ghost before = self@;
        let ghost name = key@;
        let found = position(&self.commands, &key);
        let index = match found {
            Some(i) => {
                self.commands.set(i, Slot { name: key, arity, command });
                i
            },
            None => {
                self.commands.push(Slot { name: key, arity, command });
                self.commands.len() - 1
            },
        };
        proof {
            self.lemma_view();
            assert(self@.aliases =~= before.aliases);
            assert(self@.categories =~= before.categories);
            before.lemma_register(name, arity, command);
        }
        index
    }

    /// Registers `command` under `name` with the number of arguments it
    /// declares, and returns its position in the listing. The name is kept
    /// in lowercase. Where the name is taken, the command that had it is
    /// replaced and the name keeps its position.
    pub fn register(&mut self, name: &str, command: Box<C>, arity: Option<usize>) -> (index: usize)
        requires
            old(self)@.wf(),
        ensures
            final(self)@ == old(self)@.register(lowercase(name@), arity, command),
            final(self)@.wf(),
            final(self)@.index_of(lowercase(name@)) == Some(index as int),
    {
        let key = to_lowercase(name);
        self.register_key(key, command, arity)
    }

    /// Registers `command` in a category: under the category's prefix, `_`
    /// and `name`, all in lowercase. The category must have been added
    /// before; registering in a category that does not exist is an error
    /// of the program, not of its user.
    pub fn register_with_category(
        &mut self,
        name: &str,
        command: Box<C>,
        arity: Option<usize>,
        category: &Category,
    ) -> (index: usize)
        requires
            old(self)@.wf(),
            old(self)@.has_category(category.name@),
        ensures
            final(self)@ == old(self)@.register(prefixed(category.uid@, name@), arity, command),
            final(self)@.wf(),
            final(self)@.index_of(prefixed(category.uid@, name@)) == Some(index as int),
    {
        let mut key = to_lowercase(category.uid.as_str());
        push_char(&mut key, '_');
        let rest = to_lowercase(name);
        key.append(rest.as_str());
        self.register_key(key, command, arity)
    }

    /// Whether a category named `name` has been added.
    pub fn has_category(&self, name: &str) -> (r: bool)
        ensures
            r == self@.has_category(name@),
    {
        proof {
            self.lemma_view();
        }
        let key = name.to_owned();
        position(&self.categories, &key).is_some()
    }

    /// Adds a category. A category of the same name is replaced.
    pub fn add_category(&mut self, category: Category)
        requires
            old(self)@.wf(),
        ensures
            final(self)@ == old(self)@.with_category(
                CategoryView {
                    uid: category.uid@,
                    name: category.name@,
                    description: category.description@,
                },
            ),
            final(self)@.wf(),
    {
        proof {
            self.lemma_view();
        }
        let ghost before = self@;
        let ghost added = CategoryView {
            uid: category.uid@,
            name: category.name@,
            description: category.description@,
        };
        let found = position(&self.categories, &category.name);
        proof {
            lemma_first_index(before.category_names(), added.name);
        }
        match found {
            Some(i) => {
                self.categories.set(i, category);
            },
            None => {
                self.categories.push(category);
            },
        }
        proof {
            self.lemma_view();
            if found is Some {
                assert(self@.category_names() =~= before.category_names());
            } else {
                assert(self@.category_names() =~= before.category_names().push(added.name));
                lemma_distinct_push(before.category_names(), added.name);
            }
        }
    }

    /// Adds `alias` as another name for the command named `command`, both
    /// taken in lowercase. An alias that exists is not changed, and an alias
    /// for a name that no command has is not added.
    pub fn add_alias(&mut self, alias: &str, command: &str) -> (r: Result<(), ConfigError>)
        requires
            old(self)@.wf(),
        ensures
            final(self)@.wf(),
            match r {
                Ok(()) => {
                    &&& first_index(old(self)@.alias_names(), lowercase(alias@)) is None
                    &&& old(self)@.index_of(lowercase(command@)) is Some
                    &&& final(self)@ == old(self)@.with_alias(
                        lowercase(alias@),
                        lowercase(command@),
                    )
                },
                Err(ConfigError::AliasExists { alias: taken }) => {
                    &&& first_index(old(self)@.alias_names(), lowercase(alias@)) is Some
                    &&& taken@ == lowercase(alias@)
                    &&& final(self)@ == old(self)@
                },
                Err(ConfigError::UnknownCommand { name }) => {
                    &&& first_index(old(self)@.alias_names(), lowercase(alias@)) is None
                    &&& old(self)@.index_of(lowercase(command@)) is None
                    &&& name@ == lowercase(command@)
                    &&& final(self)@ == old(self)@
                },
            },
    {
        proof {
            self.lemma_view();
        }
        let ghost before = self@;
        let name = to_lowercase(alias);
        let target = to_lowercase(command);
        if position(&self.aliases, &name).is_some() {
            return Err(ConfigError::AliasExists { alias: name });
        }
        if position(&self.commands, &target).is_none() {
            return Err(ConfigError::UnknownCommand { name: target });
        }
        let ghost a = name@;
        self.aliases.push(Alias { name, target });
        proof {
            self.lemma_view();
            assert(self@.alias_names() =~= before.alias_names().push(a));
            lemma_distinct_push(before.alias_names(), a);
        }
        Ok(())
    }

    /// The name under which `name` is looked up: `name` in lowercase, or
    /// what that stands for where it is an alias.
    pub fn resolve(&self, name: &str) -> (r: String)
        ensures
            r@ == self@.canonical(name@),
    {
        proof {
            self.lemma_view();
        }
        let key = to_lowercase(name);
        match position(&self.aliases, &key) {
            Some(i) => self.aliases[i].target.clone(),
            None => key,
        }
    }

    /// The position of the command whose name is exactly `key`.
    pub fn index_of(&self, key: &String) -> (r: Option<usize>)
        ensures
            match r {
                Some(i) => i < self@.entries.len() && self@.index_of(key@) == Some(i as int),
                None => self@.index_of(key@) is None,
            },
    {
        proof {
            self.lemma_view();
        }
        position(&self.commands, key)
    }

    /// Looks a command up by name or alias, ignoring case, and returns its
    /// position in the listing.
    pub fn find(&self, name: &str) -> (r: Option<usize>)
        ensures
            match r {
                Some(i) => i < self@.entries.len() && self@.lookup(name@) == Some(i as int),
                None => self@.lookup(name@) is None,
            },
    {
        let key = self.resolve(name);
        self.index_of(&key)
    }

    /// Looks a command up by name or alias, ignoring case.
    pub fn lookup(&self, name: &str) -> (r: Option<&Slot<C>>)
        ensures
            match r {
                Some(slot) => self@.lookup(name@) matches Some(i) && entry_of(*slot)
                    == self@.entries[i],
                None => self@.lookup(name@) is None,
            },
    {
        match self.find(name) {
            Some(i) => {
                proof {
                    self.lemma_view();
                }
                Some(&self.commands[i])
            },
            None => None,
        }
    }

    /// The registered commands in the order of their registration.
    pub fn get_commands(&self) -> (r: &Vec<Slot<C>>)
        ensures
            entries_of(r@) == self@.entries,
    {
        proof {
            self.lemma_view();
        }
        &self.commands
    }

    /// The aliases in the order in which they were added.
    pub fn get_aliases(&self) -> (r: &Vec<Alias>)
        ensures
            r@.len() == self@.aliases.len(),
            forall|i: int|
                0 <= i < r@.len() ==> (#[trigger] r@[i]).name@ == self@.aliases[i].0
                    && r@[i].target@ == self@.aliases[i].1,
    {
        &self.aliases
    }

    /// The name to suggest for `target`, which is no command's name: the
    /// registered name closest to it, the earliest registered where several
    /// are as close, and `None` where none is close enough.
    pub fn check_similarity(&self, target: &str) -> (r: Option<String>)
        ensures
            match r {
                Some(name) => suggestion(self@.names(), target@) == Some(name@),
                None => suggestion(self@.names(), target@) is None,
            },
    {
        proof {
            self.lemma_view();
        }
        match closest(&self.commands, target) {
            Some(k) => {
                proof {
                    lemma_suggestion_some(self@.names(), target@, k as int);
                }
                Some(self.commands[k].name.clone())
            },
            None => {
                proof {
                    lemma_suggestion_none(self@.names(), target@);
                }
                None
            },
        }
    }
}

impl<C: Command + ?Sized> CommandManager<C> {
    /// Registers `command` under the name it gives itself, with no declared
    /// number of arguments.
    pub fn add_command(&mut self, command: Box<C>) -> (index: usize)
        requires
            old(self)@.wf(),
        ensures
            final(self)@.wf(),
            exists|name: Seq<char>|
                {
                    &&& #[trigger] command.may_be_named(name)
                    &&& final(self)@ == old(self)@.register(lowercase(name), None, command)
                    &&& final(self)@.index_of(lowercase(name)) == Some(index as int)
                },
    {
        let name = command.get_name();
        let ghost before = self@;
        let index = self.register(name.as_str(), command, None);
        assert(command.may_be_named(name@) && self@ == before.register(
            lowercase(name@),
            None,
            command,
        ) && self@.index_of(lowercase(name@)) == Some(index as int));
        index
    }

    /// Registers `command` in `category`, under the name it gives itself
    /// with the category's prefix.
    pub fn add_command_with_category(&mut self, command: Box<C>, category: Category) -> (index:
        usize)
        requires
            old(self)@.wf(),
            old(self)@.has_category(category.name@),
        ensures
            final(self)@.wf(),
            exists|name: Seq<char>|
                {
                    &&& #[trigger] command.may_be_named(name)
                    &&& final(self)@ == old(self)@.register(
                        prefixed(category.uid@, name),
                        None,
                        command,
                    )
                    &&& final(self)@.index_of(prefixed(category.uid@, name)) == Some(index as int)
                },
    {
        let name = command.get_name();
        let ghost before = self@;
        let index = self.register_with_category(name.as_str(), command, None, &category);
        assert(command.may_be_named(name@) && self@ == before.register(
            prefixed(category.uid@, name@),
            None,
            command,
        ) && self@.index_of(prefixed(category.uid@, name@)) == Some(index as int));
        index
    }
}

/// Every registered name is found by each of its spellings, whatever the
/// case, as long as no alias has the name.
pub proof fn lemma_lookup_finds_registered<C: ?Sized>(m: ManagerView<C>, i: int, query: Seq<char>)
    requires
        m.wf(),
        0 <= i < m.entries.len(),
        lowercase(query) == m.entries[i].name,
        first_index(m.alias_names(), lowercase(query)) is None,
    ensures
        m.lookup(query) == Some(i),
{
    crate::keyed::lemma_distinct_first_index(m.names(), i);
}

/// A command that was just registered under a name is the one that each
/// spelling of the name finds, whatever the case, as long as no alias has
/// the name.
pub proof fn lemma_lookup_after_register<C: ?Sized>(
    m: ManagerView<C>,
    name: Seq<char>,
    arity: Option<usize>,
    command: Box<C>,
    query: Seq<char>,
)
    requires
        m.wf(),
        lowercase(query) == lowercase(name),
        first_index(m.alias_names(), lowercase(name)) is None,
    ensures
        m.register(lowercase(name), arity, command).lookup(query) matches Some(i) && m.register(
            lowercase(name),
            arity,
            command,
        ).entries[i] == (Entry { name: lowercase(name), arity, command }),
{
    m.lemma_register(lowercase(name), arity, command);
    lemma_first_index(m.names(), lowercase(name));
}

/// Lookup ignores case: two spellings with the same lowercase form find
/// the same command, or both none.
pub proof fn lemma_lookup_ignores_case<C: ?Sized>(m: ManagerView<C>, a: Seq<char>, b: Seq<char>)
    requires
        lowercase(a) == lowercase(b),
    ensures
        m.canonical(a) == m.canonical(b),
        m.lookup(a) == m.lookup(b),
{
}

} // verus!
