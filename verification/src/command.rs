//! The command registry: a name-to-handler mapping kept in a versioned
//! radix tree, so that a view can be taken cheaply and read while the registry
//! is rebuilt.

use crate::interaction::Interaction;
use crate::interaction::InteractionData;
use crate::text::debug_quote;
use crate::text::debug_quoted;
use rart::keys::array_key::ArrayKey;
use rart::versioned_tree::VersionedAdaptiveRadixTree;
use vstd::prelude::*;
use vstd::string::StringExecFns;

pub mod new_release;

verus! {

/// What stands for a handler in the registry: its place in the table of
/// handlers that the caller keeps.
pub type HandlerId = usize;

/// The radix tree that holds the registry: a
/// `rart::VersionedAdaptiveRadixTree` with 32-byte keys. Its nodes are shared
/// between versions and copied on write.
#[verifier::external_body]
pub struct NameTree {
    tree: VersionedAdaptiveRadixTree<ArrayKey<32>, HandlerId>,
}

/// What a tree holds: for each name, the handler id stored under the key made
/// of the name's UTF-8 bytes and a closing zero byte.
pub uninterp spec fn tree_entries(tree: NameTree) -> Map<Seq<char>, HandlerId>;

/// The tree's version counter: the number of changes made on the way to it.
pub uninterp spec fn tree_version(tree: NameTree) -> u64;

/// The registry in which no name is bound.
pub open spec fn no_entries() -> Map<Seq<char>, HandlerId> {
    Map::empty()
}

/// A name that the tree can hold as a key: with its closing zero byte it fits
/// into the 32 bytes of a key with room to spare, and it holds no zero byte
/// itself, so that no key is the beginning of another.
pub open spec fn is_key(name: Seq<char>) -> bool {
    let bytes = vstd::utf8::encode_utf8(name);
    &&& bytes.len() + 1 < 32
    &&& forall|i: int| 0 <= i < bytes.len() ==> bytes[i] != 0
}

/// `VersionedAdaptiveRadixTree::new`: the tree it makes is empty and at
/// version 0.
#[verifier::external_body]
fn tree_new() -> (tree: NameTree)
    ensures
        tree_entries(tree) == no_entries(),
        tree_version(tree) == 0,
{
    NameTree { tree: VersionedAdaptiveRadixTree::new() }
}

/// `VersionedAdaptiveRadixTree::get` with a string key: the handler id stored
/// under the name, if there is one.
#[verifier::external_body]
fn tree_get(tree: &NameTree, name: &str) -> (found: Option<HandlerId>)
    requires
        is_key(name@),
    ensures
        found == (if tree_entries(*tree).dom().contains(name@) {
            Some(tree_entries(*tree)[name@])
        } else {
            None
        }),
{
    tree.tree.get(name).copied()
}

/// `VersionedAdaptiveRadixTree::insert` with a string key: the name is bound
/// to the handler id, whatever it was bound to before; the version goes up by
/// one; the result says whether the name was bound before.
#[verifier::external_body]
fn tree_insert(tree: &mut NameTree, name: &str, handler: HandlerId) -> (replaced: bool)
    requires
        is_key(name@),
        tree_version(*old(tree)) < u64::MAX,
    ensures
        tree_entries(*final(tree)) == tree_entries(*old(tree)).insert(name@, handler),
        tree_version(*final(tree)) == tree_version(*old(tree)) + 1,
        replaced == tree_entries(*old(tree)).dom().contains(name@),
{
    tree.tree.insert(name, handler)
}

/// `VersionedAdaptiveRadixTree::clone`: a second handle on the same entries
/// at the same version, independent of the first from then on.
#[verifier::external_body]
fn tree_clone(tree: &NameTree) -> (copy: NameTree)
    ensures
        tree_entries(copy) == tree_entries(*tree),
        tree_version(copy) == tree_version(*tree),
{
    NameTree { tree: tree.tree.clone() }
}

/// `VersionedAdaptiveRadixTree::version`: the tree's version counter.
#[verifier::external_body]
fn tree_version_of(tree: &NameTree) -> (version: u64)
    ensures
        version == tree_version(*tree),
{
    tree.tree.version()
}

/// Whether `name` can be held as a key.
pub fn name_is_key(name: &str) -> (fit: bool)
    ensures
        fit == is_key(name@),
{
    let bytes = name.as_bytes();
    if bytes.len() >= 31 {
        return false;
    }
    let mut i: usize = 0;
    while i < bytes.len()
        invariant
            i <= bytes@.len(),
            bytes@ == vstd::utf8::encode_utf8(name@),
            forall|j: int| 0 <= j < i ==> bytes@[j] != 0,
        decreases bytes@.len() - i,
    {
        if bytes[i] == 0 {
            return false;
        }
        i += 1;
    }
    true
}

/// One entry of the command catalog: a command name and the handler that
/// answers it.
#[derive(Debug, Clone, PartialEq, Eq)]
pub struct CommandRegistration {
    pub name: String,
    pub handler: HandlerId,
}

/// Why a name could not be registered.
#[derive(Debug, Clone, PartialEq, Eq)]
pub enum RegistryError {
    /// The name is registered already.
    DuplicateName { name: String },
    /// The name is too long for a key of the registry, or holds a zero byte.
    UnsupportedName { name: String },
    /// The registry has been changed as often as its version counter allows.
    Exhausted,
}

/// A `RegistryError` with its name as a sequence of characters.
pub enum RegistryFault {
    DuplicateName(Seq<char>),
    UnsupportedName(Seq<char>),
    Exhausted,
}

impl View for RegistryError {
    type V = RegistryFault;

    open spec fn view(&self) -> RegistryFault {
        match self {
            RegistryError::DuplicateName { name } => RegistryFault::DuplicateName(name@),
            RegistryError::UnsupportedName { name } => RegistryFault::UnsupportedName(name@),
            RegistryError::Exhausted => RegistryFault::Exhausted,
        }
    }
}

/// What registering `name` for `handler` makes of a registry with the given
/// entries and version: the name must be fit for a key and not yet bound, and
/// the version counter must have room for one more change.
pub open spec fn registered(
    entries: Map<Seq<char>, HandlerId>,
    version: u64,
    name: Seq<char>,
    handler: HandlerId,
) -> Result<Map<Seq<char>, HandlerId>, RegistryFault> {
    if !is_key(name) {
        Err(RegistryFault::UnsupportedName(name))
    } else if entries.dom().contains(name) {
        Err(RegistryFault::DuplicateName(name))
    } else if version == u64::MAX {
        Err(RegistryFault::Exhausted)
    } else {
        Ok(entries.insert(name, handler))
    }
}

/// What building a registry from a catalog yields: its entries are
/// registered in order, and the first that cannot be stops the build.
pub open spec fn built(catalog: Seq<CommandRegistration>) -> Result<
    Map<Seq<char>, HandlerId>,
    RegistryFault,
>
    decreases catalog.len(),
{
    if catalog.len() == 0 {
        Ok(no_entries())
    } else {
        match built(catalog.drop_last()) {
            Ok(entries) => registered(entries, 0, catalog.last().name@, catalog.last().handler),
            Err(fault) => Err(fault),
        }
    }
}

/// What a lookup of `name` finds among `entries`: the handler bound to
/// exactly that name.
pub open spec fn found(entries: Map<Seq<char>, HandlerId>, name: Seq<char>) -> Option<HandlerId> {
    if entries.dom().contains(name) {
        Some(entries[name])
    } else {
        None
    }
}

/// A build that has failed on the first `k` entries of a catalog fails in the
/// same way on the whole catalog.
pub proof fn lemma_built_failure_stays(catalog: Seq<CommandRegistration>, k: int)
    requires
        0 <= k <= catalog.len(),
        built(catalog.take(k)) is Err,
    ensures
        built(catalog) == built(catalog.take(k)),
    decreases catalog.len() - k,
{
    if k == catalog.len() {
        assert(catalog.take(k) == catalog);
    } else {
        assert(catalog.take(k + 1).drop_last() == catalog.take(k));
        lemma_built_failure_stays(catalog, k + 1);
    }
}

/// Every name of the catalog is fit for a key, and no name occurs twice.
pub open spec fn names_distinct_keys(catalog: Seq<CommandRegistration>) -> bool {
    &&& forall|i: int| 0 <= i < catalog.len() ==> is_key(#[trigger] catalog[i].name@)
    &&& forall|i: int, j: int|
        0 <= i < j < catalog.len() ==> #[trigger] catalog[i].name@ != #[trigger] catalog[j].name@
}

/// `name` is the name of some entry of the catalog.
pub open spec fn names(catalog: Seq<CommandRegistration>, name: Seq<char>) -> bool {
    exists|i: int| 0 <= i < catalog.len() && #[trigger] catalog[i].name@ == name
}

/// A build succeeds exactly on the catalogs whose names are distinct keys,
/// and then binds exactly the catalog's names, each to its own handler.
pub proof fn lemma_built(catalog: Seq<CommandRegistration>)
    ensures
        built(catalog) is Ok <==> names_distinct_keys(catalog),
        built(catalog) matches Ok(entries) ==> {
            &&& forall|name: Seq<char>| #[trigger] entries.dom().contains(name) <==> names(catalog, name)
            &&& forall|i: int|
                0 <= i < catalog.len() ==> entries[#[trigger] catalog[i].name@] == catalog[i].handler
        },
    decreases catalog.len(),
{
    if catalog.len() > 0 {
        let front = catalog.drop_last();
        let last = catalog.last();
        lemma_built(front);
        assert(forall|i: int| 0 <= i < front.len() ==> front[i] == catalog[i]);
        match built(front) {
            Ok(entries) => {
                assert(names_distinct_keys(front));
                if is_key(last.name@) && !entries.dom().contains(last.name@) {
                    let after = entries.insert(last.name@, last.handler);
                    assert(built(catalog) == Ok::<Map<Seq<char>, HandlerId>, RegistryFault>(after));
                    assert forall|i: int, j: int| 0 <= i < j < catalog.len() implies catalog[i].name@
                        != catalog[j].name@ by {
                        if j == catalog.len() - 1 {
                            assert(front[i].name@ == catalog[i].name@);
                            assert(names(front, catalog[i].name@));
                        } else {
                            assert(front[i].name@ != front[j].name@);
                        }
                    }
                    assert(names_distinct_keys(catalog));
                    assert forall|name: Seq<char>| #[trigger]
                        after.dom().contains(name) <==> names(catalog, name) by {
                        if names(catalog, name) {
                            let i = choose|i: int|
                                0 <= i < catalog.len() && #[trigger] catalog[i].name@ == name;
                            if i < front.len() {
                                assert(front[i].name@ == name);
                                assert(names(front, name));
                            }
                        }
                        if after.dom().contains(name) {
                            if name == last.name@ {
                                assert(catalog[catalog.len() - 1].name@ == name);
                            } else {
                                assert(names(front, name));
                                let i = choose|i: int|
                                    0 <= i < front.len() && #[trigger] front[i].name@ == name;
                                assert(catalog[i].name@ == name);
                            }
                        }
                    }
                    assert forall|i: int| 0 <= i < catalog.len() implies after[#[trigger]
                        catalog[i].name@] == catalog[i].handler by {
                        if i < front.len() {
                            assert(front[i].name@ == catalog[i].name@);
                            assert(names(front, catalog[i].name@));
                        }
                    }
                } else {
                    assert(built(catalog) is Err);
                    if is_key(last.name@) {
                        assert(names(front, last.name@));
                        let i = choose|i: int|
                            0 <= i < front.len() && #[trigger] front[i].name@ == last.name@;
                        assert(catalog[i].name@ == catalog[catalog.len() - 1].name@);
                    } else {
                        assert(!is_key(catalog[catalog.len() - 1].name@));
                    }
                }
            },
            Err(_) => {
                if names_distinct_keys(catalog) {
                    assert(names_distinct_keys(front));
                }
            },
        }
    } else {
        assert(no_entries().dom() =~= Set::<Seq<char>>::empty());
    }
}

/// Built from a catalog of distinct names that are fit for keys, the registry
/// answers a lookup of each registered name with that name's own handler, and
/// a lookup of any other name with nothing: a name that a registered name
/// begins with, or that begins with a registered name, is another name.
pub proof fn law_build_then_lookup(catalog: Seq<CommandRegistration>)
    requires
        names_distinct_keys(catalog),
    ensures
        built(catalog) is Ok,
        forall|i: int|
            0 <= i < catalog.len() ==> found(built(catalog)->Ok_0, #[trigger] catalog[i].name@)
                == Some(catalog[i].handler),
        forall|name: Seq<char>|
            !names(catalog, name) ==> #[trigger] found(built(catalog)->Ok_0, name) == None::<
                HandlerId,
            >,
{
    lemma_built(catalog);
    let entries = built(catalog)->Ok_0;
    assert forall|i: int| 0 <= i < catalog.len() implies found(entries, #[trigger] catalog[i].name@)
        == Some(catalog[i].handler) by {
        assert(names(catalog, catalog[i].name@));
    }
}

/// A catalog in which a name occurs twice cannot be built: the build fails,
/// and it fails the same way each time, since what it yields is a function of
/// the catalog.
pub proof fn law_duplicate_name_fails(catalog: Seq<CommandRegistration>, i: int, j: int)
    requires
        0 <= i < j < catalog.len(),
        catalog[i].name@ == catalog[j].name@,
    ensures
        built(catalog) is Err,
{
    lemma_built(catalog);
}

/// The handler of the `new-release` command.
pub const NEW_RELEASE: HandlerId = 0;

/// The catalog of commands: each command's name with its handler.
pub fn all() -> (catalog: Vec<CommandRegistration>)
    ensures
        catalog@.len() == 1,
        catalog@[0].name@ == new_release::NAME@,
        catalog@[0].handler == NEW_RELEASE,
{
    let mut catalog: Vec<CommandRegistration> = Vec::new();
    catalog.push(
        CommandRegistration { name: String::from_str(new_release::NAME), handler: NEW_RELEASE },
    );
    catalog
}

/// Why an interaction could not be handed to a command handler.
#[derive(Debug, Clone, PartialEq, Eq)]
pub enum HandlingError {
    /// The interaction came without any payload.
    MisssingInteractionData,
    /// The interaction's payload is not a command invocation.
    MissingExpectedCommandData,
    /// No handler is registered under the command's name.
    CommandDoesntExist { name: String },
}

impl HandlingError {
    /// The error in words.
    pub open spec fn message_spec(&self) -> Seq<char> {
        match self {
            HandlingError::MisssingInteractionData => "missing expected interaction data"@,
            HandlingError::MissingExpectedCommandData => "missing expected command data"@,
            HandlingError::CommandDoesntExist { name } => {
                "asked to handle a non-existant command "@ + debug_quoted(name@)
            },
        }
    }

    /// The status that answers the request: an interaction without the
    /// payload of a command is malformed, a command without a handler is not
    /// found.
    pub fn status_code(&self) -> (status: u16)
        ensures
            status == (if *self is CommandDoesntExist {
                404u16
            } else {
                400u16
            }),
    {
        match self {
            HandlingError::CommandDoesntExist { .. } => 404,
            _ => 400,
        }
    }

    /// The error in words.
    pub fn message(&self) -> (text: String)
        ensures
            text@ == self.message_spec(),
    {
        match self {
            HandlingError::MisssingInteractionData => {
                String::from_str("missing expected interaction data")
            },
            HandlingError::MissingExpectedCommandData => {
                String::from_str("missing expected command data")
            },
            HandlingError::CommandDoesntExist { name } => {
                let quoted = debug_quote(name.as_str());
                String::from_str("asked to handle a non-existant command ").concat(quoted.as_str())
            },
        }
    }
}

/// Where an interaction is routed among `entries`: to the handler registered
/// under its command's name, if it carries a command and the name is
/// registered.
pub open spec fn routed(entries: Map<Seq<char>, HandlerId>, interaction: Interaction) -> Result<
    HandlerId,
    HandlingError,
> {
    match interaction.data {
        None => Err(HandlingError::MisssingInteractionData),
        Some(InteractionData::ApplicationCommand(command_data)) => match found(
            entries,
            command_data.name@,
        ) {
            Some(handler) => Ok(handler),
            None => Err(HandlingError::CommandDoesntExist { name: command_data.name }),
        },
        Some(InteractionData::Other) => Err(HandlingError::MissingExpectedCommandData),
    }
}

/// The command registry: which handler answers which command name.
///
/// Every name in it is fit for a key. A view of it is a registry of its own:
/// later changes to either leave the other as it was.
pub struct CommandRouter {
    map: NameTree,
}

impl Clone for CommandRouter {
    fn clone(&self) -> (view: Self)
        ensures
            view.entries() == self.entries(),
            view.version() == self.version(),
    {
        self.current_view()
    }
}

impl Default for CommandRouter {
    fn default() -> (router: Self)
        ensures
            router.entries() == no_entries(),
            router.version() == 0,
    {
        CommandRouter::new()
    }
}

impl CommandRouter {
    #[verifier::type_invariant]
    spec fn names_are_keys(self) -> bool {
        forall|name: Seq<char>| #[trigger] tree_entries(self.map).dom().contains(name) ==> is_key(name)
    }

    /// The registry's entries: each registered name with its handler.
    pub closed spec fn entries(&self) -> Map<Seq<char>, HandlerId> {
        tree_entries(self.map)
    }

    /// How often the registry has been changed.
    pub closed spec fn version(&self) -> u64 {
        tree_version(self.map)
    }

    /// The empty registry.
    pub fn new() -> (router: Self)
        ensures
            router.entries() == no_entries(),
            router.version() == 0,
    {
        CommandRouter { map: tree_new() }
    }

    /// The handler registered under exactly `name`, if there is one. Names
    /// that only begin like `name`, or that `name` only begins like, do not
    /// count.
    pub fn lookup(&self, name: &str) -> (handler: Option<HandlerId>)
        ensures
            handler == found(self.entries(), name@),
    {
        proof {
            use_type_invariant(self);
        }
        if name_is_key(name) {
            tree_get(&self.map, name)
        } else {
            None
        }
    }

    /// Routes an interaction: the handler that is to answer it, or why none
    /// can.
    pub fn handle(&self, interaction: &Interaction) -> (route: Result<HandlerId, HandlingError>)
        ensures
            route == routed(self.entries(), *interaction),
    {
        match &interaction.data {
            None => Err(HandlingError::MisssingInteractionData),
            Some(InteractionData::ApplicationCommand(command_data)) => {
                match self.lookup(command_data.name.as_str()) {
                    Some(handler) => Ok(handler),
                    None => Err(
                        HandlingError::CommandDoesntExist { name: command_data.name.clone() },
                    ),
                }
            },
            Some(InteractionData::Other) => Err(HandlingError::MissingExpectedCommandData),
        }
    }

    /// A view of the registry as it stands: a handle of its own on the same
    /// entries.
    pub fn current_view(&self) -> (view: Self)
        ensures
            view.entries() == self.entries(),
            view.version() == self.version(),
    {
        proof {
            use_type_invariant(self);
        }
        CommandRouter { map: tree_clone(&self.map) }
    }

    /// Registers `name` for `handler`, or says why it cannot be registered and
    /// leaves the registry as it was.
    pub fn register(&mut self, name: &str, handler: HandlerId) -> (outcome: Result<
        (),
        RegistryError,
    >)
        ensures
            match registered(old(self).entries(), old(self).version(), name@, handler) {
                Ok(entries) => {
                    &&& outcome is Ok
                    &&& final(self).entries() == entries
                    &&& final(self).version() == old(self).version() + 1
                },
                Err(fault) => {
                    &&& outcome matches Err(error)
                    &&& error@ == fault
                    &&& final(self).entries() == old(self).entries()
                    &&& final(self).version() == old(self).version()
                },
            },
    {
        proof {
            use_type_invariant(&*self);
        }
        if !name_is_key(name) {
            return Err(RegistryError::UnsupportedName { name: String::from_str(name) });
        }
        if tree_get(&self.map, name).is_some() {
            return Err(RegistryError::DuplicateName { name: String::from_str(name) });
        }
        if tree_version_of(&self.map) == u64::MAX {
            return Err(RegistryError::Exhausted);
        }
        let mut map = tree_new();
        std::mem::swap(&mut self.map, &mut map);
        let _ = tree_insert(&mut map, name, handler);
        std::mem::swap(&mut self.map, &mut map);
        Ok(())
    }

    /// Builds the registry from a catalog of commands. A name that occurs
    /// twice, or that is unfit for a key, fails the build at its first
    /// occurrence that cannot be registered.
    pub fn build(catalog: &Vec<CommandRegistration>) -> (outcome: Result<Self, RegistryError>)
        ensures
            match built(catalog@) {
                Ok(entries) => outcome matches Ok(router) && router.entries() == entries,
                Err(fault) => outcome matches Err(error) && error@ == fault,
            },
    {
        let mut router = CommandRouter::new();
        let mut i: usize = 0;
        while i < catalog.len()
            invariant
                i <= catalog@.len(),
                built(catalog@.take(i as int)) == Ok::<Map<Seq<char>, HandlerId>, RegistryFault>(
                    router.entries(),
                ),
                router.version() == i,
            decreases catalog@.len() - i,
        {
            let registration = &catalog[i];
            proof {
                assert(catalog@.take(i + 1).drop_last() == catalog@.take(i as int));
            }
            match router.register(registration.name.as_str(), registration.handler) {
                Ok(()) => {},
                Err(error) => {
                    proof {
                        lemma_built_failure_stays(catalog@, i + 1);
                    }
                    return Err(error);
                },
            }
            i += 1;
        }
        proof {
            assert(catalog@.take(i as int) == catalog@);
        }
        Ok(router)
    }
}

} // verus!
