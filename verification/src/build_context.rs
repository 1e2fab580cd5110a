//! What a build consults: the symbol tables of a target and the procedures that
//! are registered.

use crate::custom_block::CustomBlockTy;
use crate::custom_block::SignatureView;
use crate::uid::Uid;
use crate::uid::unknown_text;
use vstd::hash_map::StringHashMap;
use vstd::prelude::*;

verus! {

/// The models of the identifiers of a table.
pub open spec fn table_view(table: Map<Seq<char>, Uid>) -> Map<Seq<char>, Seq<char>> {
    table.map_values(|id: Uid| id@)
}

/// What a reference to `name` resolves to: the identifier that the table holds
/// under the name, or the identifier for unknown symbols.
pub open spec fn resolve(table: Map<Seq<char>, Seq<char>>, name: Seq<char>) -> Seq<char> {
    if table.contains_key(name) {
        table[name]
    } else {
        unknown_text()
    }
}

/// The identifiers of the symbols of one scope, by name.  Its view maps the text
/// of a name to the text of the identifier.
pub struct SymbolTable {
    table: StringHashMap<Uid>,
}

impl View for SymbolTable {
    type V = Map<Seq<char>, Seq<char>>;

    closed spec fn view(&self) -> Map<Seq<char>, Seq<char>> {
        table_view(self.table@)
    }
}

impl SymbolTable {
    /// A table without symbols.
    pub fn new() -> (table: SymbolTable)
        ensures
            table@ == Map::<Seq<char>, Seq<char>>::empty(),
    {
        let table = SymbolTable { table: StringHashMap::new() };
        assert(table@ =~= Map::<Seq<char>, Seq<char>>::empty());
        table
    }

    /// Puts `uid` under `name`, in place of what stood there.
    pub fn insert(&mut self, name: String, uid: Uid)
        ensures
            final(self)@ == old(self)@.insert(name@, uid@),
    {
        self.table.insert(name, uid);
        assert(self@ =~= old(self)@.insert(name@, uid@));
    }

    /// The identifier under `name`, if the table holds one.
    pub fn get(&self, name: &str) -> (found: Option<Uid>)
        ensures
            match found {
                Some(uid) => self@.contains_key(name@) && uid@ == self@[name@],
                None => !self@.contains_key(name@),
            },
    {
        match self.table.get(name) {
            Some(uid) => Some(uid.clone()),
            None => None,
        }
    }

    /// What a reference to `name` resolves to.  Resolution never fails: a name
    /// that the table lacks resolves to the identifier for unknown symbols.
    pub fn resolve(&self, name: &str) -> (uid: Uid)
        ensures
            uid@ == resolve(self@, name@),
    {
        match self.table.get(name) {
            Some(uid) => uid.clone(),
            None => Uid::unknown(),
        }
    }
}

/// The symbols that all targets share.
pub struct GlobalVarListContext {
    pub vars: SymbolTable,
    pub lists: SymbolTable,
}

/// The first signature under `name` among those from `from` on.
pub open spec fn find_from(procs: Seq<SignatureView>, name: Seq<char>, from: int) -> Option<int>
    decreases procs.len() - from,
{
    if from < 0 || from >= procs.len() {
        None
    } else if procs[from].name() == name {
        Some(from)
    } else {
        find_from(procs, name, from + 1)
    }
}

/// The signature registered under `name`, if there is one.
pub open spec fn find(procs: Seq<SignatureView>, name: Seq<char>) -> Option<SignatureView> {
    match find_from(procs, name, 0) {
        Some(i) => Some(procs[i]),
        None => None,
    }
}

/// The registry after `signature` was registered: it takes the place of the
/// signature that was registered under its name, if there was one.
pub open spec fn register(procs: Seq<SignatureView>, signature: SignatureView) -> Seq<
    SignatureView,
> {
    match find_from(procs, signature.name(), 0) {
        Some(i) => procs.update(i, signature),
        None => procs.push(signature),
    }
}

/// What `find_from` returns is the first place at or after `from` with the name.
pub proof fn lemma_find_from(procs: Seq<SignatureView>, name: Seq<char>, from: int)
    requires
        0 <= from,
    ensures
        match find_from(procs, name, from) {
            Some(i) => {
                &&& from <= i < procs.len()
                &&& procs[i].name() == name
                &&& forall|j: int| from <= j < i ==> procs[j].name() != name
            },
            None => forall|j: int| from <= j < procs.len() ==> procs[j].name() != name,
        },
    decreases procs.len() - from,
{
    if from < procs.len() && procs[from].name() != name {
        lemma_find_from(procs, name, from + 1);
    }
}

/// A signature is found under its name once it is registered, and registering it
/// changes what is found under no other name.
pub proof fn lemma_register_find(
    procs: Seq<SignatureView>,
    signature: SignatureView,
    name: Seq<char>,
)
    ensures
        find(register(procs, signature), signature.name()) == Some(signature),
        name != signature.name() ==> find(register(procs, signature), name) == find(procs, name),
{
    let after = register(procs, signature);
    lemma_find_from(procs, signature.name(), 0);
    lemma_find_from(after, signature.name(), 0);
    lemma_find_from(procs, name, 0);
    lemma_find_from(after, name, 0);
    match find_from(procs, signature.name(), 0) {
        Some(i) => {
            assert(after[i] == signature);
            match find_from(after, signature.name(), 0) {
                Some(k) => {
                    if k < i {
                        assert(after[k] == procs[k]);
                    }
                },
                None => {
                    assert(after[i].name() == signature.name());
                },
            }
            if name != signature.name() {
                match (find_from(procs, name, 0), find_from(after, name, 0)) {
                    (Some(a), Some(b)) => {
                        assert(a != i);
                        assert(b != i);
                        assert(after[a] == procs[a]);
                        assert(after[b] == procs[b]);
                        if a < b {
                            assert(after[a].name() == name);
                        }
                        if b < a {
                            assert(procs[b].name() == name);
                        }
                    },
                    (Some(a), None) => {
                        assert(a != i);
                        assert(after[a] == procs[a]);
                    },
                    (None, Some(b)) => {
                        assert(b != i);
                        assert(after[b] == procs[b]);
                    },
                    (None, None) => {},
                }
            }
        },
        None => {
            let n = procs.len() as int;
            assert(after[n] == signature);
            match find_from(after, signature.name(), 0) {
                Some(k) => {
                    if k < n {
                        assert(after[k] == procs[k]);
                    }
                },
                None => {
                    assert(after[n].name() == signature.name());
                },
            }
            if name != signature.name() {
                match (find_from(procs, name, 0), find_from(after, name, 0)) {
                    (Some(a), Some(b)) => {
                        assert(after[a] == procs[a]);
                        assert(b != n);
                        assert(after[b] == procs[b]);
                        if a < b {
                            assert(after[a].name() == name);
                        }
                        if b < a {
                            assert(procs[b].name() == name);
                        }
                    },
                    (Some(a), None) => {
                        assert(after[a] == procs[a]);
                    },
                    (None, Some(b)) => {
                        assert(b != n);
                        assert(after[b] == procs[b]);
                    },
                    (None, None) => {},
                }
            }
        },
    }
}

/// The models of a list of signatures.
pub open spec fn signatures_view(procs: Seq<CustomBlockTy>) -> Seq<SignatureView> {
    procs.map_values(|ty: CustomBlockTy| ty@)
}

/// The signatures of the procedures that were defined, by name.  Its view lists
/// the signatures in the order in which their names were first registered; no two
/// of them have the same name.
pub struct ProcRegistry {
    procs: Vec<CustomBlockTy>,
}

impl View for ProcRegistry {
    type V = Seq<SignatureView>;

    closed spec fn view(&self) -> Seq<SignatureView> {
        signatures_view(self.procs@)
    }
}

/// Whether no two signatures have the same name.
pub open spec fn distinct_names(procs: Seq<SignatureView>) -> bool {
    forall|i: int, j: int|
        0 <= i < j < procs.len() ==> (#[trigger] procs[i]).name() != (#[trigger] procs[j]).name()
}

/// Registering a signature keeps the names apart.
pub proof fn lemma_register_keeps_names_apart(procs: Seq<SignatureView>, signature: SignatureView)
    requires
        distinct_names(procs),
    ensures
        distinct_names(register(procs, signature)),
{
    lemma_find_from(procs, signature.name(), 0);
    let after = register(procs, signature);
    assert forall|i: int, j: int| 0 <= i < j < after.len() implies (#[trigger] after[i]).name() != (
    #[trigger] after[j]).name() by {
        match find_from(procs, signature.name(), 0) {
            Some(k) => {
                assert(procs[i].name() != procs[j].name());
                assert(after[k].name() == procs[k].name());
            },
            None => {
                if j < procs.len() {
                    assert(procs[i].name() != procs[j].name());
                } else {
                    assert(procs[i].name() != signature.name());
                }
            },
        }
    }
}

impl ProcRegistry {
    #[verifier::type_invariant]
    spec fn each_name_once(self) -> bool {
        distinct_names(signatures_view(self.procs@))
    }

    /// A registry without procedures.
    pub fn new() -> (registry: ProcRegistry)
        ensures
            registry@ == Seq::<SignatureView>::empty(),
    {
        let procs: Vec<CustomBlockTy> = Vec::new();
        assert(signatures_view(procs@) =~= Seq::<SignatureView>::empty());
        ProcRegistry { procs }
    }

    fn position(&self, name: &String) -> (found: Option<usize>)
        ensures
            match found {
                Some(i) => find_from(self@, name@, 0) == Some(i as int) && i < self.procs.len(),
                None => find_from(self@, name@, 0) is None,
            },
    {
        let mut i: usize = 0;
        while i < self.procs.len()
            invariant
                0 <= i <= self.procs.len(),
                self@ == signatures_view(self.procs@),
                find_from(self@, name@, 0) == find_from(self@, name@, i as int),
            decreases self.procs.len() - i,
        {
            let candidate = self.procs[i].name();
            proof {
                assert(self@[i as int] == self.procs@[i as int]@);
            }
            if candidate == *name {
                return Some(i);
            }
            i = i + 1;
        }
        None
    }

    /// Registers a signature under its name.  A signature that was registered
    /// under the same name before is replaced.
    pub fn register(&mut self, signature: CustomBlockTy)
        ensures
            final(self)@ == register(old(self)@, signature@),
            distinct_names(final(self)@),
    {
        proof {
            use_type_invariant(&*self);
            lemma_register_keeps_names_apart(self@, signature@);
        }
        let name = signature.name();
        let found = self.position(&name);
        let mut procs: Vec<CustomBlockTy> = Vec::new();
        core::mem::swap(&mut procs, &mut self.procs);
        let ghost before = procs@;
        match found {
            Some(i) => {
                procs.set(i, signature);
                assert(signatures_view(procs@) =~= signatures_view(before).update(
                    i as int,
                    signature@,
                ));
            },
            None => {
                procs.push(signature);
                assert(signatures_view(procs@) =~= signatures_view(before).push(signature@));
            },
        }
        self.procs = procs;
    }

    /// The signature registered under `name`, if there is one.
    pub fn find(&self, name: &String) -> (found: Option<&CustomBlockTy>)
        ensures
            match found {
                Some(ty) => find(self@, name@) == Some(ty@),
                None => find(self@, name@) is None,
            },
    {
        match self.position(name) {
            Some(i) => {
                proof {
                    assert(self@[i as int] == self.procs@[i as int]@);
                }
                Some(&self.procs[i])
            },
            None => None,
        }
    }

    /// The number of registered signatures.
    pub fn len(&self) -> (n: usize)
        ensures
            n == self@.len(),
    {
        self.procs.len()
    }
}

/// The tables that a build of one target consults.
pub struct TargetContext<'a> {
    pub global_vars: &'a SymbolTable,
    pub global_lists: &'a SymbolTable,
    pub this_sprite_vars: &'a SymbolTable,
    pub this_sprite_lists: &'a SymbolTable,
    pub all_broadcasts: &'a SymbolTable,
    pub custom_blocks: &'a ProcRegistry,
}

/// The model of a [`TargetContext`]: its tables and the registered signatures.
pub struct ContextView {
    pub global_vars: Map<Seq<char>, Seq<char>>,
    pub global_lists: Map<Seq<char>, Seq<char>>,
    pub this_sprite_vars: Map<Seq<char>, Seq<char>>,
    pub this_sprite_lists: Map<Seq<char>, Seq<char>>,
    pub all_broadcasts: Map<Seq<char>, Seq<char>>,
    pub custom_blocks: Seq<SignatureView>,
}

impl<'a> View for TargetContext<'a> {
    type V = ContextView;

    open spec fn view(&self) -> ContextView {
        ContextView {
            global_vars: self.global_vars@,
            global_lists: self.global_lists@,
            this_sprite_vars: self.this_sprite_vars@,
            this_sprite_lists: self.this_sprite_lists@,
            all_broadcasts: self.all_broadcasts@,
            custom_blocks: self.custom_blocks@,
        }
    }
}

} // verus!
