//! Suggestion entries and their database, kept in sync with the language server.
//!
//! The database is loaded from a full snapshot and then follows a stream of update events.
//! Entries arrive in one of four wire shapes and are normalized into a single `Entry` record;
//! an entry that cannot be normalized is skipped without disturbing the others.

use std::collections::HashMap;
use std::rc::Rc;
use vstd::prelude::*;

use crate::qualified_name::{
    is_valid_name, name_error, split_segments, InvalidQualifiedName, QualifiedName,
};

verus! {

broadcast use vstd::std_specs::hash::group_hash_axioms;

/// Identifier of a suggestion, assigned by the language server.
pub type EntryId = usize;

/// Version of the suggestion database, assigned by the language server.
pub type Version = usize;

// =============
// === Entry ===
// =============

/// A type of suggestion entry.
#[derive(Clone, Copy, Debug, PartialEq, Eq, Structural)]
pub enum EntryKind {
    Atom,
    Function,
    Local,
    Method,
}

/// An argument of a suggested atom, function or method, kept as the language server sent it.
#[derive(Clone, Debug, PartialEq, Eq)]
pub struct Argument {
    /// The argument's name.
    pub name: String,
    /// The argument's type.
    pub repr_type: String,
    /// Whether the argument is evaluated lazily.
    pub is_suspended: bool,
    /// Whether the argument has a default value.
    pub has_default: bool,
    /// The default value's code, if any.
    pub default_value: Option<String>,
}

/// A suggestion entry in one of the shapes the language server sends.
#[derive(Clone, Debug, PartialEq, Eq)]
pub enum SuggestionEntry {
    Atom {
        name: String,
        module: String,
        arguments: Vec<Argument>,
        return_type: String,
        documentation: Option<String>,
    },
    Method {
        name: String,
        module: String,
        arguments: Vec<Argument>,
        self_type: String,
        return_type: String,
        documentation: Option<String>,
    },
    Function { name: String, module: String, arguments: Vec<Argument>, return_type: String },
    Local { name: String, module: String, return_type: String },
}

/// Why an incoming entry could not be turned into an `Entry`.
#[derive(Clone, Copy, Debug, PartialEq, Eq)]
pub enum NormalizationError {
    /// The entry's module is not a valid qualified name.
    InvalidModule(InvalidQualifiedName),
}

/// The Suggestion Database Entry.
#[derive(Clone, Debug, PartialEq, Eq)]
pub struct Entry {
    /// A name of suggested object.
    pub name: String,
    /// A type of suggestion.
    pub kind: EntryKind,
    /// A module where the suggested object is defined.
    pub module: QualifiedName,
    /// Argument lists of suggested object (atom or function). If the object does not take any
    /// arguments, the list is empty.
    pub arguments: Vec<Argument>,
    /// A type returned by the suggested object.
    pub return_type: String,
    /// A documentation associated with object.
    pub documentation: Option<String>,
    /// A type of the "self" argument. This field is `None` for non-method suggestions.
    pub self_type: Option<String>,
}

/// The mathematical content of an `Entry`.
pub struct EntryView {
    pub name: Seq<char>,
    pub kind: EntryKind,
    pub module: Seq<Seq<char>>,
    pub arguments: Seq<Argument>,
    pub return_type: Seq<char>,
    pub documentation: Option<Seq<char>>,
    pub self_type: Option<Seq<char>>,
}

impl View for Entry {
    type V = EntryView;

    open spec fn view(&self) -> EntryView {
        EntryView {
            name: self.name@,
            kind: self.kind,
            module: self.module@,
            arguments: self.arguments@,
            return_type: self.return_type@,
            documentation: self.documentation.deep_view(),
            self_type: self.self_type.deep_view(),
        }
    }
}

/// The module text of an incoming entry, whatever its shape.
pub open spec fn module_text(raw: SuggestionEntry) -> Seq<char> {
    match raw {
        SuggestionEntry::Atom { module, .. } => module@,
        SuggestionEntry::Method { module, .. } => module@,
        SuggestionEntry::Function { module, .. } => module@,
        SuggestionEntry::Local { module, .. } => module@,
    }
}

/// The entry that an incoming entry stands for, or `None` when its module is malformed.
/// Only methods have a self type; functions and locals carry no documentation, and locals
/// no arguments.
pub open spec fn normalized(raw: SuggestionEntry) -> Option<EntryView> {
    let module = split_segments(module_text(raw));
    if name_error(module) is Some {
        None
    } else {
        Some(
            match raw {
                SuggestionEntry::Atom { name, arguments, return_type, documentation, .. } => {
                    EntryView {
                        name: name@,
                        kind: EntryKind::Atom,
                        module,
                        arguments: arguments@,
                        return_type: return_type@,
                        documentation: documentation.deep_view(),
                        self_type: None,
                    }
                },
                SuggestionEntry::Method {
                    name,
                    arguments,
                    self_type,
                    return_type,
                    documentation,
                    ..
                } => EntryView {
                    name: name@,
                    kind: EntryKind::Method,
                    module,
                    arguments: arguments@,
                    return_type: return_type@,
                    documentation: documentation.deep_view(),
                    self_type: Some(self_type@),
                },
                SuggestionEntry::Function { name, arguments, return_type, .. } => EntryView {
                    name: name@,
                    kind: EntryKind::Function,
                    module,
                    arguments: arguments@,
                    return_type: return_type@,
                    documentation: None,
                    self_type: None,
                },
                SuggestionEntry::Local { name, return_type, .. } => EntryView {
                    name: name@,
                    kind: EntryKind::Local,
                    module,
                    arguments: Seq::empty(),
                    return_type: return_type@,
                    documentation: None,
                    self_type: None,
                },
            },
        )
    }
}

/// The text inserted into the searcher input when `e` is picked: the name, qualified with the
/// module name when the entry is a method whose self type is its own module.
pub open spec fn code_to_insert_of(e: EntryView) -> Seq<char> {
    if e.self_type == Some(e.module.last()) {
        e.module.last() + seq!['.'] + e.name
    } else {
        e.name
    }
}

fn parse_module(module: &String) -> (r: Result<QualifiedName, NormalizationError>)
    ensures
        match r {
            Ok(q) => name_error(split_segments(module@)) is None && q@ == split_segments(module@),
            Err(NormalizationError::InvalidModule(e)) => name_error(split_segments(module@)) == Some(e),
        },
{
    match QualifiedName::from_text(module.as_str()) {
        Ok(q) => Ok(q),
        Err(e) => Err(NormalizationError::InvalidModule(e)),
    }
}

impl Entry {
    /// Create entry from the structure deserialized from the Language Server responses.
    pub fn from_ls_entry(entry: SuggestionEntry) -> (r: Result<Entry, NormalizationError>)
        ensures
            match r {
                Ok(e) => normalized(entry) == Some(e@),
                Err(NormalizationError::InvalidModule(err)) => normalized(entry) is None
                    && name_error(split_segments(module_text(entry))) == Some(err),
            },
    {
        match entry {
            SuggestionEntry::Atom { name, module, arguments, return_type, documentation } => {
                let module = parse_module(&module)?;
                Ok(
                    Entry {
                        name,
                        kind: EntryKind::Atom,
                        module,
                        arguments,
                        return_type,
                        documentation,
                        self_type: None,
                    },
                )
            },
            SuggestionEntry::Method {
                name,
                module,
                arguments,
                self_type,
                return_type,
                documentation,
            } => {
                let module = parse_module(&module)?;
                Ok(
                    Entry {
                        name,
                        kind: EntryKind::Method,
                        module,
                        arguments,
                        return_type,
                        documentation,
                        self_type: Some(self_type),
                    },
                )
            },
            SuggestionEntry::Function { name, module, arguments, return_type } => {
                let module = parse_module(&module)?;
                Ok(
                    Entry {
                        name,
                        kind: EntryKind::Function,
                        module,
                        arguments,
                        return_type,
                        documentation: None,
                        self_type: None,
                    },
                )
            },
            SuggestionEntry::Local { name, module, return_type } => {
                let module = parse_module(&module)?;
                Ok(
                    Entry {
                        name,
                        kind: EntryKind::Local,
                        module,
                        arguments: Vec::new(),
                        return_type,
                        documentation: None,
                        self_type: None,
                    },
                )
            },
        }
    }

    /// Returns the code which should be inserted to Searcher input when suggestion is picked.
    pub fn code_to_insert(&self) -> (r: String)
        ensures
            r@ == code_to_insert_of(self@),
    {
        let module = self.module.name();
        let qualify = match &self.self_type {
            Some(self_type) => *self_type == *module,
            None => false,
        };
        if qualify {
            proof {
                reveal_strlit(".");
            }
            let code = module.clone().concat(".").concat(self.name.as_str());
            assert(code@ =~= module@ + seq!['.'] + self.name@);
            code
        } else {
            self.name.clone()
        }
    }

    /// Returns entry with the changed name.
    pub fn with_name(self, name: String) -> (r: Entry)
        ensures
            r@ == (EntryView { name: name@, ..self@ }),
    {
        Entry { name, ..self }
    }
}

// ================
// === Database ===
// ================

/// One entry of a database snapshot.
#[derive(Clone, Debug, PartialEq, Eq)]
pub struct SnapshotEntry {
    pub id: EntryId,
    pub suggestion: SuggestionEntry,
}

/// The whole database as the language server sends it at start-up.
#[derive(Clone, Debug, PartialEq, Eq)]
pub struct Snapshot {
    pub entries: Vec<SnapshotEntry>,
    pub current_version: Version,
}

/// A single change to the database.
#[derive(Clone, Debug, PartialEq, Eq)]
pub enum Update {
    /// Put the entry at `id`, replacing any entry there.
    Add { id: EntryId, entry: SuggestionEntry },
    /// Drop the entry at `id`, if there is one.
    Remove { id: EntryId },
}

/// A batch of changes, after which the database has version `current_version`.
#[derive(Clone, Debug, PartialEq, Eq)]
pub struct UpdateEvent {
    pub updates: Vec<Update>,
    pub current_version: Version,
}

/// The mathematical content of a `SuggestionDatabase`.
pub struct DatabaseView {
    pub entries: Map<EntryId, EntryView>,
    pub version: Version,
}

/// `m` after adding the incoming entry `raw` at `id`: unchanged when `raw` is malformed.
pub open spec fn add_entry(m: Map<EntryId, EntryView>, id: EntryId, raw: SuggestionEntry) -> Map<
    EntryId,
    EntryView,
> {
    match normalized(raw) {
        Some(e) => m.insert(id, e),
        None => m,
    }
}

/// The entries that a snapshot's list describes, later entries winning over earlier ones.
pub open spec fn snapshot_entries(entries: Seq<SnapshotEntry>) -> Map<EntryId, EntryView>
    decreases entries.len(),
{
    if entries.len() == 0 {
        Map::empty()
    } else {
        add_entry(
            snapshot_entries(entries.drop_last()),
            entries.last().id,
            entries.last().suggestion,
        )
    }
}

/// `m` after one update.
pub open spec fn apply_update(m: Map<EntryId, EntryView>, u: Update) -> Map<EntryId, EntryView> {
    match u {
        Update::Add { id, entry } => add_entry(m, id, entry),
        Update::Remove { id } => m.remove(id),
    }
}

/// `m` after the updates, in order.
pub open spec fn apply_updates(m: Map<EntryId, EntryView>, updates: Seq<Update>) -> Map<
    EntryId,
    EntryView,
>
    decreases updates.len(),
{
    if updates.len() == 0 {
        m
    } else {
        apply_update(apply_updates(m, updates.drop_last()), updates.last())
    }
}

/// The database after one event: its updates applied, its version adopted.
pub open spec fn after_event(db: DatabaseView, event: UpdateEvent) -> DatabaseView {
    DatabaseView {
        entries: apply_updates(db.entries, event.updates@),
        version: event.current_version,
    }
}

/// The database after the events, in order.
pub open spec fn after_events(db: DatabaseView, events: Seq<UpdateEvent>) -> DatabaseView
    decreases events.len(),
{
    if events.len() == 0 {
        db
    } else {
        after_event(after_events(db, events.drop_last()), events.last())
    }
}

/// Relies on `Rc::clone`: the new handle points to the same entry.
#[verifier::external_body]
fn share(entry: &Rc<Entry>) -> (r: Rc<Entry>)
    ensures
        r == *entry,
{
    Rc::clone(entry)
}

/// The Suggestion Database
///
/// This is database of possible suggestions in Searcher. To achieve best performance, some
/// often-called Language Server methods returns the list of keys of this database instead of the
/// whole entries. Additionally the suggestions contains information about functions and their
/// argument names and types.
#[derive(Debug)]
pub struct SuggestionDatabase {
    entries: HashMap<EntryId, Rc<Entry>>,
    version: Version,
}

impl View for SuggestionDatabase {
    type V = DatabaseView;

    closed spec fn view(&self) -> DatabaseView {
        DatabaseView {
            entries: self.entries@.map_values(|e: Rc<Entry>| e@),
            version: self.version,
        }
    }
}

/// Puts `entry` at `id` in `entries`.
fn insert_entry(entries: &mut HashMap<EntryId, Rc<Entry>>, id: EntryId, entry: Entry)
    ensures
        final(entries)@.map_values(|e: Rc<Entry>| e@) == old(entries)@.map_values(
            |e: Rc<Entry>| e@,
        ).insert(id, entry@),
{
    entries.insert(id, Rc::new(entry));
    assert(final(entries)@.map_values(|e: Rc<Entry>| e@) =~= old(entries)@.map_values(
        |e: Rc<Entry>| e@,
    ).insert(id, entry@));
}

/// Drops the entry at `id` from `entries`, if there is one.
fn remove_entry(entries: &mut HashMap<EntryId, Rc<Entry>>, id: EntryId)
    ensures
        final(entries)@.map_values(|e: Rc<Entry>| e@) == old(entries)@.map_values(
            |e: Rc<Entry>| e@,
        ).remove(id),
{
    entries.remove(&id);
    assert(final(entries)@.map_values(|e: Rc<Entry>| e@) =~= old(entries)@.map_values(
        |e: Rc<Entry>| e@,
    ).remove(id));
}

impl SuggestionDatabase {
    /// Create a new database model from a snapshot received from the Language Server. Entries
    /// that cannot be normalized are skipped.
    pub fn from_snapshot(snapshot: Snapshot) -> (r: SuggestionDatabase)
        ensures
            r@.entries == snapshot_entries(snapshot.entries@),
            r@.version == snapshot.current_version,
    {
        let mut entries: HashMap<EntryId, Rc<Entry>> = HashMap::new();
        let ghost all = snapshot.entries@;
        assert(entries@.map_values(|e: Rc<Entry>| e@) =~= snapshot_entries(all.subrange(0, 0)));
        for ls_entry in it: snapshot.entries.into_iter()
            invariant
                it.seq() == all,
                entries@.map_values(|e: Rc<Entry>| e@) == snapshot_entries(
                    all.subrange(0, it.index() as int),
                ),
        {
            let ghost done = all.subrange(0, it.index() as int);
            let ghost next = all.subrange(0, it.index() + 1);
            assert(next.drop_last() =~= done);
            let id = ls_entry.id;
            match Entry::from_ls_entry(ls_entry.suggestion) {
                Ok(entry) => insert_entry(&mut entries, id, entry),
                Err(_) => {},
            }
        }
        assert(all.subrange(0, all.len() as int) =~= all);
        SuggestionDatabase { entries, version: snapshot.current_version }
    }

    /// Get suggestion entry by id.
    pub fn get(&self, id: EntryId) -> (r: Option<Rc<Entry>>)
        ensures
            match r {
                Some(e) => self@.entries.contains_key(id) && e@ == self@.entries[id],
                None => !self@.entries.contains_key(id),
            },
    {
        match self.entries.get(&id) {
            Some(e) => Some(share(e)),
            None => None,
        }
    }

    /// The version of the last snapshot or update event applied.
    pub fn version(&self) -> (r: Version)
        ensures
            r == self@.version,
    {
        self.version
    }

    /// The number of entries.
    pub fn len(&self) -> (r: usize)
        ensures
            r == self@.entries.len(),
    {
        assert(self@.entries.dom() =~= self.entries@.dom());
        self.entries.len()
    }

    /// Whether the database holds no entry.
    pub fn is_empty(&self) -> (r: bool)
        ensures
            r == (self@.entries.len() == 0),
    {
        assert(self@.entries.dom() =~= self.entries@.dom());
        self.entries.len() == 0
    }

    /// Apply the update event to the database: each update in turn, skipping additions whose
    /// entry cannot be normalized, then adopt the event's version.
    pub fn apply_update_event(&mut self, event: UpdateEvent)
        ensures
            final(self)@ == after_event(old(self)@, event),
    {
        let ghost all = event.updates@;
        let ghost start = self@.entries;
        for update in it: event.updates.into_iter()
            invariant
                it.seq() == all,
                self@.entries == apply_updates(start, all.subrange(0, it.index() as int)),
                self.version == old(self).version,
        {
            let ghost done = all.subrange(0, it.index() as int);
            let ghost next = all.subrange(0, it.index() + 1);
            assert(next.drop_last() =~= done);
            match update {
                Update::Add { id, entry } => match Entry::from_ls_entry(entry) {
                    Ok(entry) => insert_entry(&mut self.entries, id, entry),
                    Err(_) => {},
                },
                Update::Remove { id } => remove_entry(&mut self.entries, id),
            }
        }
        assert(all.subrange(0, all.len() as int) =~= all);
        self.version = event.current_version;
    }

    /// Put the entry to the database directly, without normalization. This likely breaks the
    /// synchronization with the Language Server; it is meant for building fixtures.
    pub fn put_entry(&mut self, id: EntryId, entry: Entry)
        ensures
            final(self)@.entries == old(self)@.entries.insert(id, entry@),
            final(self)@.version == old(self)@.version,
    {
        insert_entry(&mut self.entries, id, entry);
    }
}

// ==================
// === Properties ===
// ==================

/// Whether `u` is an addition at `id`.
pub open spec fn is_add_at(u: Update, id: EntryId) -> bool {
    match u {
        Update::Add { id: k, .. } => k == id,
        Update::Remove { .. } => false,
    }
}

/// Whether `u` names `id`, as an addition or a removal.
pub open spec fn touches(u: Update, id: EntryId) -> bool {
    match u {
        Update::Add { id: k, .. } => k == id,
        Update::Remove { id: k } => k == id,
    }
}

/// A normalized entry has a self type exactly when it is a method, and its module is a valid
/// qualified name.
pub proof fn lemma_normalized_entry_shape(raw: SuggestionEntry)
    requires
        normalized(raw) is Some,
    ensures
        ({
            let e = normalized(raw)->0;
            &&& e.self_type is Some <==> e.kind == EntryKind::Method
            &&& is_valid_name(e.module)
        }),
{
}

/// After an event whose update `i` adds at `id` an entry that normalizes, and whose later
/// updates do not name `id`, the database holds the normalized entry at `id`.
pub proof fn lemma_lookup_after_add(db: DatabaseView, event: UpdateEvent, i: int)
    requires
        0 <= i < event.updates@.len(),
        event.updates@[i] matches Update::Add { entry, .. } && normalized(entry) is Some,
        forall|j: int|
            i < j < event.updates@.len() ==> !touches(
                #[trigger] event.updates@[j],
                match event.updates@[i] {
                    Update::Add { id, .. } => id,
                    Update::Remove { id } => id,
                },
            ),
    ensures
        event.updates@[i] matches Update::Add { id, entry } && after_event(
            db,
            event,
        ).entries.contains_key(id) && after_event(db, event).entries[id] == normalized(
            entry,
        )->0,
{
    lemma_added_entry(db.entries, event.updates@, i);
}

proof fn lemma_added_entry(m: Map<EntryId, EntryView>, updates: Seq<Update>, i: int)
    requires
        0 <= i < updates.len(),
        updates[i] matches Update::Add { entry, .. } && normalized(entry) is Some,
        forall|j: int|
            i < j < updates.len() ==> !touches(
                #[trigger] updates[j],
                match updates[i] {
                    Update::Add { id, .. } => id,
                    Update::Remove { id } => id,
                },
            ),
    ensures
        updates[i] matches Update::Add { id, entry } && apply_updates(m, updates).contains_key(id)
            && apply_updates(m, updates)[id] == normalized(entry)->0,
    decreases updates.len(),
{
    if i < updates.len() - 1 {
        let prefix = updates.drop_last();
        assert(prefix[i] == updates[i]);
        assert forall|j: int| i < j < prefix.len() implies !touches(
            #[trigger] prefix[j],
            match prefix[i] {
                Update::Add { id, .. } => id,
                Update::Remove { id } => id,
            },
        ) by {
            assert(prefix[j] == updates[j]);
        }
        lemma_added_entry(m, prefix, i);
        assert(!touches(updates[updates.len() - 1], match updates[i] {
            Update::Add { id, .. } => id,
            Update::Remove { id } => id,
        }));
    }
}

/// Updates that add nothing at `id` leave `id` absent if it was.
proof fn lemma_absent_stays_absent(m: Map<EntryId, EntryView>, updates: Seq<Update>, id: EntryId)
    requires
        !m.contains_key(id),
        forall|j: int| 0 <= j < updates.len() ==> !is_add_at(#[trigger] updates[j], id),
    ensures
        !apply_updates(m, updates).contains_key(id),
    decreases updates.len(),
{
    if updates.len() > 0 {
        lemma_absent_stays_absent(m, updates.drop_last(), id);
        assert(!is_add_at(updates[updates.len() - 1], id));
    }
}

proof fn lemma_removed_in_updates(
    m: Map<EntryId, EntryView>,
    updates: Seq<Update>,
    i: int,
    id: EntryId,
)
    requires
        0 <= i < updates.len(),
        updates[i] == (Update::Remove { id }),
        forall|j: int| i < j < updates.len() ==> !is_add_at(#[trigger] updates[j], id),
    ensures
        !apply_updates(m, updates).contains_key(id),
    decreases updates.len(),
{
    let prefix = updates.drop_last();
    if i < updates.len() - 1 {
        assert(prefix[i] == updates[i]);
        assert forall|j: int| i < j < prefix.len() implies !is_add_at(#[trigger] prefix[j], id) by {
            assert(prefix[j] == updates[j]);
        }
        lemma_removed_in_updates(m, prefix, i, id);
        assert(!is_add_at(updates[updates.len() - 1], id));
    }
}

/// After a removal of `id` (update `i` of event `k`), with no addition at `id` later in that
/// event nor in any later event, the database holds nothing at `id`.
pub proof fn lemma_lookup_after_remove(
    db: DatabaseView,
    events: Seq<UpdateEvent>,
    k: int,
    i: int,
    id: EntryId,
)
    requires
        0 <= k < events.len(),
        0 <= i < events[k].updates@.len(),
        events[k].updates@[i] == (Update::Remove { id }),
        forall|j: int|
            i < j < events[k].updates@.len() ==> !is_add_at(#[trigger] events[k].updates@[j], id),
        forall|l: int, j: int|
            k < l < events.len() && 0 <= j < events[l].updates@.len() ==> !is_add_at(
                #[trigger] events[l].updates@[j],
                id,
            ),
    ensures
        !after_events(db, events).entries.contains_key(id),
    decreases events.len(),
{
    let prefix = events.drop_last();
    let last = events.len() - 1;
    if k == last {
        lemma_removed_in_updates(after_events(db, prefix).entries, events[k].updates@, i, id);
    } else {
        assert(prefix[k] == events[k]);
        assert forall|l: int, j: int|
            k < l < prefix.len() && 0 <= j < prefix[l].updates@.len() implies !is_add_at(
            #[trigger] prefix[l].updates@[j],
            id,
        ) by {
            assert(prefix[l] == events[l]);
        }
        lemma_lookup_after_remove(db, prefix, k, i, id);
        assert forall|j: int| 0 <= j < events[last].updates@.len() implies !is_add_at(
            #[trigger] events[last].updates@[j],
            id,
        ) by {}
        lemma_absent_stays_absent(after_events(db, prefix).entries, events[last].updates@, id);
    }
}

/// After a sequence of events the database has the version of the last one, whatever their
/// updates did.
pub proof fn lemma_version_after_events(db: DatabaseView, events: Seq<UpdateEvent>)
    requires
        events.len() > 0,
    ensures
        after_events(db, events).version == events.last().current_version,
{
}

/// An addition that cannot be normalized does not disturb its siblings: after
/// `[Add{a, valid}, Add{b, malformed}, Remove{c}]` with distinct ids, `a` holds the valid entry,
/// `b` is as it was, and `c` is gone.
pub proof fn lemma_partial_failure_isolation(
    m: Map<EntryId, EntryView>,
    a: EntryId,
    valid: SuggestionEntry,
    b: EntryId,
    malformed: SuggestionEntry,
    c: EntryId,
)
    requires
        a != b && b != c && a != c,
        normalized(valid) is Some,
        normalized(malformed) is None,
    ensures
        ({
            let r = apply_updates(
                m,
                seq![
                    Update::Add { id: a, entry: valid },
                    Update::Add { id: b, entry: malformed },
                    Update::Remove { id: c },
                ],
            );
            &&& r.contains_key(a) && r[a] == normalized(valid)->0
            &&& r.contains_key(b) == m.contains_key(b)
            &&& m.contains_key(b) ==> r[b] == m[b]
            &&& !r.contains_key(c)
        }),
{
    let ups = seq![
        Update::Add { id: a, entry: valid },
        Update::Add { id: b, entry: malformed },
        Update::Remove { id: c },
    ];
    assert(ups.drop_last().drop_last().drop_last() =~= Seq::<Update>::empty());
    assert(ups.drop_last().drop_last() =~= seq![Update::Add { id: a, entry: valid }]);
    assert(ups.drop_last() =~= seq![
        Update::Add { id: a, entry: valid },
        Update::Add { id: b, entry: malformed },
    ]);
    reveal_with_fuel(apply_updates, 4);
}

} // verus!
