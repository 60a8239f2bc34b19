use ide::qualified_name::{InvalidQualifiedName, QualifiedName};
use ide::suggestion_database::{
    Entry, EntryKind, NormalizationError, Snapshot, SnapshotEntry, SuggestionDatabase,
    SuggestionEntry, Update, UpdateEvent,
};

fn atom(name: &str, module: &str) -> SuggestionEntry {
    SuggestionEntry::Atom {
        name: name.to_string(),
        module: module.to_string(),
        arguments: vec![],
        return_type: "TestAtom".to_string(),
        documentation: None,
    }
}

#[test]
fn code_from_entry() {
    let module = QualifiedName::from_segments("Project", &["Main"]).unwrap();
    let atom_entry = Entry {
        name: "Atom".to_string(),
        kind: EntryKind::Atom,
        module,
        arguments: vec![],
        return_type: "Number".to_string(),
        documentation: None,
        self_type: None,
    };
    let method_entry = Entry {
        name: "method".to_string(),
        kind: EntryKind::Method,
        self_type: Some("Number".to_string()),
        ..atom_entry.clone()
    };
    let module_method_entry = Entry {
        name: "moduleMethod".to_string(),
        self_type: Some("Main".to_string()),
        ..method_entry.clone()
    };

    assert_eq!(atom_entry.code_to_insert(), "Atom".to_string());
    assert_eq!(method_entry.code_to_insert(), "method".to_string());
    assert_eq!(module_method_entry.code_to_insert(), "Main.moduleMethod".to_string());
}

#[test]
fn initialize_database() {
    // Empty db
    let response = Snapshot { entries: vec![], current_version: 123 };
    let db = SuggestionDatabase::from_snapshot(response);
    assert!(db.is_empty());
    assert_eq!(db.version(), 123);

    // Non-empty db
    let entry = SuggestionEntry::Atom {
        name: "TextAtom".to_string(),
        module: "TestProject.TestModule".to_string(),
        arguments: vec![],
        return_type: "TestAtom".to_string(),
        documentation: None,
    };
    let db_entry = SnapshotEntry { id: 12, suggestion: entry };
    let response = Snapshot { entries: vec![db_entry], current_version: 456 };
    let db = SuggestionDatabase::from_snapshot(response);
    assert_eq!(db.len(), 1);
    assert_eq!(*db.get(12).unwrap().name, "TextAtom".to_string());
    assert_eq!(db.version(), 456);
}

#[test]
fn applying_update() {
    let entry1 = atom("Entry1", "TestProject.TestModule");
    let entry2 = atom("Entry2", "TestProject.TestModule");
    let new_entry2 = atom("NewEntry2", "TestProject.TestModule");

    let db_entry1 = SnapshotEntry { id: 1, suggestion: entry1 };
    let db_entry2 = SnapshotEntry { id: 2, suggestion: entry2 };
    let initial_response = Snapshot { entries: vec![db_entry1, db_entry2], current_version: 1 };
    let mut db = SuggestionDatabase::from_snapshot(initial_response);

    // Remove
    let remove_update = Update::Remove { id: 2 };
    let update = UpdateEvent { updates: vec![remove_update], current_version: 2 };
    db.apply_update_event(update);
    assert_eq!(db.get(2), None);
    assert_eq!(db.version(), 2);

    // Add
    let add_update = Update::Add { id: 2, entry: new_entry2 };
    let update = UpdateEvent { updates: vec![add_update], current_version: 3 };
    db.apply_update_event(update);
    assert_eq!(db.get(2).unwrap().name, "NewEntry2");
    assert_eq!(db.version(), 3);
}

#[test]
fn empty_snapshot_knows_no_id() {
    let db = SuggestionDatabase::from_snapshot(Snapshot { entries: vec![], current_version: 123 });
    assert_eq!(db.get(0), None);
    assert_eq!(db.get(12), None);
    assert_eq!(db.get(usize::MAX), None);
    assert_eq!(db.version(), 123);
}

#[test]
fn snapshot_skips_malformed_entries_and_keeps_version() {
    let entries = vec![
        SnapshotEntry { id: 1, suggestion: atom("Good", "P.M") },
        SnapshotEntry { id: 2, suggestion: atom("NoModule", "P") },
        SnapshotEntry { id: 3, suggestion: atom("Gap", "P..M") },
    ];
    let db = SuggestionDatabase::from_snapshot(Snapshot { entries, current_version: 7 });
    assert_eq!(db.len(), 1);
    assert_eq!(db.get(1).unwrap().name, "Good");
    assert_eq!(db.get(2), None);
    assert_eq!(db.get(3), None);
    assert_eq!(db.version(), 7);
}

#[test]
fn later_snapshot_entry_wins() {
    let entries = vec![
        SnapshotEntry { id: 5, suggestion: atom("First", "P.M") },
        SnapshotEntry { id: 5, suggestion: atom("Second", "P.M") },
    ];
    let db = SuggestionDatabase::from_snapshot(Snapshot { entries, current_version: 1 });
    assert_eq!(db.len(), 1);
    assert_eq!(db.get(5).unwrap().name, "Second");
}

#[test]
fn lookup_after_add_gives_normalized_entry() {
    let mut db = SuggestionDatabase::from_snapshot(Snapshot { entries: vec![], current_version: 0 });
    let raw = SuggestionEntry::Method {
        name: "foo".to_string(),
        module: "Project.Main".to_string(),
        arguments: vec![],
        self_type: "Main".to_string(),
        return_type: "Number".to_string(),
        documentation: Some("doc".to_string()),
    };
    let expected = Entry::from_ls_entry(raw.clone()).unwrap();
    db.apply_update_event(UpdateEvent { updates: vec![Update::Add { id: 4, entry: raw }], current_version: 1 });
    assert_eq!(*db.get(4).unwrap(), expected);
    assert_eq!(db.get(4).unwrap().code_to_insert(), "Main.foo");
}

#[test]
fn remove_then_no_add_leaves_id_unknown() {
    let entries = vec![SnapshotEntry { id: 9, suggestion: atom("A", "P.M") }];
    let mut db = SuggestionDatabase::from_snapshot(Snapshot { entries, current_version: 1 });
    db.apply_update_event(UpdateEvent { updates: vec![Update::Remove { id: 9 }], current_version: 2 });
    db.apply_update_event(UpdateEvent { updates: vec![Update::Remove { id: 9 }], current_version: 3 });
    db.apply_update_event(UpdateEvent { updates: vec![Update::Add { id: 8, entry: atom("B", "P.M") }], current_version: 4 });
    assert_eq!(db.get(9), None);
    assert_eq!(db.get(8).unwrap().name, "B");
}

#[test]
fn version_is_adopted_verbatim() {
    let mut db = SuggestionDatabase::from_snapshot(Snapshot { entries: vec![], current_version: 10 });
    db.apply_update_event(UpdateEvent { updates: vec![Update::Add { id: 1, entry: atom("X", "bad") }], current_version: 20 });
    assert_eq!(db.version(), 20);
    db.apply_update_event(UpdateEvent { updates: vec![], current_version: 5 });
    assert_eq!(db.version(), 5);
    assert!(db.is_empty());
}

#[test]
fn malformed_add_does_not_block_siblings() {
    let entries = vec![
        SnapshotEntry { id: 2, suggestion: atom("Old2", "P.M") },
        SnapshotEntry { id: 3, suggestion: atom("Old3", "P.M") },
    ];
    let mut db = SuggestionDatabase::from_snapshot(Snapshot { entries, current_version: 1 });
    let updates = vec![
        Update::Add { id: 1, entry: atom("Valid", "P.M") },
        Update::Add { id: 2, entry: atom("Malformed", ".M") },
        Update::Remove { id: 3 },
    ];
    db.apply_update_event(UpdateEvent { updates, current_version: 2 });
    assert_eq!(db.get(1).unwrap().name, "Valid");
    assert_eq!(db.get(2).unwrap().name, "Old2");
    assert_eq!(db.get(3), None);
    assert_eq!(db.version(), 2);
}

#[test]
fn last_add_in_event_wins() {
    let mut db = SuggestionDatabase::from_snapshot(Snapshot { entries: vec![], current_version: 0 });
    let updates = vec![
        Update::Add { id: 1, entry: atom("A", "P.M") },
        Update::Remove { id: 1 },
        Update::Add { id: 1, entry: atom("B", "P.M") },
    ];
    db.apply_update_event(UpdateEvent { updates, current_version: 1 });
    assert_eq!(db.get(1).unwrap().name, "B");
}

#[test]
fn put_entry_inserts_directly() {
    let mut db = SuggestionDatabase::from_snapshot(Snapshot { entries: vec![], current_version: 3 });
    let entry = Entry::from_ls_entry(atom("Fixture", "P.M")).unwrap();
    db.put_entry(11, entry.clone());
    assert_eq!(*db.get(11).unwrap(), entry);
    assert_eq!(db.version(), 3);
}

#[test]
fn normalizes_each_shape() {
    let arg = ide::suggestion_database::Argument {
        name: "x".to_string(),
        repr_type: "Number".to_string(),
        is_suspended: false,
        has_default: true,
        default_value: Some("1".to_string()),
    };
    let f = Entry::from_ls_entry(SuggestionEntry::Function {
        name: "f".to_string(),
        module: "P.M".to_string(),
        arguments: vec![arg.clone()],
        return_type: "Number".to_string(),
    })
    .unwrap();
    assert_eq!(f.kind, EntryKind::Function);
    assert_eq!(f.arguments, vec![arg.clone()]);
    assert_eq!(f.documentation, None);
    assert_eq!(f.self_type, None);

    let l = Entry::from_ls_entry(SuggestionEntry::Local {
        name: "l".to_string(),
        module: "P.M".to_string(),
        return_type: "Text".to_string(),
    })
    .unwrap();
    assert_eq!(l.kind, EntryKind::Local);
    assert!(l.arguments.is_empty());
    assert_eq!(l.return_type, "Text");

    let m = Entry::from_ls_entry(SuggestionEntry::Method {
        name: "m".to_string(),
        module: "P.M.N".to_string(),
        arguments: vec![arg],
        self_type: "Number".to_string(),
        return_type: "Text".to_string(),
        documentation: Some("d".to_string()),
    })
    .unwrap();
    assert_eq!(m.kind, EntryKind::Method);
    assert_eq!(m.self_type, Some("Number".to_string()));
    assert_eq!(m.documentation, Some("d".to_string()));
    assert_eq!(m.module, QualifiedName::from_text("P.M.N").unwrap());
    assert_eq!(m.code_to_insert(), "m");

    let a = Entry::from_ls_entry(atom("A", "P.M")).unwrap();
    assert_eq!(a.kind, EntryKind::Atom);
    assert_eq!(a.self_type, None);
}

#[test]
fn normalization_errors() {
    assert_eq!(
        Entry::from_ls_entry(atom("A", "Project")),
        Err(NormalizationError::InvalidModule(InvalidQualifiedName::NoModuleSegment))
    );
    assert_eq!(
        Entry::from_ls_entry(atom("A", "")),
        Err(NormalizationError::InvalidModule(InvalidQualifiedName::NoModuleSegment))
    );
    assert_eq!(
        Entry::from_ls_entry(atom("A", "Project.")),
        Err(NormalizationError::InvalidModule(InvalidQualifiedName::EmptySegment))
    );
}

#[test]
fn with_name_changes_only_name() {
    let a = Entry::from_ls_entry(atom("A", "P.M")).unwrap();
    let b = a.clone().with_name("B".to_string());
    assert_eq!(b.name, "B");
    assert_eq!(b.module, a.module);
    assert_eq!(b.return_type, a.return_type);
}
