use ide::qualified_name::{InvalidQualifiedName, QualifiedName};

#[test]
fn parses_dotted_names() {
    let q = QualifiedName::from_text("TestProject.TestModule").unwrap();
    assert_eq!(q.name(), "TestModule");
    assert_eq!(q, QualifiedName::from_segments("TestProject", &["TestModule"]).unwrap());
    let deep = QualifiedName::from_text("P.A.B").unwrap();
    assert_eq!(deep.name(), "B");
    assert_eq!(deep, QualifiedName::from_segments("P", &["A", "B"]).unwrap());
    assert_eq!(deep.clone(), deep);
}

#[test]
fn rejects_malformed_names() {
    assert_eq!(QualifiedName::from_text("Project"), Err(InvalidQualifiedName::NoModuleSegment));
    assert_eq!(QualifiedName::from_text("a..b"), Err(InvalidQualifiedName::EmptySegment));
    assert_eq!(QualifiedName::from_text(".a"), Err(InvalidQualifiedName::EmptySegment));
    assert_eq!(QualifiedName::from_segments("P", &[]), Err(InvalidQualifiedName::NoModuleSegment));
    assert_eq!(QualifiedName::from_segments("", &["M"]), Err(InvalidQualifiedName::EmptySegment));
}
