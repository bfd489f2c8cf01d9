use slowhand::schema::{BaseType, FieldType, Schema};
use slowhand::schema_kdl::{RootType, SchemaError, schema_from_kdl};
use slowhand::kdl_doc::parse_kdl_nodes;
use std::path::PathBuf;

#[test]
fn enums() {
    assert_eq!(RootType::from_str("doc").unwrap(), RootType::Doc);
    assert_eq!(RootType::from_str("doc").unwrap(), RootType::Doc);
}

#[test]
fn toplevel() {
    let schema = Schema::parse_kdl(
        r#"doc  person "A Person"  icon=ppl
            object address ; object CEO
            "#
        .to_string(),
        "test",
        &PathBuf::new(),
    )
    .unwrap();
    assert_eq!(schema.name, "test");
    assert_eq!(schema.object_types.len(), 3);
    assert!(schema.object_types.contains(&"person".to_string()));

    let p = schema.get_object("person").unwrap();
    assert_eq!(p.name, "person");
    assert_eq!(p.title, "A Person");
    assert_eq!(p.icon, "ppl");
}

#[test]
fn root_type_names() {
    assert_eq!(RootType::from_str("graphql").unwrap(), RootType::Graphql);
    assert_eq!(RootType::from_str("object").unwrap(), RootType::Object);
    assert_eq!(RootType::from_str("image").unwrap(), RootType::Image);
    assert_eq!(RootType::from_str("file").unwrap(), RootType::File);
    assert!(RootType::from_str("Doc").is_err());
    assert!(RootType::from_str("document").is_err());
    assert_eq!(RootType::Graphql.into_base_type(), BaseType::Object);
    assert_eq!(RootType::Image.into_base_type(), BaseType::Image);
}

#[test]
fn field_type_names() {
    assert!(matches!(FieldType::from_str("bool").unwrap(), FieldType::Boolean));
    assert!(matches!(FieldType::from_str("boolean").unwrap(), FieldType::Boolean));
    assert!(matches!(FieldType::from_str("ref").unwrap(), FieldType::Reference));
    assert!(matches!(FieldType::from_str("datetime").unwrap(), FieldType::Datetime));
    match FieldType::from_str("object").unwrap() {
        FieldType::Object(n) => assert_eq!(n, ""),
        _ => panic!("object names an object type"),
    }
    assert!(FieldType::from_str("Number").is_err());
    assert!(matches!(BaseType::from_str("document").unwrap(), BaseType::Doc));
    assert!(BaseType::from_str("graphql").is_err());
}

#[test]
fn document_kinds_and_fields() {
    let schema = Schema::parse_kdl(
        r#"
doc movie "Movie" description="A film" {
    title "Films"
    string name
    number year
    person director
    fieldsets "ignored"
    preview title="name" subtitle="year" {
        media "poster"
    }
}
image poster
file attachment
graphql extra
"#
        .to_string(),
        "movies",
        &PathBuf::from("/data"),
    )
    .unwrap();
    assert_eq!(schema.base, PathBuf::from("/data"));
    assert_eq!(schema.object_types, vec!["movie"]);
    assert_eq!(schema.image_types(), &vec!["poster".to_string()]);
    assert_eq!(schema.file_types(), &vec!["attachment".to_string()]);
    assert_eq!(schema.document_types, vec!["movie"]);
    let m = schema.get_object("movie").unwrap();
    assert_eq!(m.base_type, BaseType::Doc);
    // a child `title` sets the title to the argument as KDL writes it
    assert_eq!(m.title, "Films");
    assert_eq!(m.description, "A film");
    assert_eq!(m.fields.len(), 3);
    assert_eq!(m.fields[0].name, "name");
    assert!(matches!(m.fields[0].field_type, FieldType::String));
    assert!(matches!(m.fields[1].field_type, FieldType::Number));
    match &m.fields[2].field_type {
        FieldType::Object(n) => assert_eq!(n, "person"),
        _ => panic!("unknown field types name objects"),
    }
    assert_eq!(m.preview.title, "name");
    assert_eq!(m.preview.subtitle.as_deref(), Some("year"));
    assert_eq!(m.preview.media.as_deref(), Some("poster"));
    assert_eq!(m.preview.fun, None);
    let docs = schema.documents();
    assert_eq!(docs.len(), 1);
    assert_eq!(docs[0].name, "movie");
    assert!(schema.get_object("extra").is_none());
    assert_eq!(schema.get_object("poster").unwrap().base_type, BaseType::Image);
}

#[test]
fn quoted_child_title_keeps_kdl_quotes() {
    let schema = Schema::parse_kdl(
        "object card {\n title \"Two words\"\n}\n".to_string(),
        "s",
        &PathBuf::new(),
    )
    .unwrap();
    assert_eq!(schema.get_object("card").unwrap().title, "\"Two words\"");
}

#[test]
fn names_without_string_argument() {
    let schema = Schema::parse_kdl("object 12\nobject\n".to_string(), "s", &PathBuf::new()).unwrap();
    assert!(schema.get_object("object").is_some());
    assert!(schema.get_object("anon").is_some());
}

#[test]
fn later_object_replaces_earlier() {
    let schema = Schema::parse_kdl(
        "object a \"First\"\nimage a \"Second\"\n".to_string(),
        "s",
        &PathBuf::new(),
    )
    .unwrap();
    let a = schema.get_object("a").unwrap();
    assert_eq!(a.title, "Second");
    assert_eq!(a.base_type, BaseType::Image);
    assert_eq!(schema.object_types, vec!["a"]);
    assert_eq!(schema.image_types(), &vec!["a".to_string()]);
}

#[test]
fn unknown_root_type_is_refused() {
    match Schema::parse_kdl("object a\nwidget b\n".to_string(), "s", &PathBuf::new()) {
        Err(SchemaError::UnknownRootType(n)) => assert_eq!(n, "widget"),
        other => panic!("expected an unknown root type, got {:?}", other),
    }
}

#[test]
fn field_without_name_is_refused() {
    match Schema::parse_kdl("doc a {\n string\n}\n".to_string(), "s", &PathBuf::new()) {
        Err(SchemaError::MissingArgument(n)) => assert_eq!(n, "string"),
        other => panic!("expected a missing argument, got {:?}", other),
    }
}

#[test]
fn kdl_syntax_error_is_reported() {
    assert!(matches!(
        Schema::parse_kdl("doc \"unterminated\n".to_string(), "s", &PathBuf::new()),
        Err(SchemaError::Kdl(_))
    ));
    assert!(parse_kdl_nodes("a {").is_err());
}

#[test]
fn nodes_read_from_kdl() {
    let nodes = parse_kdl_nodes("doc x \"T\" k=1 { child 2 }").unwrap();
    assert_eq!(nodes.len(), 1);
    assert_eq!(nodes[0].name, "doc");
    assert_eq!(nodes[0].entries.len(), 3);
    assert_eq!(nodes[0].entries[0].string.as_deref(), Some("x"));
    assert_eq!(nodes[0].entries[2].name.as_deref(), Some("k"));
    assert_eq!(nodes[0].entries[2].string, None);
    assert_eq!(nodes[0].entries[2].text, "1");
    let children = nodes[0].children.as_ref().unwrap();
    assert_eq!(children[0].name, "child");
    let s = schema_from_kdl(&nodes, "n", PathBuf::new()).unwrap();
    assert_eq!(s.get_object("x").unwrap().title, "T");
}
