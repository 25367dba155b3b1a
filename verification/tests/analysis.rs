use vsn::database::{
    analyze_column, analyze_documents, analyze_graph, analyze_key_values, analyze_search,
    generate_ui_schema, humanize, CapabilitySet, ColumnRowSample, DatabaseError, EntityMeta,
    FieldMeta, FieldType, GraphEdgeSample, GraphNodeSample, KeyValueSample, SearchDocumentSample,
    UiControl, ValueKind, analyze_time_series, TimePointSample,
};

fn field(name: &str, field_type: FieldType) -> FieldMeta {
    FieldMeta {
        name: name.into(),
        field_type,
        nullable: false,
        primary: false,
        generated: false,
        enum_values: vec![],
        relation_target: None,
        metadata: "null".into(),
    }
}

#[test]
fn boolean_becomes_toggle() {
    let e = EntityMeta {
        name: "users".into(),
        display_name: "Users".into(),
        fields: vec![field("active", FieldType::Boolean)],
        metadata: "null".into(),
    };
    let ui = generate_ui_schema(&e, &CapabilitySet::none());
    assert_eq!(ui.fields[0].control, UiControl::Toggle);
}

#[test]
fn ui_actions_follow_capabilities() {
    let caps = CapabilitySet { insert: true, export: true, ..CapabilitySet::none() };
    let e = EntityMeta {
        name: "x".into(),
        display_name: "X".into(),
        fields: vec![],
        metadata: "null".into(),
    };
    let ui = generate_ui_schema(&e, &caps);
    assert_eq!(ui.actions, vec!["insert", "export"]);
    assert_eq!(ui.tabs, vec!["browse", "structure"]);
}

#[test]
fn form_fields_are_labelled_and_constrained() {
    let mut id = field("user_id", FieldType::Integer);
    id.generated = true;
    let mut note = field("__internal_note_", FieldType::LongText);
    note.nullable = true;
    let mut status = field("status", FieldType::Enum);
    status.enum_values = vec!["open".into(), "closed".into()];
    let e = EntityMeta {
        name: "t".into(),
        display_name: "T".into(),
        fields: vec![id, note, status],
        metadata: "{}".into(),
    };
    let caps = CapabilitySet { indexes: true, query: true, backup: true, ..CapabilitySet::none() };
    let ui = generate_ui_schema(&e, &caps);
    assert_eq!(ui.entity, "t");
    assert_eq!(ui.fields[0].label, "User Id");
    assert!(ui.fields[0].read_only && !ui.fields[0].required);
    assert_eq!(ui.fields[1].label, "Internal Note");
    assert_eq!(ui.fields[1].control, UiControl::TextArea);
    assert!(!ui.fields[1].required);
    assert!(ui.fields[2].required);
    assert_eq!(ui.fields[2].options, vec!["open", "closed"]);
    assert_eq!(ui.tabs, vec!["browse", "structure", "indexes", "query"]);
    assert_eq!(ui.actions, vec!["backup"]);
    assert_eq!(humanize("créé_le"), "Créé Le");
    assert_eq!(humanize("___"), "");
}

#[test]
fn graph_analysis_counts_labels_and_dangling_edges() {
    let nodes = vec![
        GraphNodeSample { id: "a".into(), label: Some("Person".into()) },
        GraphNodeSample { id: "b".into(), label: Some("City".into()) },
        GraphNodeSample { id: "c".into(), label: Some("Person".into()) },
    ];
    let edges = vec![
        GraphEdgeSample { from: "a".into(), to: "b".into(), label: Some("LIVES_IN".into()) },
        GraphEdgeSample { from: "a".into(), to: "z".into(), label: None },
    ];
    let g = analyze_graph(&nodes, &edges).unwrap();
    assert_eq!(g.records, 5);
    assert_eq!(g.dangling_edges, 1);
    assert_eq!(g.node_labels, vec![("City".to_string(), 1), ("Person".to_string(), 2)]);
    assert_eq!(g.edge_labels, vec![("LIVES_IN".to_string(), 1)]);
    assert_eq!(g.warnings, vec!["1 edges reference missing nodes"]);
    let dup = vec![
        GraphNodeSample { id: "a".into(), label: None },
        GraphNodeSample { id: "a".into(), label: None },
    ];
    assert_eq!(
        analyze_graph(&dup, &vec![]),
        Err(DatabaseError::Invalid(
            "graph node IDs must be unique, non-empty and <= 512 characters".into()
        ))
    );
}

#[test]
fn key_value_analysis_reports_kinds_ttls_and_duplicates() {
    let kv = |k: &str, kind: ValueKind, ttl: Option<u64>| KeyValueSample {
        key: k.into(),
        value_kind: kind,
        ttl_seconds: ttl,
    };
    let a = analyze_key_values(&vec![
        kv("a", ValueKind::String, Some(5)),
        kv("b", ValueKind::Integer, None),
        kv("a", ValueKind::String, None),
    ])
    .unwrap();
    assert_eq!(a.records, 3);
    assert_eq!(a.value_kinds, vec![("integer".to_string(), 1), ("string".to_string(), 2)]);
    assert_eq!(a.ttl_entries, 1);
    assert_eq!(a.unique_keys, 2);
    assert_eq!(a.warnings, vec!["duplicate key sample: a"]);
    assert_eq!(
        analyze_key_values(&vec![kv("bad\u{7}", ValueKind::Null, None)]),
        Err(DatabaseError::Invalid("key-value key is invalid".into()))
    );
}

#[test]
fn document_analysis_detects_types() {
    let docs = vec![
        Some(vec![("id".to_string(), ValueKind::Integer), ("name".to_string(), ValueKind::String)]),
        Some(vec![("id".to_string(), ValueKind::Integer), ("name".to_string(), ValueKind::Null)]),
    ];
    let r = analyze_documents(&docs).unwrap();
    assert_eq!(r.records, 2);
    let id = r.fields.iter().find(|(n, _)| n == "id").unwrap();
    assert_eq!(id.1, vec![("integer".to_string(), 2)]);
    assert_eq!(r.distinct_fields, 2);
    assert_eq!(r.heterogeneous_fields, 0);
}

#[test]
fn document_analysis_refusals_and_warnings() {
    assert_eq!(
        analyze_documents(&vec![Some(vec![]), None]),
        Err(DatabaseError::Invalid("document 1 is not an object".into()))
    );
    let mixed = vec![
        Some(vec![("v".to_string(), ValueKind::Integer)]),
        Some(vec![("v".to_string(), ValueKind::String)]),
        Some(vec![("v".to_string(), ValueKind::Array)]),
    ];
    let r = analyze_documents(&mixed).unwrap();
    assert_eq!(r.warnings, vec!["field v has 3 observed value types"]);
    assert_eq!(r.heterogeneous_fields, 1);
}

#[test]
fn search_and_column_analyses_cover_their_families() {
    let s = analyze_search(&vec![
        SearchDocumentSample {
            id: "1".into(),
            fields: vec![("title".into(), ValueKind::String), ("views".into(), ValueKind::Integer)],
        },
        SearchDocumentSample { id: "1".into(), fields: vec![("title".into(), ValueKind::String)] },
    ])
    .unwrap();
    assert_eq!(s.records, 2);
    assert_eq!(s.unique_documents, 1);
    assert_eq!(s.text_fields, vec!["title"]);
    assert_eq!(s.field_count, 2);
    assert_eq!(s.warnings, vec!["duplicate search document id: 1"]);
    let c = analyze_column(&vec![
        ColumnRowSample { partition_key: "a".into(), clustering_key: None, columns: vec![] },
        ColumnRowSample {
            partition_key: "a".into(),
            clustering_key: Some("x".into()),
            columns: vec![("v".into(), ValueKind::Decimal)],
        },
        ColumnRowSample { partition_key: "a".into(), clustering_key: Some("".into()), columns: vec![] },
    ])
    .unwrap();
    assert_eq!(c.records, 3);
    assert_eq!(c.partitions, vec![("a".to_string(), 3)]);
    assert_eq!(c.largest_partition_sample, 3);
    assert_eq!(c.column_count, 1);
    assert_eq!(c.warnings, vec!["duplicate partition/clustering sample for a"]);
    let rows: Vec<ColumnRowSample> = (0..100)
        .map(|k| ColumnRowSample {
            partition_key: "hot".into(),
            clustering_key: Some(k.to_string()),
            columns: vec![],
        })
        .collect();
    let d = analyze_column(&rows).unwrap();
    assert_eq!(d.warnings, vec!["sample is dominated by a single partition key"]);
}

#[test]
fn time_series_analysis_finds_span_tags_and_disorder() {
    let pt = |s: &str, t: i64, tags: Vec<(&str, &str)>| TimePointSample {
        series: s.into(),
        timestamp_unix_ms: t,
        value_finite: true,
        tags: tags.into_iter().map(|(k, v)| (k.to_string(), v.to_string())).collect(),
    };
    let a = analyze_time_series(&vec![
        pt("mem", 10, vec![("host", "a")]),
        pt("cpu", 5, vec![("region", "eu"), ("host", "b")]),
        pt("cpu", 3, vec![]),
        pt("mem", 20, vec![]),
    ])
    .unwrap();
    assert_eq!(a.records, 4);
    assert_eq!(a.series_count, 2);
    assert_eq!(a.min_timestamp_unix_ms, 3);
    assert_eq!(a.max_timestamp_unix_ms, 20);
    assert_eq!(a.tag_keys, vec!["host", "region"]);
    assert_eq!(a.warnings, vec!["series cpu contains out-of-order timestamps"]);
    let mut bad = pt("cpu", 1, vec![]);
    bad.value_finite = false;
    assert_eq!(
        analyze_time_series(&vec![bad]),
        Err(DatabaseError::Invalid("time-series value must be finite".into()))
    );
    let empty = analyze_time_series(&vec![]).unwrap();
    assert_eq!((empty.min_timestamp_unix_ms, empty.max_timestamp_unix_ms), (0, 0));
}
