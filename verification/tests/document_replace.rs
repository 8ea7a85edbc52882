use platform_validation::data_contract::{DataContract, DocumentTypeDefinition};
use platform_validation::document_replace::{
    build_conversion_paths, plan_js_conversions, ConversionPath, ObjectEntry, ObjectValue, DocumentAction, DocumentBaseTransition,
    DocumentReplaceTransition, DocumentReplaceTransitionWasm, JsFieldConversion, JsFieldKind, ObjectField,
    ToObjectError,
};
use platform_validation::document_transition::{DocumentField, FieldValue};
use platform_validation::errors::ProtocolError;
use platform_validation::identifier::Identifier;

fn transition(action: DocumentAction, doc_type: &str, data: Vec<DocumentField>) -> DocumentReplaceTransition {
    DocumentReplaceTransition {
        base: DocumentBaseTransition {
            id: Identifier::new([1; 32]),
            document_type: doc_type.to_string(),
            action,
            data_contract: DataContract {
                id: Identifier::new([2; 32]),
                owner_id: Identifier::new([3; 32]),
                version: 1,
                document_types: vec![DocumentTypeDefinition {
                    name: "profile".to_string(),
                    identifier_paths: vec!["owner".to_string()],
                    binary_paths: vec!["avatar".to_string(), "owner".to_string()],
                }],
            },
        },
        revision: 2,
        updated_at: None,
        data,
    }
}

fn field(name: &str, value: FieldValue) -> DocumentField {
    DocumentField { name: name.to_string(), value }
}

fn conv(path: &str, kind: JsFieldKind, bytes: Vec<u8>) -> JsFieldConversion {
    JsFieldConversion { path: path.to_string(), kind, bytes }
}

#[test]
fn action_codes() {
    let w: DocumentReplaceTransitionWasm = transition(DocumentAction::Replace, "profile", vec![]).into();
    assert_eq!(w.action(), 1);
    let w: DocumentReplaceTransitionWasm = transition(DocumentAction::Create, "profile", vec![]).into();
    assert_eq!(w.action(), 0);
    let w: DocumentReplaceTransitionWasm = transition(DocumentAction::Delete, "profile", vec![]).into();
    assert_eq!(w.action(), 3);
}

#[test]
fn byte_fields_of_object_form() {
    let t = transition(
        DocumentAction::Replace,
        "profile",
        vec![field("name", FieldValue::Text("a".to_string())), field("avatar", FieldValue::Bytes(vec![5, 6]))],
    );
    let f = t.byte_fields();
    assert_eq!(
        f,
        vec![
            ObjectField { path: "$id".to_string(), bytes: vec![1; 32] },
            ObjectField { path: "$dataContractId".to_string(), bytes: vec![2; 32] },
            ObjectField { path: "avatar".to_string(), bytes: vec![5, 6] },
        ]
    );
}

#[test]
fn conversion_paths_order() {
    let p = build_conversion_paths(&vec!["owner".to_string()], &vec!["avatar".to_string()]);
    let names: Vec<(String, JsFieldKind)> = p.into_iter().map(|c| (c.path, c.kind)).collect();
    assert_eq!(
        names,
        vec![
            ("owner".to_string(), JsFieldKind::Identifier),
            ("$id".to_string(), JsFieldKind::Identifier),
            ("$dataContractId".to_string(), JsFieldKind::Identifier),
            ("avatar".to_string(), JsFieldKind::Buffer),
        ]
    );
}

#[test]
fn to_object_converts_each_field_once() {
    let t = transition(
        DocumentAction::Replace,
        "profile",
        vec![field("owner", FieldValue::Bytes(vec![4; 32])), field("avatar", FieldValue::Bytes(vec![5, 6]))],
    );
    let w: DocumentReplaceTransitionWasm = t.clone().into();
    assert_eq!(w.inner(), &t);
    assert_eq!(
        w.to_object(),
        Ok(vec![
            conv("owner", JsFieldKind::Identifier, vec![4; 32]),
            conv("$id", JsFieldKind::Identifier, vec![1; 32]),
            conv("$dataContractId", JsFieldKind::Identifier, vec![2; 32]),
            conv("avatar", JsFieldKind::Buffer, vec![5, 6]),
        ])
    );
}

#[test]
fn to_object_rejects_short_identifier() {
    let t = transition(DocumentAction::Replace, "profile", vec![field("owner", FieldValue::Bytes(vec![4; 3]))]);
    let w: DocumentReplaceTransitionWasm = t.into();
    assert_eq!(
        w.to_object(),
        Err(ToObjectError::InvalidIdentifier { path: "owner".to_string(), len: 3 })
    );
}

#[test]
fn to_object_unknown_type() {
    let w: DocumentReplaceTransitionWasm = transition(DocumentAction::Replace, "card", vec![]).into();
    assert_eq!(
        w.to_object(),
        Err(ToObjectError::Protocol(ProtocolError::DocumentTypeNotFound("card".to_string())))
    );
}

#[test]
fn plan_skips_absent_and_repeated_paths() {
    let fields = vec![ObjectField { path: "x".to_string(), bytes: vec![1] }];
    let paths = vec![
        ConversionPath { path: "missing".to_string(), kind: JsFieldKind::Identifier },
        ConversionPath { path: "x".to_string(), kind: JsFieldKind::Buffer },
        ConversionPath { path: "x".to_string(), kind: JsFieldKind::Identifier },
    ];
    assert_eq!(plan_js_conversions(&fields, &paths), Ok(vec![conv("x", JsFieldKind::Buffer, vec![1])]));
}

#[test]
fn object_entries_in_order() {
    let mut t = transition(
        DocumentAction::Replace,
        "profile",
        vec![field("name", FieldValue::Text("a".to_string())), field("age", FieldValue::Integer(-3))],
    );
    t.updated_at = Some(99);
    let e = t.object_entries();
    let entry = |k: &str, v: ObjectValue| ObjectEntry { key: k.to_string(), value: v };
    assert_eq!(
        e,
        vec![
            entry("$id", ObjectValue::Bytes(vec![1; 32])),
            entry("$type", ObjectValue::Text("profile".to_string())),
            entry("$action", ObjectValue::Unsigned(1)),
            entry("$dataContractId", ObjectValue::Bytes(vec![2; 32])),
            entry("$revision", ObjectValue::Unsigned(2)),
            entry("$updatedAt", ObjectValue::Unsigned(99)),
            entry("name", ObjectValue::Text("a".to_string())),
            entry("age", ObjectValue::Integer(-3)),
        ]
    );
}
