use platform_validation::document_transition::{
    BumpIdentityDataContractNonceAction, DocumentBaseTransitionAction, DocumentCreateTransitionAction,
    DocumentDeleteTransitionAction, DocumentField, DocumentReplaceTransitionAction, DocumentTransitionAction,
    FieldValue, DOCUMENT_TRANSITION_ACTION_VERSION,
};
use platform_validation::identifier::Identifier;

fn base(n: u8) -> DocumentBaseTransitionAction {
    DocumentBaseTransitionAction {
        id: Identifier::new([n; 32]),
        identity_contract_nonce: n as u64,
        document_type_name: "note".to_string(),
        data_contract_id: Identifier::new([9; 32]),
    }
}

#[test]
fn base_of_create_replace_delete() {
    let create = DocumentTransitionAction::CreateAction(DocumentCreateTransitionAction {
        base: base(1),
        created_at: Some(5),
        data: vec![DocumentField { name: "text".to_string(), value: FieldValue::Text("hi".to_string()) }],
    });
    assert_eq!(create.base(), Some(&base(1)));
    let replace = DocumentTransitionAction::ReplaceAction(DocumentReplaceTransitionAction {
        base: base(2),
        revision: 3,
        created_at: None,
        updated_at: Some(7),
        data: vec![],
    });
    assert_eq!(replace.base(), Some(&base(2)));
    let delete = DocumentTransitionAction::DeleteAction(DocumentDeleteTransitionAction { base: base(3) });
    assert_eq!(delete.base(), Some(&base(3)));
}

#[test]
fn base_of_nonce_bump_is_none() {
    let bump = DocumentTransitionAction::BumpIdentityDataContractNonce(BumpIdentityDataContractNonceAction {
        identity_id: Identifier::new([4; 32]),
        data_contract_id: Identifier::new([5; 32]),
        identity_contract_nonce: 11,
    });
    assert_eq!(bump.base(), None);
    assert_eq!(bump.base_owned(), None);
}

#[test]
fn base_owned_agrees_with_base() {
    let actions = vec![
        DocumentTransitionAction::CreateAction(DocumentCreateTransitionAction { base: base(1), created_at: None, data: vec![] }),
        DocumentTransitionAction::DeleteAction(DocumentDeleteTransitionAction { base: base(6) }),
    ];
    for a in actions {
        let borrowed = a.base().cloned();
        assert_eq!(a.base_owned(), borrowed);
    }
}

#[test]
fn from_wraps_each_action() {
    let a: DocumentTransitionAction = DocumentDeleteTransitionAction { base: base(8) }.into();
    assert_eq!(a, DocumentTransitionAction::DeleteAction(DocumentDeleteTransitionAction { base: base(8) }));
    assert_eq!(a.base_owned(), Some(base(8)));
    let c: DocumentTransitionAction = DocumentCreateTransitionAction { base: base(1), created_at: None, data: vec![] }.into();
    assert!(matches!(c, DocumentTransitionAction::CreateAction(_)));
    let r: DocumentTransitionAction = DocumentReplaceTransitionAction {
        base: base(1), revision: 2, created_at: None, updated_at: None, data: vec![],
    }.into();
    assert!(matches!(r, DocumentTransitionAction::ReplaceAction(_)));
    let b: DocumentTransitionAction = BumpIdentityDataContractNonceAction {
        identity_id: Identifier::new([1; 32]), data_contract_id: Identifier::new([2; 32]), identity_contract_nonce: 1,
    }.into();
    assert_eq!(b.base(), None);
}

#[test]
fn action_version_is_zero() {
    assert_eq!(DOCUMENT_TRANSITION_ACTION_VERSION, 0);
}

#[test]
fn identifier_to_vec_keeps_bytes() {
    let mut bytes = [0u8; 32];
    for (i, b) in bytes.iter_mut().enumerate() {
        *b = i as u8;
    }
    let v = Identifier::new(bytes).to_vec();
    assert_eq!(v, bytes.to_vec());
}

#[test]
fn clone_keeps_base() {
    let actions = vec![
        DocumentTransitionAction::CreateAction(DocumentCreateTransitionAction { base: base(1), created_at: Some(3), data: vec![] }),
        DocumentTransitionAction::ReplaceAction(DocumentReplaceTransitionAction {
            base: base(2), revision: 4, created_at: None, updated_at: None, data: vec![],
        }),
        DocumentTransitionAction::DeleteAction(DocumentDeleteTransitionAction { base: base(3) }),
        DocumentTransitionAction::BumpIdentityDataContractNonce(BumpIdentityDataContractNonceAction {
            identity_id: Identifier::new([4; 32]), data_contract_id: Identifier::new([5; 32]), identity_contract_nonce: 6,
        }),
    ];
    for a in &actions {
        assert_eq!(a.clone(), *a);
        assert_eq!(a.clone().base_owned(), a.base().cloned());
    }
}
