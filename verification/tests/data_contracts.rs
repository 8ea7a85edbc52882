use platform_validation::data_contract::{DataContract, DataContractInSerializationFormat, DocumentTypeDefinition};
use platform_validation::data_contract_create::{DataContractCreateTransitionActionV0, DataContractCreateTransitionV0};
use platform_validation::errors::ProtocolError;
use platform_validation::identifier::Identifier;
use platform_validation::version::{FeatureVersionBounds, PlatformVersion};

fn platform() -> PlatformVersion {
    PlatformVersion {
        protocol_version: 1,
        version_upgrade_vote_status: FeatureVersionBounds { min_version: 0, max_version: 0, default_current_version: 0 },
        identity_credit_transfer_balance: Some(0),
    }
}

fn doc_type(name: &str, ids: &[&str], bins: &[&str]) -> DocumentTypeDefinition {
    DocumentTypeDefinition {
        name: name.to_string(),
        identifier_paths: ids.iter().map(|s| s.to_string()).collect(),
        binary_paths: bins.iter().map(|s| s.to_string()).collect(),
    }
}

fn contract() -> DataContract {
    DataContract {
        id: Identifier::new([1; 32]),
        owner_id: Identifier::new([2; 32]),
        version: 1,
        document_types: vec![doc_type("note", &["author"], &["blob"]), doc_type("note", &["other"], &[])],
    }
}

fn transition() -> DataContractCreateTransitionV0 {
    DataContractCreateTransitionV0 {
        data_contract: DataContractInSerializationFormat {
            id: Identifier::new([1; 32]),
            owner_id: Identifier::new([2; 32]),
            version: 1,
            document_schemas: vec![1, 2, 3],
        },
        identity_nonce: 4,
        user_fee_increase: 0,
        signature_public_key_id: 0,
        signature: vec![0; 65],
    }
}

#[test]
fn paths_of_first_type_with_the_name() {
    let c = contract();
    let (ids, bins) = c.get_identifiers_and_binary_paths(&"note".to_string()).unwrap();
    assert_eq!(ids, &vec!["author".to_string()]);
    assert_eq!(bins, &vec!["blob".to_string()]);
}

#[test]
fn unknown_document_type_is_an_error() {
    let c = contract();
    assert_eq!(
        c.get_identifiers_and_binary_paths(&"card".to_string()),
        Err(ProtocolError::DocumentTypeNotFound("card".to_string()))
    );
}

#[test]
fn create_action_carries_converted_contract() {
    let r = DataContractCreateTransitionActionV0::try_from_platform_versioned(transition(), &platform(), |f, full, _| {
        assert!(full);
        assert_eq!(f.document_schemas, vec![1, 2, 3]);
        Ok(contract())
    });
    assert_eq!(r, Ok(DataContractCreateTransitionActionV0 { data_contract: contract() }));
}

#[test]
fn create_action_keeps_conversion_error() {
    let t = transition();
    let r = DataContractCreateTransitionActionV0::try_from_platform_versioned_borrowed(&t, &platform(), |f, full, _| {
        assert!(full);
        assert_eq!(f, transition().data_contract);
        Err(ProtocolError::InvalidDataContract("schema".to_string()))
    });
    assert_eq!(r, Err(ProtocolError::InvalidDataContract("schema".to_string())));
}

#[test]
fn serialized_contract_clone_is_equal() {
    let t = transition();
    assert_eq!(t.data_contract.clone(), t.data_contract);
}
