//! Data contracts: the document types they define, and where each type keeps
//! identifiers and binary data.

use vstd::prelude::*;
use crate::identifier::Identifier;
use crate::errors::ProtocolError;

verus! {

/// A document type of a data contract, with the property paths that hold
/// identifiers and those that hold binary data.
#[derive(Clone, Debug, PartialEq, Eq)]
pub struct DocumentTypeDefinition {
    pub name: String,
    pub identifier_paths: Vec<String>,
    pub binary_paths: Vec<String>,
}

/// A data contract as the platform uses it.
#[derive(Clone, Debug, PartialEq, Eq)]
pub struct DataContract {
    pub id: Identifier,
    pub owner_id: Identifier,
    pub version: u32,
    pub document_types: Vec<DocumentTypeDefinition>,
}

/// Whether no document type before position `n` has this name.
pub open spec fn no_type_named_before(types: Seq<DocumentTypeDefinition>, name: Seq<char>, n: int) -> bool {
    forall|j: int| 0 <= j < n ==> #[trigger] types[j].name@ != name
}

/// No two document types of the contract share a name, as the platform's
/// contracts key their document types by name.
pub open spec fn has_distinct_type_names(types: Seq<DocumentTypeDefinition>) -> bool {
    forall|a: int, b: int|
        0 <= a < types.len() && 0 <= b < types.len() && a != b ==> #[trigger] types[a].name@ != #[trigger] types[b].name@
}

/// Whether position `i` holds the first document type of this name.
pub open spec fn is_first_type_named(types: Seq<DocumentTypeDefinition>, name: Seq<char>, i: int) -> bool {
    &&& 0 <= i < types.len()
    &&& types[i].name@ == name
    &&& no_type_named_before(types, name, i)
}

impl DataContract {
    /// The contract's document types have distinct names.
    pub open spec fn wf(&self) -> bool {
        has_distinct_type_names(self.document_types@)
    }

    /// In a contract whose type names are distinct, the first type of a name
    /// is the only one.
    pub proof fn lemma_first_type_is_only_type(&self, name: Seq<char>, i: int)
        requires
            self.wf(),
            is_first_type_named(self.document_types@, name, i),
        ensures
            forall|j: int|
                0 <= j < self.document_types@.len() && #[trigger] self.document_types@[j].name@ == name
                    ==> j == i,
    {
    }

    /// The identifier paths and the binary paths of the first document type
    /// named `document_type`; an error if the contract defines no such type.
    pub fn get_identifiers_and_binary_paths(&self, document_type: &String) -> (r: Result<
        (&Vec<String>, &Vec<String>),
        ProtocolError,
    >)
        ensures
            match r {
                Ok((ids, bins)) => exists|i: int|
                    0 <= i < self.document_types@.len()
                        && #[trigger] self.document_types@[i].name@ == document_type@
                        && no_type_named_before(self.document_types@, document_type@, i)
                        && *ids == self.document_types@[i].identifier_paths
                        && *bins == self.document_types@[i].binary_paths,
                Err(e) => {
                    &&& no_type_named_before(
                        self.document_types@,
                        document_type@,
                        self.document_types@.len() as int,
                    )
                    &&& e matches ProtocolError::DocumentTypeNotFound(name)
                    &&& name@ == document_type@
                },
            },
    {
        let n = self.document_types.len();
        let mut i: usize = 0;
        while i < n
            invariant
                n == self.document_types@.len(),
                i <= n,
                no_type_named_before(self.document_types@, document_type@, i as int),
            decreases n - i,
        {
            let t = &self.document_types[i];
            if t.name == *document_type {
                return Ok((&t.identifier_paths, &t.binary_paths));
            }
            i = i + 1;
        }
        Err(ProtocolError::DocumentTypeNotFound(document_type.clone()))
    }
}

/// A data contract in the form in which transitions carry it, before its
/// document schemas have been validated and turned into document types.
#[derive(Debug, PartialEq, Eq)]
pub struct DataContractInSerializationFormat {
    pub id: Identifier,
    pub owner_id: Identifier,
    pub version: u32,
    pub document_schemas: Vec<u8>,
}

impl DataContractInSerializationFormat {
    /// Two serialized contracts with the same content.
    pub open spec fn same_as(self, other: Self) -> bool {
        &&& self.id == other.id
        &&& self.owner_id == other.owner_id
        &&& self.version == other.version
        &&& self.document_schemas@ == other.document_schemas@
    }
}

impl Clone for DataContractInSerializationFormat {
    fn clone(&self) -> (r: Self)
        ensures
            r.same_as(*self),
    {
        DataContractInSerializationFormat {
            id: self.id,
            owner_id: self.owner_id,
            version: self.version,
            document_schemas: self.document_schemas.clone(),
        }
    }
}

} // verus!
