//! Document transition actions of a documents batch, and their shared base.

use vstd::prelude::*;
use crate::identifier::Identifier;

verus! {

/// Version of the document transition action format.
pub const DOCUMENT_TRANSITION_ACTION_VERSION: u32 = 0;

/// The value of one document property, as far as the actions carry it.
#[derive(Debug, PartialEq, Eq)]
pub enum FieldValue {
    Bytes(Vec<u8>),
    Text(String),
    Integer(i64),
    Boolean(bool),
}

/// One named document property.
#[derive(Debug, PartialEq, Eq)]
pub struct DocumentField {
    pub name: String,
    pub value: FieldValue,
}

/// What every document action has in common: which document of which
/// contract it targets, and the nonce that orders it.
#[derive(Debug, PartialEq, Eq)]
pub struct DocumentBaseTransitionAction {
    pub id: Identifier,
    pub identity_contract_nonce: u64,
    pub document_type_name: String,
    pub data_contract_id: Identifier,
}

/// Create a document.
#[derive(Debug, PartialEq, Eq)]
pub struct DocumentCreateTransitionAction {
    pub base: DocumentBaseTransitionAction,
    pub created_at: Option<u64>,
    pub data: Vec<DocumentField>,
}

/// Replace a document by a newer revision.
#[derive(Debug, PartialEq, Eq)]
pub struct DocumentReplaceTransitionAction {
    pub base: DocumentBaseTransitionAction,
    pub revision: u64,
    pub created_at: Option<u64>,
    pub updated_at: Option<u64>,
    pub data: Vec<DocumentField>,
}

/// Delete a document.
#[derive(Debug, PartialEq, Eq)]
pub struct DocumentDeleteTransitionAction {
    pub base: DocumentBaseTransitionAction,
}

/// Bump the nonce an identity holds for a data contract, without touching a document.
#[derive(Clone, Copy, Debug, PartialEq, Eq)]
pub struct BumpIdentityDataContractNonceAction {
    pub identity_id: Identifier,
    pub data_contract_id: Identifier,
    pub identity_contract_nonce: u64,
}

/// One action of a documents batch.
#[derive(Debug, PartialEq, Eq)]
pub enum DocumentTransitionAction {
    /// create
    CreateAction(DocumentCreateTransitionAction),
    /// replace
    ReplaceAction(DocumentReplaceTransitionAction),
    /// delete
    DeleteAction(DocumentDeleteTransitionAction),
    /// bump identity data contract nonce
    BumpIdentityDataContractNonce(BumpIdentityDataContractNonceAction),
}

/// The contents of a property value.
pub enum FieldValueView {
    Bytes(Seq<u8>),
    Text(Seq<char>),
    Integer(i64),
    Boolean(bool),
}

impl View for FieldValue {
    type V = FieldValueView;

    open spec fn view(&self) -> FieldValueView {
        match self {
            FieldValue::Bytes(b) => FieldValueView::Bytes(b@),
            FieldValue::Text(t) => FieldValueView::Text(t@),
            FieldValue::Integer(i) => FieldValueView::Integer(*i),
            FieldValue::Boolean(b) => FieldValueView::Boolean(*b),
        }
    }
}

impl View for DocumentField {
    type V = (Seq<char>, FieldValueView);

    open spec fn view(&self) -> (Seq<char>, FieldValueView) {
        (self.name@, self.value@)
    }
}

/// The contents of a list of properties.
pub open spec fn data_view(data: Seq<DocumentField>) -> Seq<(Seq<char>, FieldValueView)> {
    data.map_values(|f: DocumentField| f@)
}

/// A copy of a list of properties has the contents of the original.
proof fn lemma_cloned_data(a: Vec<DocumentField>, b: Vec<DocumentField>)
    requires
        b.len() == a.len(),
        forall|i| #![all_triggers] 0 <= i < a.len() ==> cloned::<DocumentField>(a[i], b[i]),
    ensures
        data_view(b@) == data_view(a@),
{
    assert forall|i: int| 0 <= i < a@.len() implies data_view(b@)[i] == data_view(a@)[i] by {
        assert(cloned::<DocumentField>(a[i], b[i]));
    }
    assert(data_view(b@) =~= data_view(a@));
}

impl Clone for FieldValue {
    /// A copy with the same contents.
    fn clone(&self) -> (r: Self)
        ensures
            r@ == self@,
    {
        match self {
            FieldValue::Bytes(b) => {
                let c = b.clone();
                assert(c@ =~= b@);
                FieldValue::Bytes(c)
            },
            FieldValue::Text(t) => FieldValue::Text(t.clone()),
            FieldValue::Integer(i) => FieldValue::Integer(*i),
            FieldValue::Boolean(b) => FieldValue::Boolean(*b),
        }
    }
}

impl Clone for DocumentField {
    /// A copy with the same name and value contents.
    fn clone(&self) -> (r: Self)
        ensures
            r@ == self@,
    {
        DocumentField { name: self.name.clone(), value: self.value.clone() }
    }
}

impl Clone for DocumentBaseTransitionAction {
    fn clone(&self) -> (r: Self)
        ensures
            r == *self,
    {
        DocumentBaseTransitionAction {
            id: self.id,
            identity_contract_nonce: self.identity_contract_nonce,
            document_type_name: self.document_type_name.clone(),
            data_contract_id: self.data_contract_id,
        }
    }
}

impl Clone for DocumentCreateTransitionAction {
    /// A copy with the same base and creation time, and data of the same contents.
    fn clone(&self) -> (r: Self)
        ensures
            r.base == self.base,
            r.created_at == self.created_at,
            data_view(r.data@) == data_view(self.data@),
    {
        let data = self.data.clone();
        proof {
            lemma_cloned_data(self.data, data);
        }
        DocumentCreateTransitionAction { base: self.base.clone(), created_at: self.created_at, data }
    }
}

impl Clone for DocumentReplaceTransitionAction {
    /// A copy with the same base, revision and times, and data of the same contents.
    fn clone(&self) -> (r: Self)
        ensures
            r.base == self.base,
            r.revision == self.revision,
            r.created_at == self.created_at,
            r.updated_at == self.updated_at,
            data_view(r.data@) == data_view(self.data@),
    {
        let data = self.data.clone();
        proof {
            lemma_cloned_data(self.data, data);
        }
        DocumentReplaceTransitionAction {
            base: self.base.clone(),
            revision: self.revision,
            created_at: self.created_at,
            updated_at: self.updated_at,
            data,
        }
    }
}

impl Clone for DocumentDeleteTransitionAction {
    fn clone(&self) -> (r: Self)
        ensures
            r == *self,
    {
        DocumentDeleteTransitionAction { base: self.base.clone() }
    }
}

impl Clone for DocumentTransitionAction {
    /// A copy of the same kind, with the same base: the base of a copy is the
    /// base of the original.
    fn clone(&self) -> (r: Self)
        ensures
            r.base_of() == self.base_of(),
            (r is CreateAction) == (self is CreateAction),
            (r is ReplaceAction) == (self is ReplaceAction),
            (r is DeleteAction) == (self is DeleteAction),
            (r is BumpIdentityDataContractNonce) == (self is BumpIdentityDataContractNonce),
            self is BumpIdentityDataContractNonce ==> r == *self,
            self is DeleteAction ==> r == *self,
            self matches DocumentTransitionAction::CreateAction(d) ==> (r is CreateAction
                && r->CreateAction_0.created_at == d.created_at
                && data_view(r->CreateAction_0.data@) == data_view(d.data@)),
            self matches DocumentTransitionAction::ReplaceAction(d) ==> (r is ReplaceAction
                && r->ReplaceAction_0.revision == d.revision
                && r->ReplaceAction_0.created_at == d.created_at
                && r->ReplaceAction_0.updated_at == d.updated_at
                && data_view(r->ReplaceAction_0.data@) == data_view(d.data@)),
    {
        match self {
            DocumentTransitionAction::CreateAction(d) => DocumentTransitionAction::CreateAction(d.clone()),
            DocumentTransitionAction::ReplaceAction(d) => DocumentTransitionAction::ReplaceAction(d.clone()),
            DocumentTransitionAction::DeleteAction(d) => DocumentTransitionAction::DeleteAction(d.clone()),
            DocumentTransitionAction::BumpIdentityDataContractNonce(d) => {
                DocumentTransitionAction::BumpIdentityDataContractNonce(*d)
            },
        }
    }
}

impl DocumentTransitionAction {
    /// The base of a document action; a nonce bump targets no document and has none.
    pub open spec fn base_of(self) -> Option<DocumentBaseTransitionAction> {
        match self {
            DocumentTransitionAction::CreateAction(d) => Some(d.base),
            DocumentTransitionAction::ReplaceAction(d) => Some(d.base),
            DocumentTransitionAction::DeleteAction(d) => Some(d.base),
            DocumentTransitionAction::BumpIdentityDataContractNonce(_) => None,
        }
    }

    /// base
    pub fn base(&self) -> (r: Option<&DocumentBaseTransitionAction>)
        ensures
            match r {
                Some(b) => self.base_of() == Some(*b),
                None => self.base_of() is None,
            },
    {
        match self {
            DocumentTransitionAction::CreateAction(d) => Some(&d.base),
            DocumentTransitionAction::DeleteAction(d) => Some(&d.base),
            DocumentTransitionAction::ReplaceAction(d) => Some(&d.base),
            DocumentTransitionAction::BumpIdentityDataContractNonce(_) => None,
        }
    }

    /// base owned
    pub fn base_owned(self) -> (r: Option<DocumentBaseTransitionAction>)
        ensures
            r == self.base_of(),
    {
        match self {
            DocumentTransitionAction::CreateAction(d) => Some(d.base),
            DocumentTransitionAction::DeleteAction(d) => Some(d.base),
            DocumentTransitionAction::ReplaceAction(d) => Some(d.base),
            DocumentTransitionAction::BumpIdentityDataContractNonce(_) => None,
        }
    }
}

impl From<DocumentCreateTransitionAction> for DocumentTransitionAction {
    fn from(v: DocumentCreateTransitionAction) -> (r: Self) {
        DocumentTransitionAction::CreateAction(v)
    }
}

impl vstd::std_specs::convert::FromSpecImpl<DocumentCreateTransitionAction> for DocumentTransitionAction {
    open spec fn obeys_from_spec() -> bool {
        true
    }

    open spec fn from_spec(v: DocumentCreateTransitionAction) -> Self {
        DocumentTransitionAction::CreateAction(v)
    }
}

impl From<DocumentReplaceTransitionAction> for DocumentTransitionAction {
    fn from(v: DocumentReplaceTransitionAction) -> (r: Self) {
        DocumentTransitionAction::ReplaceAction(v)
    }
}

impl vstd::std_specs::convert::FromSpecImpl<DocumentReplaceTransitionAction> for DocumentTransitionAction {
    open spec fn obeys_from_spec() -> bool {
        true
    }

    open spec fn from_spec(v: DocumentReplaceTransitionAction) -> Self {
        DocumentTransitionAction::ReplaceAction(v)
    }
}

impl From<DocumentDeleteTransitionAction> for DocumentTransitionAction {
    fn from(v: DocumentDeleteTransitionAction) -> (r: Self) {
        DocumentTransitionAction::DeleteAction(v)
    }
}

impl vstd::std_specs::convert::FromSpecImpl<DocumentDeleteTransitionAction> for DocumentTransitionAction {
    open spec fn obeys_from_spec() -> bool {
        true
    }

    open spec fn from_spec(v: DocumentDeleteTransitionAction) -> Self {
        DocumentTransitionAction::DeleteAction(v)
    }
}

impl From<BumpIdentityDataContractNonceAction> for DocumentTransitionAction {
    fn from(v: BumpIdentityDataContractNonceAction) -> (r: Self) {
        DocumentTransitionAction::BumpIdentityDataContractNonce(v)
    }
}

impl vstd::std_specs::convert::FromSpecImpl<BumpIdentityDataContractNonceAction> for DocumentTransitionAction {
    open spec fn obeys_from_spec() -> bool {
        true
    }

    open spec fn from_spec(v: BumpIdentityDataContractNonceAction) -> Self {
        DocumentTransitionAction::BumpIdentityDataContractNonce(v)
    }
}

/// An action has a base exactly when it targets a document, that is when it is
/// not a nonce bump; and the base is the one the action was built from.
pub proof fn lemma_base_present_iff_document_action(a: DocumentTransitionAction)
    ensures
        (a.base_of() is Some) <==> !(a is BumpIdentityDataContractNonce),
        a matches DocumentTransitionAction::CreateAction(d) ==> a.base_of() == Some(d.base),
        a matches DocumentTransitionAction::ReplaceAction(d) ==> a.base_of() == Some(d.base),
        a matches DocumentTransitionAction::DeleteAction(d) ==> a.base_of() == Some(d.base),
{
}

/// A copy of an action has the same base, so taking the base of a copy gives
/// the base of the original: `a.clone().base_owned()` equals what `a.base()`
/// points to.
pub proof fn lemma_clone_keeps_base(a: DocumentTransitionAction, copy: DocumentTransitionAction)
    requires
        vstd::pervasive::cloned::<DocumentTransitionAction>(a, copy),
    ensures
        copy.base_of() == a.base_of(),
{
}

/// Wrapping an action with `from` and reading its base back gives the base it had.
pub proof fn lemma_from_then_base(
    c: DocumentCreateTransitionAction,
    r: DocumentReplaceTransitionAction,
    d: DocumentDeleteTransitionAction,
    b: BumpIdentityDataContractNonceAction,
)
    ensures
        <DocumentTransitionAction as vstd::std_specs::convert::FromSpec<DocumentCreateTransitionAction>>::from_spec(c).base_of() == Some(c.base),
        <DocumentTransitionAction as vstd::std_specs::convert::FromSpec<DocumentReplaceTransitionAction>>::from_spec(r).base_of() == Some(r.base),
        <DocumentTransitionAction as vstd::std_specs::convert::FromSpec<DocumentDeleteTransitionAction>>::from_spec(d).base_of() == Some(d.base),
        <DocumentTransitionAction as vstd::std_specs::convert::FromSpec<BumpIdentityDataContractNonceAction>>::from_spec(b).base_of() is None,
{
}

} // verus!
