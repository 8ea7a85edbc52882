//! A document replace transition as the JavaScript binding exposes it: its
//! action code, and which fields of its object form become identifiers or
//! buffers on the JavaScript side.

use vstd::prelude::*;
use crate::identifier::Identifier;
use crate::errors::ProtocolError;
use crate::data_contract::{DataContract, is_first_type_named, no_type_named_before};
use crate::document_transition::{DocumentField, FieldValue};

verus! {

/// What a document transition does to its document.
#[derive(Clone, Copy, Debug, PartialEq, Eq)]
pub enum DocumentAction {
    Create,
    Replace,
    Delete,
}

/// The number by which an action is known on the wire.
pub open spec fn action_code(action: DocumentAction) -> u8 {
    match action {
        DocumentAction::Create => 0,
        DocumentAction::Replace => 1,
        DocumentAction::Delete => 3,
    }
}

impl DocumentAction {
    /// The number by which the action is known on the wire.
    pub fn code(&self) -> (r: u8)
        ensures
            r == action_code(*self),
    {
        match self {
            DocumentAction::Create => 0,
            DocumentAction::Replace => 1,
            DocumentAction::Delete => 3,
        }
    }
}

/// What every document transition has in common.
#[derive(Clone, Debug, PartialEq, Eq)]
pub struct DocumentBaseTransition {
    pub id: Identifier,
    pub document_type: String,
    pub action: DocumentAction,
    pub data_contract: DataContract,
}

/// Replace a document by a newer revision.
#[derive(Clone, Debug, PartialEq, Eq)]
pub struct DocumentReplaceTransition {
    pub base: DocumentBaseTransition,
    pub revision: u64,
    pub updated_at: Option<u64>,
    pub data: Vec<DocumentField>,
}

/// A document replace transition held for the JavaScript binding.
#[derive(Clone, Debug)]
pub struct DocumentReplaceTransitionWasm {
    inner: DocumentReplaceTransition,
}

impl DocumentReplaceTransitionWasm {
    /// The binding holding `v`.
    pub closed spec fn holding(v: DocumentReplaceTransition) -> Self {
        DocumentReplaceTransitionWasm { inner: v }
    }

    /// The transition the binding holds.
    pub closed spec fn transition(self) -> DocumentReplaceTransition {
        self.inner
    }

    /// The binding holds what it was made to hold.
    pub proof fn lemma_holding(v: DocumentReplaceTransition)
        ensures
            Self::holding(v).transition() == v,
    {
    }
}

impl From<DocumentReplaceTransition> for DocumentReplaceTransitionWasm {
    fn from(v: DocumentReplaceTransition) -> (r: Self) {
        DocumentReplaceTransitionWasm { inner: v }
    }
}

impl vstd::std_specs::convert::FromSpecImpl<DocumentReplaceTransition> for DocumentReplaceTransitionWasm {
    open spec fn obeys_from_spec() -> bool {
        true
    }

    open spec fn from_spec(v: DocumentReplaceTransition) -> Self {
        DocumentReplaceTransitionWasm::holding(v)
    }
}

/// How a byte field is handed to JavaScript.
#[derive(Clone, Copy, Debug, PartialEq, Eq, Structural)]
pub enum JsFieldKind {
    /// As an identifier; its bytes must be 32 long.
    Identifier,
    /// As a byte buffer.
    Buffer,
}

/// A property of a transition's object form that holds bytes.
#[derive(Clone, Debug, PartialEq, Eq)]
pub struct ObjectField {
    pub path: String,
    pub bytes: Vec<u8>,
}

/// A property path, and how its bytes are to be handed over.
#[derive(Clone, Debug, PartialEq, Eq)]
pub struct ConversionPath {
    pub path: String,
    pub kind: JsFieldKind,
}

/// One property that is handed over, with its bytes.
#[derive(Clone, Debug, PartialEq, Eq)]
pub struct JsFieldConversion {
    pub path: String,
    pub kind: JsFieldKind,
    pub bytes: Vec<u8>,
}

/// Why the object form could not be handed over.
#[derive(Clone, Debug, PartialEq, Eq)]
pub enum ToObjectError {
    /// The data contract has no such document type.
    Protocol(ProtocolError),
    /// The property at `path` should hold an identifier but holds `len` bytes.
    InvalidIdentifier { path: String, len: usize },
}

/// A byte field as path and bytes.
pub open spec fn field_view(f: ObjectField) -> (Seq<char>, Seq<u8>) {
    (f.path@, f.bytes@)
}

/// A conversion path as path and kind.
pub open spec fn path_view(p: ConversionPath) -> (Seq<char>, JsFieldKind) {
    (p.path@, p.kind)
}

/// A conversion as path, kind and bytes.
pub open spec fn conversion_view(c: JsFieldConversion) -> (Seq<char>, JsFieldKind, Seq<u8>) {
    (c.path@, c.kind, c.bytes@)
}

/// The bytes of the first field at `path`, if there is one.
pub open spec fn field_bytes(fields: Seq<(Seq<char>, Seq<u8>)>, path: Seq<char>) -> Option<Seq<u8>>
    decreases fields.len(),
{
    if fields.len() == 0 {
        None
    } else if fields[0].0 == path {
        Some(fields[0].1)
    } else {
        field_bytes(fields.drop_first(), path)
    }
}

/// Whether the path at position `i` does not occur earlier: a field taken at
/// an earlier occurrence is gone.
pub open spec fn first_occurrence(paths: Seq<(Seq<char>, JsFieldKind)>, i: int) -> bool {
    forall|j: int| 0 <= j < i ==> #[trigger] paths[j].0 != paths[i].0
}

/// The conversions for the first `n` paths: each path, at its first
/// occurrence, takes the field it names, if any; the first identifier whose
/// bytes are not 32 long stops everything with its path and length.
pub open spec fn plan(
    fields: Seq<(Seq<char>, Seq<u8>)>,
    paths: Seq<(Seq<char>, JsFieldKind)>,
    n: nat,
) -> Result<Seq<(Seq<char>, JsFieldKind, Seq<u8>)>, (Seq<char>, nat)>
    decreases n,
{
    if n == 0 {
        Ok(Seq::empty())
    } else {
        match plan(fields, paths, (n - 1) as nat) {
            Err(e) => Err(e),
            Ok(done) => {
                let (path, kind) = paths[n - 1];
                if first_occurrence(paths, n - 1) && field_bytes(fields, path) is Some {
                    let bytes = field_bytes(fields, path).unwrap();
                    if kind == JsFieldKind::Identifier && bytes.len() != 32 {
                        Err((path, bytes.len()))
                    } else {
                        Ok(done.push((path, kind, bytes)))
                    }
                } else {
                    Ok(done)
                }
            },
        }
    }
}

/// Once the plan has stopped with an error, longer plans stop with the same error.
pub proof fn lemma_plan_error_persists(
    fields: Seq<(Seq<char>, Seq<u8>)>,
    paths: Seq<(Seq<char>, JsFieldKind)>,
    k: nat,
    m: nat,
)
    requires
        k <= m,
        plan(fields, paths, k) is Err,
    ensures
        plan(fields, paths, m) == plan(fields, paths, k),
    decreases m - k,
{
    if k < m {
        lemma_plan_error_persists(fields, paths, k, (m - 1) as nat);
    }
}

/// What every successful plan keeps: each conversion takes the bytes of a
/// field at one of the paths, identifiers are 32 bytes long, and no path is
/// converted twice.
pub proof fn lemma_plan_conversions_well_formed(
    fields: Seq<(Seq<char>, Seq<u8>)>,
    paths: Seq<(Seq<char>, JsFieldKind)>,
    n: nat,
)
    requires
        n <= paths.len(),
        plan(fields, paths, n) is Ok,
    ensures
        ({
            let s = plan(fields, paths, n)->Ok_0;
            &&& forall|k: int| 0 <= k < s.len() ==> field_bytes(fields, #[trigger] s[k].0) == Some(s[k].2)
            &&& forall|k: int| 0 <= k < s.len() && #[trigger] s[k].1 == JsFieldKind::Identifier ==> s[k].2.len() == 32
            &&& forall|k: int| 0 <= k < s.len() ==> exists|j: int| 0 <= j < n && (#[trigger] paths[j]).0 == (#[trigger] s[k]).0 && paths[j].1 == s[k].1
            &&& forall|a: int, b: int| 0 <= a < b < s.len() ==> (#[trigger] s[a]).0 != (#[trigger] s[b]).0
        }),
    decreases n,
{
    if n > 0 {
        lemma_plan_conversions_well_formed(fields, paths, (n - 1) as nat);
        let done = plan(fields, paths, (n - 1) as nat)->Ok_0;
        let s = plan(fields, paths, n)->Ok_0;
        let (path, kind) = paths[n - 1];
        if first_occurrence(paths, n - 1) && field_bytes(fields, path) is Some {
            assert(s == done.push((path, kind, field_bytes(fields, path).unwrap())));
            assert forall|k: int| 0 <= k < s.len() implies exists|j: int| 0 <= j < n && (#[trigger] paths[j]).0 == (#[trigger] s[k]).0 && paths[j].1 == s[k].1 by {
                if k == s.len() - 1 {
                    assert(paths[n - 1].0 == s[k].0);
                } else {
                    assert(s[k] == done[k]);
                    let j = choose|j: int| 0 <= j < n - 1 && (#[trigger] paths[j]).0 == (#[trigger] done[k]).0 && paths[j].1 == done[k].1;
                    assert(paths[j].0 == s[k].0);
                }
            }
            assert forall|a: int, b: int| 0 <= a < b < s.len() implies (#[trigger] s[a]).0 != (#[trigger] s[b]).0 by {
                assert(s[a] == done[a]);
                if b == s.len() - 1 {
                    let j = choose|j: int| 0 <= j < n - 1 && (#[trigger] paths[j]).0 == (#[trigger] done[a]).0 && paths[j].1 == done[a].1;
                    assert(paths[j].0 != paths[n - 1].0);
                } else {
                    assert(s[b] == done[b]);
                }
            }
        } else {
            assert(s == done);
            assert forall|k: int| 0 <= k < s.len() implies exists|j: int| 0 <= j < n && (#[trigger] paths[j]).0 == (#[trigger] s[k]).0 && paths[j].1 == s[k].1 by {
                let j = choose|j: int| 0 <= j < n - 1 && (#[trigger] paths[j]).0 == (#[trigger] done[k]).0 && paths[j].1 == done[k].1;
            }
        }
    }
}

/// The field at a path is the first field of that path: its bytes, when some
/// field has the path; none when no field has it.
pub proof fn lemma_field_bytes_is_first_match(fields: Seq<(Seq<char>, Seq<u8>)>, path: Seq<char>)
    ensures
        field_bytes(fields, path) matches Some(b) ==> exists|k: int|
            0 <= k < fields.len() && #[trigger] fields[k].0 == path && b == fields[k].1 && forall|j: int|
                0 <= j < k ==> fields[j].0 != path,
        (field_bytes(fields, path) is None) <==> forall|k: int| 0 <= k < fields.len() ==> #[trigger] fields[k].0 != path,
        forall|k: int|
            0 <= k < fields.len() && #[trigger] fields[k].0 == path && (forall|j: int| 0 <= j < k ==> fields[j].0 != path)
                ==> field_bytes(fields, path) == Some(fields[k].1),
    decreases fields.len(),
{
    if fields.len() > 0 {
        let rest = fields.drop_first();
        lemma_field_bytes_is_first_match(rest, path);
        if fields[0].0 == path {
            assert forall|k: int|
                0 <= k < fields.len() && #[trigger] fields[k].0 == path && (forall|j: int| 0 <= j < k ==> fields[j].0 != path)
                    implies field_bytes(fields, path) == Some(fields[k].1) by {
                if k > 0 {
                    assert(fields[0].0 != path);
                }
            }
        } else {
            assert forall|k: int| 0 <= k < rest.len() implies #[trigger] rest[k] == fields[k + 1] by {}
            if field_bytes(fields, path) is Some {
                let b = field_bytes(fields, path).unwrap();
                let k = choose|k: int|
                    0 <= k < rest.len() && #[trigger] rest[k].0 == path && b == rest[k].1 && forall|j: int|
                        0 <= j < k ==> rest[j].0 != path;
                assert(fields[k + 1].0 == path);
                assert forall|j: int| 0 <= j < k + 1 implies fields[j].0 != path by {
                    if j > 0 {
                        assert(rest[j - 1] == fields[j]);
                    }
                }
            }
            if field_bytes(fields, path) is None {
                assert forall|k: int| 0 <= k < fields.len() implies #[trigger] fields[k].0 != path by {
                    if k > 0 {
                        assert(rest[k - 1] == fields[k]);
                    }
                }
            } else {
                let b = field_bytes(fields, path).unwrap();
                let k = choose|k: int|
                    0 <= k < rest.len() && #[trigger] rest[k].0 == path && b == rest[k].1 && forall|j: int|
                        0 <= j < k ==> rest[j].0 != path;
                assert(fields[k + 1].0 == path);
            }
            assert forall|k: int|
                0 <= k < fields.len() && #[trigger] fields[k].0 == path && (forall|j: int| 0 <= j < k ==> fields[j].0 != path)
                    implies field_bytes(fields, path) == Some(fields[k].1) by {
                assert(k > 0);
                assert(rest[k - 1] == fields[k]);
                assert forall|j: int| 0 <= j < k - 1 implies rest[j].0 != path by {
                    assert(rest[j] == fields[j + 1]);
                }
            }
        }
    }
}

/// Each path that occurs for the first time and names a field is converted
/// by a successful plan, with its kind and its field's bytes.
pub proof fn lemma_plan_ok_complete(
    fields: Seq<(Seq<char>, Seq<u8>)>,
    paths: Seq<(Seq<char>, JsFieldKind)>,
    n: nat,
)
    requires
        n <= paths.len(),
        plan(fields, paths, n) is Ok,
    ensures
        forall|i: int|
            0 <= i < n && (forall|j: int| 0 <= j < i ==> paths[j].0 != paths[i].0) && #[trigger] field_bytes(
                fields,
                paths[i].0,
            ) is Some ==> exists|m: int|
                0 <= m < plan(fields, paths, n)->Ok_0.len() && #[trigger] plan(fields, paths, n)->Ok_0[m] == (
                    paths[i].0,
                    paths[i].1,
                    field_bytes(fields, paths[i].0)->Some_0,
                ),
    decreases n,
{
    if n > 0 {
        let k = (n - 1) as int;
        lemma_plan_ok_complete(fields, paths, (n - 1) as nat);
        let done = plan(fields, paths, (n - 1) as nat)->Ok_0;
        let s = plan(fields, paths, n)->Ok_0;
        if first_occurrence(paths, k) && field_bytes(fields, paths[k].0) is Some {
            assert(s == done.push((paths[k].0, paths[k].1, field_bytes(fields, paths[k].0)->Some_0)));
        } else {
            assert(s == done);
        }
        assert forall|i: int|
            0 <= i < n && (forall|j: int| 0 <= j < i ==> paths[j].0 != paths[i].0) && #[trigger] field_bytes(
                fields,
                paths[i].0,
            ) is Some implies exists|m: int|
                0 <= m < s.len() && #[trigger] s[m] == (paths[i].0, paths[i].1, field_bytes(fields, paths[i].0)->Some_0) by {
            if i < k {
                let m = choose|m: int|
                    0 <= m < done.len() && #[trigger] done[m] == (paths[i].0, paths[i].1, field_bytes(fields, paths[i].0)->Some_0);
                assert(s[m] == done[m]);
            } else {
                assert(first_occurrence(paths, k));
                assert(s[s.len() - 1] == (paths[i].0, paths[i].1, field_bytes(fields, paths[i].0)->Some_0));
            }
        }
    }
}

/// A successful plan converts nothing but paths that occur for the first
/// time and name a field, each with its kind and its field's bytes.
pub proof fn lemma_plan_ok_sound(
    fields: Seq<(Seq<char>, Seq<u8>)>,
    paths: Seq<(Seq<char>, JsFieldKind)>,
    n: nat,
)
    requires
        n <= paths.len(),
        plan(fields, paths, n) is Ok,
    ensures
        forall|m: int|
            0 <= m < plan(fields, paths, n)->Ok_0.len() ==> exists|i: int|
                0 <= i < n && (forall|j: int| 0 <= j < i ==> paths[j].0 != paths[i].0) && field_bytes(
                    fields,
                    paths[i].0,
                ) is Some && #[trigger] plan(fields, paths, n)->Ok_0[m] == (
                    paths[i].0,
                    paths[i].1,
                    field_bytes(fields, paths[i].0)->Some_0,
                ),
    decreases n,
{
    if n > 0 {
        let k = (n - 1) as int;
        lemma_plan_ok_sound(fields, paths, (n - 1) as nat);
        let done = plan(fields, paths, (n - 1) as nat)->Ok_0;
        let s = plan(fields, paths, n)->Ok_0;
        let emits = first_occurrence(paths, k) && field_bytes(fields, paths[k].0) is Some;
        if emits {
            assert(s == done.push((paths[k].0, paths[k].1, field_bytes(fields, paths[k].0)->Some_0)));
        } else {
            assert(s == done);
        }
        assert forall|m: int| 0 <= m < s.len() implies exists|i: int|
            0 <= i < n && (forall|j: int| 0 <= j < i ==> paths[j].0 != paths[i].0) && field_bytes(
                fields,
                paths[i].0,
            ) is Some && #[trigger] s[m] == (paths[i].0, paths[i].1, field_bytes(fields, paths[i].0)->Some_0) by {
            if m < done.len() {
                assert(s[m] == done[m]);
                let i = choose|i: int|
                    0 <= i < k && (forall|j: int| 0 <= j < i ==> paths[j].0 != paths[i].0) && field_bytes(
                        fields,
                        paths[i].0,
                    ) is Some && #[trigger] done[m] == (paths[i].0, paths[i].1, field_bytes(fields, paths[i].0)->Some_0);
            } else {
                assert(emits);
                assert(first_occurrence(paths, k));
            }
        }
    }
}

/// A successful plan converts the paths in their order.
pub proof fn lemma_plan_ok_ordered(
    fields: Seq<(Seq<char>, Seq<u8>)>,
    paths: Seq<(Seq<char>, JsFieldKind)>,
    n: nat,
)
    requires
        n <= paths.len(),
        plan(fields, paths, n) is Ok,
    ensures
        forall|m1: int, m2: int, i1: int, i2: int|
            0 <= m1 < m2 < plan(fields, paths, n)->Ok_0.len() && 0 <= i1 < n && 0 <= i2 < n
                && #[trigger] plan(fields, paths, n)->Ok_0[m1].0 == #[trigger] paths[i1].0
                && #[trigger] plan(fields, paths, n)->Ok_0[m2].0 == #[trigger] paths[i2].0
                && (forall|j: int| 0 <= j < i1 ==> paths[j].0 != paths[i1].0)
                && (forall|j: int| 0 <= j < i2 ==> paths[j].0 != paths[i2].0) ==> i1 < i2,
    decreases n,
{
    if n > 0 {
        let k = (n - 1) as int;
        lemma_plan_ok_ordered(fields, paths, (n - 1) as nat);
        lemma_plan_ok_sound(fields, paths, (n - 1) as nat);
        let done = plan(fields, paths, (n - 1) as nat)->Ok_0;
        let s = plan(fields, paths, n)->Ok_0;
        let emits = first_occurrence(paths, k) && field_bytes(fields, paths[k].0) is Some;
        if emits {
            assert(s == done.push((paths[k].0, paths[k].1, field_bytes(fields, paths[k].0)->Some_0)));
        } else {
            assert(s == done);
        }
        assert forall|m1: int, m2: int, i1: int, i2: int|
            0 <= m1 < m2 < s.len() && 0 <= i1 < n && 0 <= i2 < n && #[trigger] s[m1].0 == #[trigger] paths[i1].0
                && #[trigger] s[m2].0 == #[trigger] paths[i2].0 && (forall|j: int| 0 <= j < i1 ==> paths[j].0 != paths[i1].0)
                && (forall|j: int| 0 <= j < i2 ==> paths[j].0 != paths[i2].0) implies i1 < i2 by {
            assert(s[m1] == done[m1]);
            let a = choose|a: int|
                0 <= a < k && (forall|j: int| 0 <= j < a ==> paths[j].0 != paths[a].0) && field_bytes(
                    fields,
                    paths[a].0,
                ) is Some && #[trigger] done[m1] == (paths[a].0, paths[a].1, field_bytes(fields, paths[a].0)->Some_0);
            if i1 > a {
                assert(paths[a].0 != paths[i1].0);
            }
            if i1 < a {
                assert(paths[i1].0 != paths[a].0);
            }
            if m2 < done.len() {
                assert(s[m2] == done[m2]);
                assert(done[m1].0 == paths[i1].0);
                assert(done[m2].0 == paths[i2].0);
            } else {
                assert(emits);
                assert(s[m2].0 == paths[k].0);
                if i2 < k {
                    assert(first_occurrence(paths, k));
                    assert(paths[i2].0 != paths[k].0);
                }
                if i2 > k {
                    assert(paths[k].0 != paths[i2].0);
                }
            }
        }
    }
}

/// A successful plan found every identifier it was to convert 32 bytes long.
pub proof fn lemma_plan_ok_identifiers_are_32_bytes(
    fields: Seq<(Seq<char>, Seq<u8>)>,
    paths: Seq<(Seq<char>, JsFieldKind)>,
    n: nat,
)
    requires
        n <= paths.len(),
        plan(fields, paths, n) is Ok,
    ensures
        forall|i: int|
            0 <= i < n && (forall|j: int| 0 <= j < i ==> paths[j].0 != paths[i].0) && #[trigger] field_bytes(
                fields,
                paths[i].0,
            ) is Some && paths[i].1 == JsFieldKind::Identifier ==> field_bytes(fields, paths[i].0)->Some_0.len() == 32,
    decreases n,
{
    if n > 0 {
        let k = (n - 1) as int;
        lemma_plan_ok_identifiers_are_32_bytes(fields, paths, (n - 1) as nat);
        assert forall|i: int|
            0 <= i < n && (forall|j: int| 0 <= j < i ==> paths[j].0 != paths[i].0) && #[trigger] field_bytes(
                fields,
                paths[i].0,
            ) is Some && paths[i].1 == JsFieldKind::Identifier implies field_bytes(fields, paths[i].0)->Some_0.len() == 32 by {
            if i == k {
                assert(first_occurrence(paths, k));
            }
        }
    }
}

/// A plan fails exactly when some path, at its first occurrence, should be an
/// identifier but names a field that is not 32 bytes long; it then fails with
/// the first such path and that field's length.
pub proof fn lemma_plan_error_is_first_bad_identifier(
    fields: Seq<(Seq<char>, Seq<u8>)>,
    paths: Seq<(Seq<char>, JsFieldKind)>,
    n: nat,
)
    requires
        n <= paths.len(),
    ensures
        (plan(fields, paths, n) is Err) == exists|i: int|
            0 <= i < n && (forall|j: int| 0 <= j < i ==> paths[j].0 != paths[i].0) && #[trigger] field_bytes(
                fields,
                paths[i].0,
            ) is Some && paths[i].1 == JsFieldKind::Identifier && field_bytes(fields, paths[i].0)->Some_0.len() != 32,
        plan(fields, paths, n) matches Err((p, l)) ==> exists|i: int|
            0 <= i < n && (forall|j: int| 0 <= j < i ==> paths[j].0 != paths[i].0) && #[trigger] field_bytes(
                fields,
                paths[i].0,
            ) is Some && paths[i].1 == JsFieldKind::Identifier && p == paths[i].0 && l
                == field_bytes(fields, paths[i].0)->Some_0.len() && l != 32 && forall|i2: int|
                0 <= i2 < i && (forall|j: int| 0 <= j < i2 ==> paths[j].0 != paths[i2].0) && #[trigger] field_bytes(
                    fields,
                    paths[i2].0,
                ) is Some && paths[i2].1 == JsFieldKind::Identifier ==> field_bytes(fields, paths[i2].0)->Some_0.len() == 32,
    decreases n,
{
    if n > 0 {
        let k = (n - 1) as int;
        lemma_plan_error_is_first_bad_identifier(fields, paths, (n - 1) as nat);
        if plan(fields, paths, (n - 1) as nat) is Ok {
            lemma_plan_ok_identifiers_are_32_bytes(fields, paths, (n - 1) as nat);
        }
        let (path, kind) = paths[k];
        if plan(fields, paths, (n - 1) as nat) is Ok && first_occurrence(paths, k) && field_bytes(fields, path) is Some
            && kind == JsFieldKind::Identifier && field_bytes(fields, path)->Some_0.len() != 32 {
            assert(first_occurrence(paths, k));
        }
    }
}

/// The properties of a replace transition that are always identifiers.
pub open spec fn identifier_fields() -> Seq<Seq<char>> {
    seq!["$id"@, "$dataContractId"@]
}

/// The paths to convert, in order: the type's identifier paths, the fixed
/// identifier properties, then the type's binary paths.
pub open spec fn conversion_paths(
    identifier_paths: Seq<Seq<char>>,
    binary_paths: Seq<Seq<char>>,
) -> Seq<(Seq<char>, JsFieldKind)> {
    (identifier_paths + identifier_fields()).map_values(|p: Seq<char>| (p, JsFieldKind::Identifier))
        + binary_paths.map_values(|p: Seq<char>| (p, JsFieldKind::Buffer))
}

/// The paths to convert are the type's identifier paths, as identifiers, in
/// order; then `$id` and `$dataContractId`, as identifiers; then the type's
/// binary paths, as buffers, in order.
pub proof fn lemma_conversion_paths_layout(identifier_paths: Seq<Seq<char>>, binary_paths: Seq<Seq<char>>)
    ensures
        ({
            let c = conversion_paths(identifier_paths, binary_paths);
            let n = identifier_paths.len() as int;
            &&& c.len() == identifier_paths.len() + 2 + binary_paths.len()
            &&& forall|i: int| 0 <= i < n ==> #[trigger] c[i] == (identifier_paths[i], JsFieldKind::Identifier)
            &&& c[n] == ("$id"@, JsFieldKind::Identifier)
            &&& c[n + 1] == ("$dataContractId"@, JsFieldKind::Identifier)
            &&& forall|i: int| 0 <= i < binary_paths.len() ==> #[trigger] c[n + 2 + i] == (binary_paths[i], JsFieldKind::Buffer)
        }),
{
    let c = conversion_paths(identifier_paths, binary_paths);
    let n = identifier_paths.len() as int;
    let left = identifier_paths + identifier_fields();
    assert(left[n] == "$id"@);
    assert(left[n + 1] == "$dataContractId"@);
    assert forall|i: int| 0 <= i < binary_paths.len() implies #[trigger] c[n + 2 + i] == (binary_paths[i], JsFieldKind::Buffer) by {
        assert(c[n + 2 + i] == binary_paths.map_values(|p: Seq<char>| (p, JsFieldKind::Buffer))[i]);
    }
}

/// The views of a vector of strings.
pub open spec fn strings_view(v: Seq<String>) -> Seq<Seq<char>> {
    v.map_values(|s: String| s@)
}

/// Looks up the first field at `path`.
fn find_field(fields: &Vec<ObjectField>, path: &String) -> (r: Option<Vec<u8>>)
    ensures
        match r {
            Some(b) => field_bytes(fields@.map_values(|f: ObjectField| field_view(f)), path@) == Some(b@),
            None => field_bytes(fields@.map_values(|f: ObjectField| field_view(f)), path@) is None,
        },
{
    let ghost all = fields@.map_values(|f: ObjectField| field_view(f));
    let n = fields.len();
    let mut i: usize = 0;
    assert(all.subrange(0, n as int) =~= all);
    while i < n
        invariant
            n == fields@.len(),
            i <= n,
            all == fields@.map_values(|f: ObjectField| field_view(f)),
            field_bytes(all, path@) == field_bytes(all.subrange(i as int, n as int), path@),
        decreases n - i,
    {
        let ghost rest = all.subrange(i as int, n as int);
        assert(rest[0] == field_view(fields@[i as int]));
        assert(rest.drop_first() =~= all.subrange(i + 1, n as int));
        if fields[i].path == *path {
            return Some(fields[i].bytes.clone());
        }
        i = i + 1;
    }
    None
}

/// Whether the path at position `i` occurs at no earlier position.
fn is_first_occurrence(paths: &Vec<ConversionPath>, i: usize) -> (r: bool)
    requires
        i < paths@.len(),
    ensures
        r == first_occurrence(paths@.map_values(|p: ConversionPath| path_view(p)), i as int),
{
    let ghost all = paths@.map_values(|p: ConversionPath| path_view(p));
    let mut j: usize = 0;
    while j < i
        invariant
            i < paths@.len(),
            j <= i,
            all == paths@.map_values(|p: ConversionPath| path_view(p)),
            forall|k: int| 0 <= k < j ==> #[trigger] all[k].0 != all[i as int].0,
        decreases i - j,
    {
        if paths[j].path == paths[i].path {
            assert(all[j as int].0 == all[i as int].0);
            return false;
        }
        j = j + 1;
    }
    true
}

/// Whether a conversion outcome is the planned one: the same conversions, or
/// the same failing identifier.
pub open spec fn agrees_with_plan(
    r: Result<Vec<JsFieldConversion>, ToObjectError>,
    planned: Result<Seq<(Seq<char>, JsFieldKind, Seq<u8>)>, (Seq<char>, nat)>,
) -> bool {
    match (r, planned) {
        (Ok(v), Ok(s)) => v@.map_values(|c: JsFieldConversion| conversion_view(c)) == s,
        (Err(ToObjectError::InvalidIdentifier { path, len }), Err((p, l))) => path@ == p && len == l,
        _ => false,
    }
}

/// Which byte fields are handed over as identifiers and which as buffers,
/// following `paths` in order; see `plan`.
pub fn plan_js_conversions(fields: &Vec<ObjectField>, paths: &Vec<ConversionPath>) -> (r: Result<
    Vec<JsFieldConversion>,
    ToObjectError,
>)
    ensures
        agrees_with_plan(
            r,
            plan(
                fields@.map_values(|f: ObjectField| field_view(f)),
                paths@.map_values(|p: ConversionPath| path_view(p)),
                paths@.len(),
            ),
        ),
{
    let ghost fv = fields@.map_values(|f: ObjectField| field_view(f));
    let ghost pv = paths@.map_values(|p: ConversionPath| path_view(p));
    let n = paths.len();
    let mut out: Vec<JsFieldConversion> = Vec::new();
    let mut i: usize = 0;
    assert(out@.map_values(|c: JsFieldConversion| conversion_view(c)) =~= Seq::empty());
    while i < n
        invariant
            n == paths@.len(),
            i <= n,
            fv == fields@.map_values(|f: ObjectField| field_view(f)),
            pv == paths@.map_values(|p: ConversionPath| path_view(p)),
            plan(fv, pv, i as nat) == Ok::<Seq<(Seq<char>, JsFieldKind, Seq<u8>)>, (Seq<char>, nat)>(
                out@.map_values(|c: JsFieldConversion| conversion_view(c)),
            ),
        decreases n - i,
    {
        let first = is_first_occurrence(paths, i);
        assert(pv[i as int] == path_view(paths@[i as int]));
        if first {
            match find_field(fields, &paths[i].path) {
                Some(bytes) => {
                    if paths[i].kind == JsFieldKind::Identifier && bytes.len() != 32 {
                        proof {
                            lemma_plan_error_persists(fv, pv, (i + 1) as nat, n as nat);
                        }
                        return Err(ToObjectError::InvalidIdentifier {
                            path: paths[i].path.clone(),
                            len: bytes.len(),
                        });
                    }
                    let c = JsFieldConversion {
                        path: paths[i].path.clone(),
                        kind: paths[i].kind,
                        bytes,
                    };
                    let ghost before = out@;
                    out.push(c);
                    assert(out@.map_values(|c: JsFieldConversion| conversion_view(c)) =~= before.map_values(
                        |c: JsFieldConversion| conversion_view(c),
                    ).push(conversion_view(c)));
                },
                None => {},
            }
        }
        i = i + 1;
    }
    Ok(out)
}

/// The byte-valued properties among a document's data, in order.
pub open spec fn data_byte_fields(data: Seq<DocumentField>) -> Seq<(Seq<char>, Seq<u8>)>
    decreases data.len(),
{
    if data.len() == 0 {
        Seq::empty()
    } else {
        let rest = data_byte_fields(data.drop_last());
        match data.last().value {
            FieldValue::Bytes(b) => rest.push((data.last().name@, b@)),
            _ => rest,
        }
    }
}

/// The byte-valued properties of a replace transition's object form: its id,
/// its data contract's id, then the byte-valued data.
pub open spec fn object_byte_fields(t: DocumentReplaceTransition) -> Seq<(Seq<char>, Seq<u8>)> {
    seq![("$id"@, t.base.id.bytes@), ("$dataContractId"@, t.base.data_contract.id.bytes@)]
        + data_byte_fields(t.data@)
}

/// A value of the object form.
#[derive(Clone, Debug, PartialEq, Eq)]
pub enum ObjectValue {
    Bytes(Vec<u8>),
    Text(String),
    Unsigned(u64),
    Integer(i64),
    Boolean(bool),
}

/// A value of the object form, as its contents.
pub enum ObjectValueView {
    Bytes(Seq<u8>),
    Text(Seq<char>),
    Unsigned(u64),
    Integer(i64),
    Boolean(bool),
}

/// One property of the object form.
#[derive(Clone, Debug, PartialEq, Eq)]
pub struct ObjectEntry {
    pub key: String,
    pub value: ObjectValue,
}

/// The contents of an object value.
pub open spec fn value_view(v: ObjectValue) -> ObjectValueView {
    match v {
        ObjectValue::Bytes(b) => ObjectValueView::Bytes(b@),
        ObjectValue::Text(t) => ObjectValueView::Text(t@),
        ObjectValue::Unsigned(u) => ObjectValueView::Unsigned(u),
        ObjectValue::Integer(i) => ObjectValueView::Integer(i),
        ObjectValue::Boolean(b) => ObjectValueView::Boolean(b),
    }
}

/// An entry as key and value contents.
pub open spec fn entry_view(e: ObjectEntry) -> (Seq<char>, ObjectValueView) {
    (e.key@, value_view(e.value))
}

/// A document property as an entry of the object form.
pub open spec fn field_entry(f: DocumentField) -> (Seq<char>, ObjectValueView) {
    (f.name@, match f.value {
        FieldValue::Bytes(b) => ObjectValueView::Bytes(b@),
        FieldValue::Text(t) => ObjectValueView::Text(t@),
        FieldValue::Integer(i) => ObjectValueView::Integer(i),
        FieldValue::Boolean(b) => ObjectValueView::Boolean(b),
    })
}

/// The object form of a replace transition, in order: `$id`, `$type`,
/// `$action`, `$dataContractId`, `$revision`, `$updatedAt` when there is an
/// update time, then the document's data.
pub open spec fn object_form(t: DocumentReplaceTransition) -> Seq<(Seq<char>, ObjectValueView)> {
    seq![
        ("$id"@, ObjectValueView::Bytes(t.base.id.bytes@)),
        ("$type"@, ObjectValueView::Text(t.base.document_type@)),
        ("$action"@, ObjectValueView::Unsigned(action_code(t.base.action) as u64)),
        ("$dataContractId"@, ObjectValueView::Bytes(t.base.data_contract.id.bytes@)),
        ("$revision"@, ObjectValueView::Unsigned(t.revision)),
    ] + match t.updated_at {
        Some(u) => seq![("$updatedAt"@, ObjectValueView::Unsigned(u))],
        None => Seq::empty(),
    } + t.data@.map_values(|f: DocumentField| field_entry(f))
}

/// The byte-valued entries of an object form, in order.
pub open spec fn byte_entries(entries: Seq<(Seq<char>, ObjectValueView)>) -> Seq<(Seq<char>, Seq<u8>)>
    decreases entries.len(),
{
    if entries.len() == 0 {
        Seq::empty()
    } else {
        let rest = byte_entries(entries.drop_last());
        match entries.last().1 {
            ObjectValueView::Bytes(b) => rest.push((entries.last().0, b)),
            _ => rest,
        }
    }
}

/// Taking the byte entries of two forms one after the other is taking them of the joined form.
pub proof fn lemma_byte_entries_append(
    a: Seq<(Seq<char>, ObjectValueView)>,
    b: Seq<(Seq<char>, ObjectValueView)>,
)
    ensures
        byte_entries(a + b) == byte_entries(a) + byte_entries(b),
    decreases b.len(),
{
    if b.len() == 0 {
        assert(a + b =~= a);
        assert(byte_entries(b) =~= Seq::empty());
        assert(byte_entries(a) + byte_entries(b) =~= byte_entries(a));
    } else {
        lemma_byte_entries_append(a, b.drop_last());
        assert((a + b).drop_last() =~= a + b.drop_last());
        assert((a + b).last() == b.last());
        match b.last().1 {
            ObjectValueView::Bytes(x) => {
                assert(byte_entries(a) + byte_entries(b) =~= (byte_entries(a) + byte_entries(b.drop_last())).push(
                    (b.last().0, x),
                ));
            },
            _ => {},
        }
    }
}

/// The byte entries of the data's entries are the data's byte fields.
pub proof fn lemma_data_byte_entries(data: Seq<DocumentField>)
    ensures
        byte_entries(data.map_values(|f: DocumentField| field_entry(f))) == data_byte_fields(data),
    decreases data.len(),
{
    if data.len() > 0 {
        lemma_data_byte_entries(data.drop_last());
        assert(data.map_values(|f: DocumentField| field_entry(f)).drop_last() =~= data.drop_last().map_values(
            |f: DocumentField| field_entry(f),
        ));
    } else {
        assert(data.map_values(|f: DocumentField| field_entry(f)) =~= Seq::empty());
    }
}

/// The fields that `to_object` hands over are the byte-valued entries of the
/// object form.
pub proof fn lemma_byte_fields_are_byte_entries(t: DocumentReplaceTransition)
    ensures
        byte_entries(object_form(t)) == object_byte_fields(t),
{
    let head = seq![
        ("$id"@, ObjectValueView::Bytes(t.base.id.bytes@)),
        ("$type"@, ObjectValueView::Text(t.base.document_type@)),
        ("$action"@, ObjectValueView::Unsigned(action_code(t.base.action) as u64)),
        ("$dataContractId"@, ObjectValueView::Bytes(t.base.data_contract.id.bytes@)),
        ("$revision"@, ObjectValueView::Unsigned(t.revision)),
    ];
    let upd: Seq<(Seq<char>, ObjectValueView)> = match t.updated_at {
        Some(u) => seq![("$updatedAt"@, ObjectValueView::Unsigned(u))],
        None => Seq::empty(),
    };
    let data = t.data@.map_values(|f: DocumentField| field_entry(f));
    lemma_byte_entries_append(head + upd, data);
    lemma_byte_entries_append(head, upd);
    lemma_data_byte_entries(t.data@);
    reveal_with_fuel(byte_entries, 6);
    assert(byte_entries(head) =~= seq![("$id"@, t.base.id.bytes@), ("$dataContractId"@, t.base.data_contract.id.bytes@)]);
    match t.updated_at {
        Some(u) => {
            assert(upd.drop_last() =~= Seq::<(Seq<char>, ObjectValueView)>::empty());
            assert(byte_entries(upd) =~= Seq::<(Seq<char>, Seq<u8>)>::empty());
        },
        None => {
            assert(byte_entries(upd) =~= Seq::<(Seq<char>, Seq<u8>)>::empty());
        },
    }
    assert(head + upd + data =~= object_form(t));
    assert(byte_entries(head) + byte_entries(upd) =~= byte_entries(head));
}

impl DocumentReplaceTransition {
    /// The object form, in order; see `object_form`.
    pub fn object_entries(&self) -> (r: Vec<ObjectEntry>)
        ensures
            r@.map_values(|e: ObjectEntry| entry_view(e)) == object_form(*self),
    {
        let mut r: Vec<ObjectEntry> = Vec::new();
        r.push(ObjectEntry { key: "$id".to_string(), value: ObjectValue::Bytes(self.base.id.to_vec()) });
        r.push(ObjectEntry { key: "$type".to_string(), value: ObjectValue::Text(self.base.document_type.clone()) });
        let code = self.base.action.code();
        r.push(ObjectEntry { key: "$action".to_string(), value: ObjectValue::Unsigned(code as u64) });
        r.push(
            ObjectEntry {
                key: "$dataContractId".to_string(),
                value: ObjectValue::Bytes(self.base.data_contract.id.to_vec()),
            },
        );
        r.push(ObjectEntry { key: "$revision".to_string(), value: ObjectValue::Unsigned(self.revision) });
        match self.updated_at {
            Some(u) => {
                r.push(ObjectEntry { key: "$updatedAt".to_string(), value: ObjectValue::Unsigned(u) });
            },
            None => {},
        }
        let ghost head = r@.map_values(|e: ObjectEntry| entry_view(e));
        assert(head =~= seq![
            ("$id"@, ObjectValueView::Bytes(self.base.id.bytes@)),
            ("$type"@, ObjectValueView::Text(self.base.document_type@)),
            ("$action"@, ObjectValueView::Unsigned(action_code(self.base.action) as u64)),
            ("$dataContractId"@, ObjectValueView::Bytes(self.base.data_contract.id.bytes@)),
            ("$revision"@, ObjectValueView::Unsigned(self.revision)),
        ] + match self.updated_at {
            Some(u) => seq![("$updatedAt"@, ObjectValueView::Unsigned(u))],
            None => Seq::<(Seq<char>, ObjectValueView)>::empty(),
        });
        let n = self.data.len();
        let mut i: usize = 0;
        while i < n
            invariant
                n == self.data@.len(),
                i <= n,
                r@.map_values(|e: ObjectEntry| entry_view(e)) == head + self.data@.subrange(0, i as int).map_values(
                    |f: DocumentField| field_entry(f),
                ),
            decreases n - i,
        {
            let ghost before = r@;
            let value = match &self.data[i].value {
                FieldValue::Bytes(b) => ObjectValue::Bytes(b.clone()),
                FieldValue::Text(t) => ObjectValue::Text(t.clone()),
                FieldValue::Integer(x) => ObjectValue::Integer(*x),
                FieldValue::Boolean(x) => ObjectValue::Boolean(*x),
            };
            let e = ObjectEntry { key: self.data[i].name.clone(), value };
            assert(entry_view(e) == field_entry(self.data@[i as int]));
            r.push(e);
            assert(r@.map_values(|e: ObjectEntry| entry_view(e)) =~= before.map_values(|e: ObjectEntry| entry_view(e)).push(entry_view(e)));
            assert(self.data@.subrange(0, i + 1).map_values(|f: DocumentField| field_entry(f)) =~= self.data@.subrange(
                0,
                i as int,
            ).map_values(|f: DocumentField| field_entry(f)).push(field_entry(self.data@[i as int])));
            i = i + 1;
        }
        assert(self.data@.subrange(0, n as int) =~= self.data@);
        r
    }

    /// The byte-valued properties of the object form; see `object_byte_fields`.
    pub fn byte_fields(&self) -> (r: Vec<ObjectField>)
        ensures
            r@.map_values(|f: ObjectField| field_view(f)) == object_byte_fields(*self),
    {
        let mut r: Vec<ObjectField> = Vec::new();
        r.push(ObjectField { path: "$id".to_string(), bytes: self.base.id.to_vec() });
        r.push(
            ObjectField {
                path: "$dataContractId".to_string(),
                bytes: self.base.data_contract.id.to_vec(),
            },
        );
        let ghost head = seq![("$id"@, self.base.id.bytes@), ("$dataContractId"@, self.base.data_contract.id.bytes@)];
        assert(r@.map_values(|f: ObjectField| field_view(f)) =~= head);
        let n = self.data.len();
        let mut i: usize = 0;
        while i < n
            invariant
                n == self.data@.len(),
                i <= n,
                head == seq![("$id"@, self.base.id.bytes@), ("$dataContractId"@, self.base.data_contract.id.bytes@)],
                r@.map_values(|f: ObjectField| field_view(f)) == head + data_byte_fields(
                    self.data@.subrange(0, i as int),
                ),
            decreases n - i,
        {
            let ghost before = r@;
            assert(self.data@.subrange(0, i + 1).drop_last() =~= self.data@.subrange(0, i as int));
            match &self.data[i].value {
                FieldValue::Bytes(b) => {
                    let f = ObjectField { path: self.data[i].name.clone(), bytes: b.clone() };
                    r.push(f);
                    assert(r@.map_values(|f: ObjectField| field_view(f)) =~= before.map_values(
                        |f: ObjectField| field_view(f),
                    ).push(field_view(f)));
                },
                _ => {},
            }
            i = i + 1;
        }
        assert(self.data@.subrange(0, n as int) =~= self.data@);
        r
    }
}

/// Lists the paths to convert: `identifier_paths`, the fixed identifier
/// properties, then `binary_paths`; see `conversion_paths`.
pub fn build_conversion_paths(identifier_paths: &Vec<String>, binary_paths: &Vec<String>) -> (r: Vec<
    ConversionPath,
>)
    ensures
        r@.map_values(|p: ConversionPath| path_view(p)) == conversion_paths(
            strings_view(identifier_paths@),
            strings_view(binary_paths@),
        ),
{
    let mut ids: Vec<String> = Vec::new();
    let n = identifier_paths.len();
    let mut i: usize = 0;
    while i < n
        invariant
            n == identifier_paths@.len(),
            i <= n,
            ids@ == identifier_paths@.subrange(0, i as int),
        decreases n - i,
    {
        let s = identifier_paths[i].clone();
        ids.push(s);
        assert(ids@ =~= identifier_paths@.subrange(0, i + 1));
        i = i + 1;
    }
    assert(ids@ =~= identifier_paths@);
    ids.push("$id".to_string());
    ids.push("$dataContractId".to_string());
    assert(strings_view(ids@) =~= strings_view(identifier_paths@) + identifier_fields());
    let mut r: Vec<ConversionPath> = Vec::new();
    let m = ids.len();
    let mut j: usize = 0;
    while j < m
        invariant
            m == ids@.len(),
            j <= m,
            r@.len() == j,
            forall|x: int| 0 <= x < j ==> #[trigger] r@[x] == (ConversionPath { path: ids@[x], kind: JsFieldKind::Identifier }),
        decreases m - j,
    {
        let c = ConversionPath { path: ids[j].clone(), kind: JsFieldKind::Identifier };
        r.push(c);
        j = j + 1;
    }
    let k = binary_paths.len();
    let mut l: usize = 0;
    while l < k
        invariant
            m == ids@.len(),
            k == binary_paths@.len(),
            l <= k,
            r@.len() == m + l,
            forall|x: int| 0 <= x < m ==> #[trigger] r@[x] == (ConversionPath { path: ids@[x], kind: JsFieldKind::Identifier }),
            forall|x: int| 0 <= x < l ==> #[trigger] r@[m + x] == (ConversionPath { path: binary_paths@[x], kind: JsFieldKind::Buffer }),
        decreases k - l,
    {
        let c = ConversionPath { path: binary_paths[l].clone(), kind: JsFieldKind::Buffer };
        r.push(c);
        proof {
            assert forall|x: int| 0 <= x < l + 1 implies #[trigger] r@[m + x] == (ConversionPath { path: binary_paths@[x], kind: JsFieldKind::Buffer }) by {
                if x == l as int {
                    assert(r@[m + x] == c);
                }
            }
        }
        l = l + 1;
    }
    let ghost expected = conversion_paths(strings_view(identifier_paths@), strings_view(binary_paths@));
    let ghost left = (strings_view(identifier_paths@) + identifier_fields()).map_values(|p: Seq<char>| (p, JsFieldKind::Identifier));
    assert(left.len() == m);
    let ghost rv = r@.map_values(|p: ConversionPath| path_view(p));
    assert forall|x: int| 0 <= x < r@.len() implies #[trigger] rv[x] == expected[x] by {
        if x < m {
            assert(strings_view(ids@)[x] == ids@[x]@);
            assert(left[x] == (strings_view(ids@)[x], JsFieldKind::Identifier));
        } else {
            assert(r@[m + (x - m)] == (ConversionPath { path: binary_paths@[x - m], kind: JsFieldKind::Buffer }));
        }
    }
    assert(rv =~= expected);
    r
}

impl DocumentReplaceTransitionWasm {
    /// The transition held.
    pub fn inner(&self) -> (r: &DocumentReplaceTransition)
        ensures
            *r == self.transition(),
    {
        &self.inner
    }

    /// The number of the transition's action.
    pub fn action(&self) -> (r: u8)
        ensures
            r == action_code(self.transition().base.action),
    {
        self.inner.base.action.code()
    }

    /// Which properties of the object form are handed to JavaScript as
    /// identifiers and which as buffers: the paths are those the data
    /// contract's document type marks as identifiers, the fixed identifier
    /// properties, then those it marks as binary, each taking its field at
    /// its first occurrence; see `plan`.
    pub fn to_object(&self) -> (r: Result<Vec<JsFieldConversion>, ToObjectError>)
        ensures
            ({
                let t = self.transition();
                let types = t.base.data_contract.document_types@;
                let name = t.base.document_type@;
                match r {
                    Err(ToObjectError::Protocol(e)) => no_type_named_before(types, name, types.len() as int)
                        && e is DocumentTypeNotFound && e->DocumentTypeNotFound_0@ == name,
                    _ => exists|i: int|
                        #[trigger] is_first_type_named(types, name, i) && agrees_with_plan(
                            r,
                            plan(
                                object_byte_fields(t),
                                conversion_paths(
                                    strings_view(types[i].identifier_paths@),
                                    strings_view(types[i].binary_paths@),
                                ),
                                conversion_paths(
                                    strings_view(types[i].identifier_paths@),
                                    strings_view(types[i].binary_paths@),
                                ).len(),
                            ),
                        ),
                }
            }),
    {
        let paths = self.inner.base.data_contract.get_identifiers_and_binary_paths(
            &self.inner.base.document_type,
        );
        match paths {
            Err(e) => {
                Err(ToObjectError::Protocol(e))
            },
            Ok((identifier_paths, binary_paths)) => {
                let fields = self.inner.byte_fields();
                let conversion = build_conversion_paths(identifier_paths, binary_paths);
                let r = plan_js_conversions(&fields, &conversion);
                proof {
                    let types = self.inner.base.data_contract.document_types@;
                    let name = self.inner.base.document_type@;
                    let i = choose|i: int|
                        0 <= i < types.len() && #[trigger] types[i].name@ == name
                            && no_type_named_before(types, name, i)
                            && *identifier_paths == types[i].identifier_paths
                            && *binary_paths == types[i].binary_paths;
                    assert(is_first_type_named(types, name, i));
                    assert(conversion@.len() == conversion@.map_values(|p: ConversionPath| path_view(p)).len());
                }
                r
            },
        }
    }
}

} // verus!
