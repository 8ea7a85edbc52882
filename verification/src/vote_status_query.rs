//! The query for the status of protocol version upgrade votes: decoding
//! checks, version checks, and routing to the handler of the request's version.

use vstd::prelude::*;
use vstd::string::StringExecFns;
use crate::errors::Error;
use crate::validation::ValidationResult;
use crate::version::PlatformVersion;

verus! {

/// Version 0 of the request: which masternodes' votes to list, and whether to prove them.
#[derive(Clone, Debug, PartialEq, Eq)]
pub struct GetProtocolVersionUpgradeVoteStatusRequestV0 {
    pub start_pro_tx_hash: Vec<u8>,
    pub count: u32,
    pub prove: bool,
}

/// The versioned body of the request.
#[derive(Clone, Debug, PartialEq, Eq)]
pub enum Version {
    V0(GetProtocolVersionUpgradeVoteStatusRequestV0),
}

/// The decoded request; a request without a body decodes to `version: None`.
#[derive(Clone, Debug, PartialEq, Eq)]
pub struct GetProtocolVersionUpgradeVoteStatusRequest {
    pub version: Option<Version>,
}

/// Why a query was refused.
#[derive(Clone, Debug, PartialEq, Eq)]
pub enum QueryError {
    /// The query bytes are not a valid message.
    InvalidArgument(String),
    /// The message lacks a part the query needs.
    DecodingError(String),
    /// The feature version of the query lies outside the accepted bounds:
    /// the feature, the lowest and highest accepted versions, the protocol
    /// version, and the version received.
    UnsupportedQueryVersion(String, u16, u16, u32, u16),
}

/// The result of a query: its errors, or the encoded response.
pub type QueryValidationResult<T> = ValidationResult<T, QueryError>;

/// `prefix` followed by `detail`, as a new string.
fn prefixed_message(prefix: &str, detail: &str) -> (r: String)
    ensures
        r@ == prefix@ + detail@,
{
    let mut message = String::from_str(prefix);
    message.append(detail);
    message
}

/// The message of a refused undecodable query, for the decoder's message `detail`.
pub open spec fn invalid_message_text(detail: Seq<char>) -> Seq<char> {
    "invalid query proto message: "@ + detail
}

/// The feature version that a request's body has.
pub open spec fn request_feature_version(version: Version) -> u16 {
    match version {
        Version::V0(_) => 0,
    }
}

/// The one error of a query answer that carries no data, if it is such an answer.
pub open spec fn sole_error(r: Result<QueryValidationResult<Vec<u8>>, Error>) -> Option<QueryError> {
    match r {
        Ok(res) => if res.data is None && res.errors@.len() == 1 {
            Some(res.errors@[0])
        } else {
            None
        },
        Err(_) => None,
    }
}

/// `e` is an invalid-argument error with this text.
pub open spec fn is_invalid_argument(e: Option<QueryError>, text: Seq<char>) -> bool {
    match e {
        Some(QueryError::InvalidArgument(m)) => m@ == text,
        _ => false,
    }
}

/// `e` is a decoding error with this text.
pub open spec fn is_decoding_error(e: Option<QueryError>, text: Seq<char>) -> bool {
    match e {
        Some(QueryError::DecodingError(m)) => m@ == text,
        _ => false,
    }
}

/// `e` is an unsupported-version error with these fields.
pub open spec fn is_unsupported_version(
    e: Option<QueryError>,
    feature: Seq<char>,
    min: u16,
    max: u16,
    protocol: u32,
    received: u16,
) -> bool {
    match e {
        Some(QueryError::UnsupportedQueryVersion(f, a, b, p, v)) => f@ == feature && a == min && b
            == max && p == protocol && v == received,
        _ => false,
    }
}

/// The body of a decoded request, if it has one.
pub open spec fn request_body(
    decoded: Result<GetProtocolVersionUpgradeVoteStatusRequest, String>,
) -> Option<Version> {
    match decoded {
        Ok(req) => req.version,
        Err(_) => None,
    }
}

/// Answers a version-upgrade vote status query.
///
/// `decoded` is the query decoded from its bytes, or the decoder's message.
/// An undecodable query, one without a body, and one whose feature version the
/// platform version does not accept are answered with a query error; a
/// version-0 request otherwise goes to `query_v0`, whose answer is returned.
pub fn query_version_upgrade_vote_status<F>(
    decoded: Result<GetProtocolVersionUpgradeVoteStatusRequest, String>,
    platform_version: &PlatformVersion,
    query_v0: F,
) -> (r: Result<QueryValidationResult<Vec<u8>>, Error>)
    where
        F: FnOnce(GetProtocolVersionUpgradeVoteStatusRequestV0) -> Result<QueryValidationResult<Vec<u8>>, Error>,
    requires
        forall|req: GetProtocolVersionUpgradeVoteStatusRequestV0| call_requires(query_v0, (req,)),
    ensures
        decoded matches Err(detail) ==> is_invalid_argument(sole_error(r), invalid_message_text(detail@)),
        decoded is Ok && request_body(decoded) is None ==> is_decoding_error(
            sole_error(r),
            "could not decode identity keys query"@,
        ),
        request_body(decoded) matches Some(v) ==> (!platform_version.version_upgrade_vote_status.accepts(
            request_feature_version(v),
        ) ==> is_unsupported_version(
            sole_error(r),
            "version_upgrade_vote_status"@,
            platform_version.version_upgrade_vote_status.min_version,
            platform_version.version_upgrade_vote_status.max_version,
            platform_version.protocol_version,
            request_feature_version(v),
        )),
        request_body(decoded) matches Some(Version::V0(body)) ==> (
        platform_version.version_upgrade_vote_status.accepts(0) ==> call_ensures(query_v0, (body,), r)),
        request_body(decoded) matches Some(Version::V0(body)) ==> (
        platform_version.version_upgrade_vote_status.min_version == 0 ==> call_ensures(query_v0, (body,), r)),
{
    let request = match decoded {
        Ok(request) => request,
        Err(detail) => {
            let message = prefixed_message("invalid query proto message: ", detail.as_str());
            return Ok(QueryValidationResult::new_with_error(QueryError::InvalidArgument(message)));
        },
    };
    let version = match request.version {
        Some(version) => version,
        None => {
            return Ok(QueryValidationResult::new_with_error(
                QueryError::DecodingError("could not decode identity keys query".to_string()),
            ));
        },
    };
    let feature_version_bounds = &platform_version.version_upgrade_vote_status;
    let feature_version: u16 = match &version {
        Version::V0(_) => 0,
    };
    if !feature_version_bounds.check_version(feature_version) {
        return Ok(QueryValidationResult::new_with_error(
            QueryError::UnsupportedQueryVersion(
                "version_upgrade_vote_status".to_string(),
                feature_version_bounds.min_version,
                feature_version_bounds.max_version,
                platform_version.protocol_version,
                feature_version,
            ),
        ));
    }
    match version {
        Version::V0(body) => query_v0(body),
    }
}

} // verus!
