use platform_validation::errors::Error;
use platform_validation::validation::ValidationResult;
use platform_validation::version::{FeatureVersionBounds, PlatformVersion};
use platform_validation::vote_status_query::{
    query_version_upgrade_vote_status, GetProtocolVersionUpgradeVoteStatusRequest,
    GetProtocolVersionUpgradeVoteStatusRequestV0, QueryError, QueryValidationResult, Version,
};

fn platform(min: u16, max: u16) -> PlatformVersion {
    PlatformVersion {
        protocol_version: 7,
        version_upgrade_vote_status: FeatureVersionBounds { min_version: min, max_version: max, default_current_version: min },
        identity_credit_transfer_balance: Some(0),
    }
}

fn body() -> GetProtocolVersionUpgradeVoteStatusRequestV0 {
    GetProtocolVersionUpgradeVoteStatusRequestV0 { start_pro_tx_hash: vec![1, 2, 3], count: 10, prove: false }
}

fn never(_: GetProtocolVersionUpgradeVoteStatusRequestV0) -> Result<QueryValidationResult<Vec<u8>>, Error> {
    panic!("the version 0 handler must not run")
}

#[test]
fn undecodable_query_is_invalid_argument() {
    let r = query_version_upgrade_vote_status(Err("buffer underflow".to_string()), &platform(0, 0), never);
    assert_eq!(
        r,
        Ok(ValidationResult::new_with_error(QueryError::InvalidArgument(
            "invalid query proto message: buffer underflow".to_string()
        )))
    );
}

#[test]
fn query_without_body_is_decoding_error() {
    let r = query_version_upgrade_vote_status(
        Ok(GetProtocolVersionUpgradeVoteStatusRequest { version: None }),
        &platform(0, 0),
        never,
    );
    assert_eq!(
        r,
        Ok(ValidationResult::new_with_error(QueryError::DecodingError(
            "could not decode identity keys query".to_string()
        )))
    );
}

#[test]
fn unsupported_version_is_refused() {
    let r = query_version_upgrade_vote_status(
        Ok(GetProtocolVersionUpgradeVoteStatusRequest { version: Some(Version::V0(body())) }),
        &platform(1, 2),
        never,
    );
    assert_eq!(
        r,
        Ok(ValidationResult::new_with_error(QueryError::UnsupportedQueryVersion(
            "version_upgrade_vote_status".to_string(),
            1,
            2,
            7,
            0
        )))
    );
}

#[test]
fn accepted_version_goes_to_v0_handler() {
    let r = query_version_upgrade_vote_status(
        Ok(GetProtocolVersionUpgradeVoteStatusRequest { version: Some(Version::V0(body())) }),
        &platform(0, 3),
        |req| {
            assert_eq!(req, body());
            Ok(ValidationResult::new_with_data(vec![42]))
        },
    );
    assert_eq!(r, Ok(ValidationResult::new_with_data(vec![42])));
}
