//! Turning a data contract create transition into its action.

use vstd::prelude::*;
use crate::errors::ProtocolError;
use crate::data_contract::{DataContract, DataContractInSerializationFormat};
use crate::version::PlatformVersion;

verus! {

/// Version 0 of the transition that registers a new data contract.
#[derive(Debug, PartialEq, Eq)]
pub struct DataContractCreateTransitionV0 {
    pub data_contract: DataContractInSerializationFormat,
    pub identity_nonce: u64,
    pub user_fee_increase: u16,
    pub signature_public_key_id: u32,
    pub signature: Vec<u8>,
}

/// Version 0 of the action that registers a new data contract.
#[derive(Clone, Debug, PartialEq, Eq)]
pub struct DataContractCreateTransitionActionV0 {
    pub data_contract: DataContract,
}

/// The action built from the outcome of converting the serialized contract:
/// the converted contract, or the conversion's error.
pub open spec fn action_from_conversion(
    converted: Result<DataContract, ProtocolError>,
) -> Result<DataContractCreateTransitionActionV0, ProtocolError> {
    match converted {
        Ok(data_contract) => Ok(DataContractCreateTransitionActionV0 { data_contract }),
        Err(e) => Err(e),
    }
}

/// A converted contract becomes the action's contract, unchanged; a failed
/// conversion's error is the action's error, unchanged.
pub proof fn lemma_action_from_conversion(converted: Result<DataContract, ProtocolError>)
    ensures
        converted matches Ok(c) ==> action_from_conversion(converted) == Ok::<
            DataContractCreateTransitionActionV0,
            ProtocolError,
        >(DataContractCreateTransitionActionV0 { data_contract: c }),
        converted matches Err(e) ==> action_from_conversion(converted) == Err::<
            DataContractCreateTransitionActionV0,
            ProtocolError,
        >(e),
{
}

impl DataContractCreateTransitionActionV0 {
    /// Builds the action from the transition: `convert` turns the serialized
    /// contract into a data contract for the platform version, with full
    /// validation of its schemas; its error is the action's error.
    pub fn try_from_platform_versioned<F>(
        value: DataContractCreateTransitionV0,
        platform_version: &PlatformVersion,
        convert: F,
    ) -> (r: Result<Self, ProtocolError>)
        where
            F: FnOnce(DataContractInSerializationFormat, bool, &PlatformVersion) -> Result<DataContract, ProtocolError>,
        requires
            forall|f: DataContractInSerializationFormat|
                call_requires(convert, (f, true, platform_version)),
        ensures
            exists|converted: Result<DataContract, ProtocolError>|
                call_ensures(convert, (value.data_contract, true, platform_version), converted)
                    && r == action_from_conversion(converted),
            exists|converted: Result<DataContract, ProtocolError>|
                #[trigger] call_ensures(convert, (value.data_contract, true, platform_version), converted)
                    && match converted {
                    Ok(c) => r == Ok::<Self, ProtocolError>(DataContractCreateTransitionActionV0 { data_contract: c }),
                    Err(e) => r == Err::<Self, ProtocolError>(e),
                },
    {
        let ghost format = value.data_contract;
        let converted = convert(value.data_contract, true, platform_version);
        assert(call_ensures(convert, (format, true, platform_version), converted));
        let ghost converted_ghost = converted;
        let r = match converted {
            Ok(data_contract) => Ok(DataContractCreateTransitionActionV0 { data_contract }),
            Err(e) => Err(e),
        };
        assert(r == action_from_conversion(converted_ghost));
        r
    }

    /// As `try_from_platform_versioned`, from a borrowed transition: the
    /// conversion gets a copy of the serialized contract.
    pub fn try_from_platform_versioned_borrowed<F>(
        value: &DataContractCreateTransitionV0,
        platform_version: &PlatformVersion,
        convert: F,
    ) -> (r: Result<Self, ProtocolError>)
        where
            F: FnOnce(DataContractInSerializationFormat, bool, &PlatformVersion) -> Result<DataContract, ProtocolError>,
        requires
            forall|f: DataContractInSerializationFormat|
                call_requires(convert, (f, true, platform_version)),
        ensures
            exists|copy: DataContractInSerializationFormat, converted: Result<DataContract, ProtocolError>|
                copy.same_as(value.data_contract)
                    && call_ensures(convert, (copy, true, platform_version), converted)
                    && r == action_from_conversion(converted),
            exists|copy: DataContractInSerializationFormat, converted: Result<DataContract, ProtocolError>|
                copy.same_as(value.data_contract)
                    && #[trigger] call_ensures(convert, (copy, true, platform_version), converted)
                    && match converted {
                    Ok(c) => r == Ok::<Self, ProtocolError>(DataContractCreateTransitionActionV0 { data_contract: c }),
                    Err(e) => r == Err::<Self, ProtocolError>(e),
                },
    {
        let converted = convert(value.data_contract.clone(), true, platform_version);
        match converted {
            Ok(data_contract) => Ok(DataContractCreateTransitionActionV0 { data_contract }),
            Err(e) => Err(e),
        }
    }
}

/// The conversion gives one outcome for each content of the serialized
/// contract: two contracts with the same content convert alike.
pub open spec fn converts_by_content<F>(convert: F, platform_version: &PlatformVersion) -> bool where
    F: FnOnce(DataContractInSerializationFormat, bool, &PlatformVersion) -> Result<DataContract, ProtocolError>,
 {
    forall|f1: DataContractInSerializationFormat, f2: DataContractInSerializationFormat, c1: Result<DataContract, ProtocolError>, c2: Result<DataContract, ProtocolError>|
        #![trigger call_ensures(convert, (f1, true, platform_version), c1), call_ensures(convert, (f2, true, platform_version), c2)]
        f1.same_as(f2) && call_ensures(convert, (f1, true, platform_version), c1) && call_ensures(
            convert,
            (f2, true, platform_version),
            c2,
        ) ==> c1 == c2
}

/// Building the action from a borrowed transition gives what building it
/// from the transition itself gives, when the conversion depends on the
/// serialized contract's content alone: `owned` and `borrowed` are outcomes
/// that the two forms' contracts allow.
pub proof fn lemma_borrowed_agrees_with_owned<F>(
    convert: F,
    value: DataContractCreateTransitionV0,
    platform_version: &PlatformVersion,
    owned: Result<DataContractCreateTransitionActionV0, ProtocolError>,
    borrowed: Result<DataContractCreateTransitionActionV0, ProtocolError>,
) where
    F: FnOnce(DataContractInSerializationFormat, bool, &PlatformVersion) -> Result<DataContract, ProtocolError>,

    requires
        converts_by_content(convert, platform_version),
        exists|converted: Result<DataContract, ProtocolError>|
            call_ensures(convert, (value.data_contract, true, platform_version), converted) && owned
                == action_from_conversion(converted),
        exists|copy: DataContractInSerializationFormat, converted: Result<DataContract, ProtocolError>|
            copy.same_as(value.data_contract) && call_ensures(convert, (copy, true, platform_version), converted)
                && borrowed == action_from_conversion(converted),
    ensures
        owned == borrowed,
{
    let c1 = choose|converted: Result<DataContract, ProtocolError>|
        call_ensures(convert, (value.data_contract, true, platform_version), converted) && owned
            == action_from_conversion(converted);
    let (copy, c2) = choose|copy: DataContractInSerializationFormat, converted: Result<DataContract, ProtocolError>|
        copy.same_as(value.data_contract) && call_ensures(convert, (copy, true, platform_version), converted)
            && borrowed == action_from_conversion(converted);
    assert(value.data_contract.same_as(copy));
    assert(c1 == c2);
}

} // verus!
