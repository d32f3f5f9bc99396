//! The call trace: what a host records of the operations that reach it.

use vstd::prelude::*;
use crate::types::Key;

verus! {

/// An operation of the boundary, as the call trace records it. The four
/// operations on the named-key table are recorded with their arguments.
#[derive(Debug, Clone, PartialEq, Eq)]
pub enum HostFunction {
    CasperReadValue,
    CasperWrite,
    CasperAdd,
    CasperNewUref,
    CasperLoadAuthorizationKeys,
    CasperLoadNamedKeys,
    CasperRet,
    CasperGetKey(String),
    CasperHasKey(String),
    CasperPutKey(String, Key),
    CasperRemoveKey(String),
    CasperRevert,
    CasperIsValidUref,
    CasperAddAssociatedKey,
    CasperRemoveAssociatedKey,
    CasperUpdateAssociatedKey,
    CasperSetActionThreshold,
    CasperGetCaller,
    CasperGetBlocktime,
    CasperCreatePurse,
    CasperTransferToAccount,
    CasperTransferFromPurseToAccount,
    CasperTransferFromPurseToPurse,
    CasperGetBalance,
    CasperGetPhase,
    CasperGetSystemContract,
    CasperGetMainPurse,
    CasperReadHostBuffer,
    CasperCreateContractPackageAtHash,
    CasperCreateContractUserGroup,
    CasperAddContractVersion,
    CasperAddContractVersionWithMessageTopics,
    CasperAddPackageVersionWithMessageTopics,
    CasperDisableContractVersion,
    CasperCallContract,
    CasperCallVersionedContract,
    CasperGetNamedArgSize,
    CasperGetNamedArg,
    CasperRemoveContractUserGroup,
    CasperProvisionContractUserGroupUref,
    CasperRemoveContractUserGroupUrefs,
    CasperBlake2b,
    CasperLoadCallStack,
    CasperPrint,
    CasperNewDictionary,
    CasperDictionaryGet,
    CasperDictionaryRead,
    CasperDictionaryPut,
    CasperRandomBytes,
    CasperEnableContractVersion,
    CasperManageMessageTopic,
    CasperEmitMessage,
    CasperLoadCallerInformation,
    CasperGetBlockInfo,
    CasperGenericHash,
    CasperRecoverSecp256k1,
    CasperVerifySignature,
    CasperCallPackageVersion,
}

/// What a trace entry is, seen from a contract.
pub enum HostFunctionView {
    GetKey(Seq<char>),
    HasKey(Seq<char>),
    PutKey(Seq<char>, Key),
    RemoveKey(Seq<char>),
    Plain(HostFunction),
}

impl View for HostFunction {
    type V = HostFunctionView;

    open spec fn view(&self) -> HostFunctionView {
        match self {
            HostFunction::CasperGetKey(name) => HostFunctionView::GetKey(name@),
            HostFunction::CasperHasKey(name) => HostFunctionView::HasKey(name@),
            HostFunction::CasperPutKey(name, key) => HostFunctionView::PutKey(name@, *key),
            HostFunction::CasperRemoveKey(name) => HostFunctionView::RemoveKey(name@),
            _ => HostFunctionView::Plain(*self),
        }
    }
}

} // verus!
