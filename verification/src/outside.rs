//! Types of other crates that this library carries without looking inside.
//!
//! A value of one of these travels from the caller to the server or back. Nothing is stated
//! about any of them here.
use std::io::Error as IoError;
use sun_rpc_client::Error as RpcError;
use vstd::prelude::*;

verus! {

/// Failure to send a request or to receive its reply, from `sun_rpc_client`.
#[verifier::external_type_specification]
#[verifier::external_body]
pub struct ExRpcError(RpcError);

/// Failure of the standard library's input and output.
#[verifier::external_type_specification]
#[verifier::external_body]
pub struct ExIoError(IoError);

/// Set of enumeration members; `attrs` names what one of them holds.
#[verifier::external_type_specification]
#[verifier::external_body]
#[verifier::reject_recursive_types(K)]
pub struct ExEnumSet<K>(nfs4::EnumSet<K>);

/// Map keyed by enumeration members; `attrs` names what one of them holds.
#[verifier::external_type_specification]
#[verifier::external_body]
#[verifier::reject_recursive_types(K)]
#[verifier::reject_recursive_types(V)]
pub struct ExEnumMap<K, V>(nfs4::EnumMap<K, V>);

/// Status other than success that a server answers with.
#[verifier::external_type_specification]
#[verifier::external_body]
pub struct ExStatusError(nfs4::StatusError);

/// Status of a lock or link operation that failed.
#[verifier::external_type_specification]
#[verifier::external_body]
pub struct ExLockStatusError(nfs4::LockStatusError);

/// Member of an attribute set.
#[verifier::external_type_specification]
#[verifier::external_body]
pub struct ExFileAttributeId(nfs4::FileAttributeId);

/// Value of one attribute.
#[verifier::external_type_specification]
#[verifier::external_body]
pub struct ExFileAttribute(nfs4::FileAttribute);

/// Major and minor number of a device.
#[verifier::external_type_specification]
#[verifier::external_body]
pub struct ExDeviceData(nfs4::DeviceData);

/// Kind of delegation that an open claims back.
#[verifier::external_type_specification]
#[verifier::external_body]
pub struct ExOpenDelegationType(nfs4::OpenDelegationType);

/// Delegation and file that an open claims.
#[verifier::external_type_specification]
#[verifier::external_body]
pub struct ExOpenClaimDelegateCurrent(nfs4::OpenClaimDelegateCurrent);

/// Protection of client state that a server granted.
#[verifier::external_type_specification]
#[verifier::external_body]
pub struct ExStateProtect(nfs4::StateProtect);

/// Operations under machine credential protection.
#[verifier::external_type_specification]
#[verifier::external_body]
pub struct ExStateProtectOps(nfs4::StateProtectOps);

/// Parameters of secret state verifier protection.
#[verifier::external_type_specification]
#[verifier::external_body]
pub struct ExSsvStateProtectParams(nfs4::SsvStateProtectParams);

/// Name of an NFS implementation.
#[verifier::external_type_specification]
#[verifier::external_body]
pub struct ExImplId(nfs4::ImplId);

/// Credentials for callbacks from the server.
#[verifier::external_type_specification]
#[verifier::external_body]
pub struct ExCallbackSecurityParameters(nfs4::CallbackSecurityParameters);

/// Flags of an EXCHANGE_ID reply.
#[verifier::external_type_specification]
#[verifier::external_body]
pub struct ExExchangeIdFlags(nfs4::ExchangeIdFlags);

/// Flags of a CREATE_SESSION reply.
#[verifier::external_type_specification]
#[verifier::external_body]
pub struct ExCreateSessionFlags(nfs4::CreateSessionFlags);

/// Identity of a server.
#[verifier::external_type_specification]
#[verifier::external_body]
pub struct ExServerOwner(nfs4::ServerOwner);

/// Scope of the identities a server hands out.
#[verifier::external_type_specification]
#[verifier::external_body]
pub struct ExServerScope(nfs4::ServerScope);

/// Change numbers of a directory before and after an operation.
#[verifier::external_type_specification]
#[verifier::external_body]
pub struct ExChangeInfo(nfs4::ChangeInfo);

/// Result of the `Access` operation.
#[verifier::external_type_specification]
#[verifier::external_body]
pub struct ExAccessRes(nfs4::AccessRes);

/// Arguments of the `Close` operation.
#[verifier::external_type_specification]
#[verifier::external_body]
pub struct ExCloseArgs(nfs4::CloseArgs);

/// Result of the `Close` operation.
#[verifier::external_type_specification]
#[verifier::external_body]
pub struct ExCloseRes(nfs4::CloseRes);

/// Result of the `Commit` operation.
#[verifier::external_type_specification]
#[verifier::external_body]
pub struct ExCommitRes(nfs4::CommitRes);

/// Result of the `Create` operation.
#[verifier::external_type_specification]
#[verifier::external_body]
pub struct ExCreateRes(nfs4::CreateRes);

/// Arguments of the `DelegPurge` operation.
#[verifier::external_type_specification]
#[verifier::external_body]
pub struct ExDelegPurgeArgs(nfs4::DelegPurgeArgs);

/// Arguments of the `DelegReturn` operation.
#[verifier::external_type_specification]
#[verifier::external_body]
pub struct ExDelegReturnArgs(nfs4::DelegReturnArgs);

/// Arguments of the `Link` operation.
#[verifier::external_type_specification]
#[verifier::external_body]
pub struct ExLinkArgs(nfs4::LinkArgs);

/// Result of the `Link` operation.
#[verifier::external_type_specification]
#[verifier::external_body]
pub struct ExLinkRes(nfs4::LinkRes);

/// Arguments of the `Lock` operation.
#[verifier::external_type_specification]
#[verifier::external_body]
pub struct ExLockArgs(nfs4::LockArgs);

/// Result of the `Lock` operation.
#[verifier::external_type_specification]
#[verifier::external_body]
pub struct ExLockRes(nfs4::LockRes);

/// Arguments of the `LockT` operation.
#[verifier::external_type_specification]
#[verifier::external_body]
pub struct ExLockTArgs(nfs4::LockTArgs);

/// Arguments of the `LockU` operation.
#[verifier::external_type_specification]
#[verifier::external_body]
pub struct ExLockUArgs(nfs4::LockUArgs);

/// Result of the `LockU` operation.
#[verifier::external_type_specification]
#[verifier::external_body]
pub struct ExLockURes(nfs4::LockURes);

/// Arguments of the `NVerify` operation.
#[verifier::external_type_specification]
#[verifier::external_body]
pub struct ExNVerifyArgs(nfs4::NVerifyArgs);

/// Result of the `Open` operation.
#[verifier::external_type_specification]
#[verifier::external_body]
pub struct ExOpenRes(nfs4::OpenRes);

/// Arguments of the `OpenAttr` operation.
#[verifier::external_type_specification]
#[verifier::external_body]
pub struct ExOpenAttrArgs(nfs4::OpenAttrArgs);

/// Arguments of the `OpenDowngrade` operation.
#[verifier::external_type_specification]
#[verifier::external_body]
pub struct ExOpenDowngradeArgs(nfs4::OpenDowngradeArgs);

/// Result of the `OpenDowngrade` operation.
#[verifier::external_type_specification]
#[verifier::external_body]
pub struct ExOpenDowngradeRes(nfs4::OpenDowngradeRes);

/// Result of the `ReadLink` operation.
#[verifier::external_type_specification]
#[verifier::external_body]
pub struct ExReadLinkRes(nfs4::ReadLinkRes);

/// Result of the `Rename` operation.
#[verifier::external_type_specification]
#[verifier::external_body]
pub struct ExRenameRes(nfs4::RenameRes);

/// Arguments of the `SecInfo` operation.
#[verifier::external_type_specification]
#[verifier::external_body]
pub struct ExSecInfoArgs(nfs4::SecInfoArgs);

/// Result of the `SecInfo` operation.
#[verifier::external_type_specification]
#[verifier::external_body]
pub struct ExSecInfoRes(nfs4::SecInfoRes);

/// Result of the `SetAttr` operation.
#[verifier::external_type_specification]
#[verifier::external_body]
pub struct ExSetAttrRes(nfs4::SetAttrRes);

/// Arguments of the `BackchannelCtl` operation.
#[verifier::external_type_specification]
#[verifier::external_body]
pub struct ExBackchannelCtlArgs(nfs4::BackchannelCtlArgs);

/// Arguments of the `BindConnToSession` operation.
#[verifier::external_type_specification]
#[verifier::external_body]
pub struct ExBindConnToSessionArgs(nfs4::BindConnToSessionArgs);

/// Result of the `BindConnToSession` operation.
#[verifier::external_type_specification]
#[verifier::external_body]
pub struct ExBindConnToSessionRes(nfs4::BindConnToSessionRes);

/// Arguments of the `DestroySession` operation.
#[verifier::external_type_specification]
#[verifier::external_body]
pub struct ExDestroySessionArgs(nfs4::DestroySessionArgs);

/// Arguments of the `FreeStateid` operation.
#[verifier::external_type_specification]
#[verifier::external_body]
pub struct ExFreeStateidArgs(nfs4::FreeStateidArgs);

/// Arguments of the `GetDirDelegation` operation.
#[verifier::external_type_specification]
#[verifier::external_body]
pub struct ExGetDirDelegationArgs(nfs4::GetDirDelegationArgs);

/// Result of the `GetDirDelegation` operation.
#[verifier::external_type_specification]
#[verifier::external_body]
pub struct ExGetDirDelegationRes(nfs4::GetDirDelegationRes);

/// Arguments of the `GetDeviceInfo` operation.
#[verifier::external_type_specification]
#[verifier::external_body]
pub struct ExGetDeviceInfoArgs(nfs4::GetDeviceInfoArgs);

/// Result of the `GetDeviceInfo` operation.
#[verifier::external_type_specification]
#[verifier::external_body]
pub struct ExGetDeviceInfoRes(nfs4::GetDeviceInfoRes);

/// Arguments of the `GetDeviceList` operation.
#[verifier::external_type_specification]
#[verifier::external_body]
pub struct ExGetDeviceListArgs(nfs4::GetDeviceListArgs);

/// Result of the `GetDeviceList` operation.
#[verifier::external_type_specification]
#[verifier::external_body]
pub struct ExGetDeviceListRes(nfs4::GetDeviceListRes);

/// Arguments of the `LayoutCommit` operation.
#[verifier::external_type_specification]
#[verifier::external_body]
pub struct ExLayoutCommitArgs(nfs4::LayoutCommitArgs);

/// Result of the `LayoutCommit` operation.
#[verifier::external_type_specification]
#[verifier::external_body]
pub struct ExLayoutCommitRes(nfs4::LayoutCommitRes);

/// Arguments of the `LayoutGet` operation.
#[verifier::external_type_specification]
#[verifier::external_body]
pub struct ExLayoutGetArgs(nfs4::LayoutGetArgs);

/// Result of the `LayoutGet` operation.
#[verifier::external_type_specification]
#[verifier::external_body]
pub struct ExLayoutGetRes(nfs4::LayoutGetRes);

/// Arguments of the `LayoutReturn` operation.
#[verifier::external_type_specification]
#[verifier::external_body]
pub struct ExLayoutReturnArgs(nfs4::LayoutReturnArgs);

/// Result of the `LayoutReturn` operation.
#[verifier::external_type_specification]
#[verifier::external_body]
pub struct ExLayoutReturnRes(nfs4::LayoutReturnRes);

/// Arguments of the `SecInfoNoName` operation.
#[verifier::external_type_specification]
#[verifier::external_body]
pub struct ExSecInfoNoNameArgs(nfs4::SecInfoNoNameArgs);

/// Result of the `Sequence` operation.
#[verifier::external_type_specification]
#[verifier::external_body]
pub struct ExSequenceRes(nfs4::SequenceRes);

/// Arguments of the `SetSsv` operation.
#[verifier::external_type_specification]
#[verifier::external_body]
pub struct ExSetSsvArgs(nfs4::SetSsvArgs);

/// Result of the `SetSsv` operation.
#[verifier::external_type_specification]
#[verifier::external_body]
pub struct ExSetSsvRes(nfs4::SetSsvRes);

/// Arguments of the `TestStateId` operation.
#[verifier::external_type_specification]
#[verifier::external_body]
pub struct ExTestStateIdArgs(nfs4::TestStateIdArgs);

/// Result of the `TestStateId` operation.
#[verifier::external_type_specification]
#[verifier::external_body]
pub struct ExTestStateIdRes(nfs4::TestStateIdRes);

/// Arguments of the `WantDelegation` operation.
#[verifier::external_type_specification]
#[verifier::external_body]
pub struct ExWantDelegationArgs(nfs4::WantDelegationArgs);

/// Result of the `WantDelegation` operation.
#[verifier::external_type_specification]
#[verifier::external_body]
pub struct ExWantDelegationRes(nfs4::WantDelegationRes);

/// Arguments of the `DestroyClientId` operation.
#[verifier::external_type_specification]
#[verifier::external_body]
pub struct ExDestroyClientIdArgs(nfs4::DestroyClientIdArgs);

} // verus!
