//! The actions that proposers submit and board members approve.
use vstd::prelude::*;

use multiversx_sc::types::CodeMetadata;

use crate::address::Address;

verus! {

/// Declares multiversx_sc's `CodeMetadata`, the deployment flags of a contract
/// (upgradeable, readable, payable), as an opaque type. The engine reads
/// nothing in it: a deploy or upgrade action carries it to the deployment
/// primitive unchanged.
#[verifier::external_type_specification]
#[verifier::external_body]
pub struct ExCodeMetadata(CodeMetadata);

/// A transfer to an account, optionally calling one of its endpoints.
#[derive(Debug)]
pub struct CallActionData {
    pub to: Address,
    pub egld_amount: u128,
    pub endpoint_name: Option<Vec<u8>>,
    pub arguments: Vec<Vec<u8>>,
}

/// Whether the call names a non-empty endpoint.
pub open spec fn spec_has_endpoint(data: CallActionData) -> bool {
    match data.endpoint_name {
        Some(name) => name@.len() > 0,
        None => false,
    }
}

impl CallActionData {
    /// Whether the call names a non-empty endpoint.
    pub fn has_endpoint(&self) -> (r: bool)
        ensures
            r == spec_has_endpoint(*self),
    {
        match &self.endpoint_name {
            Some(name) => name.len() > 0,
            None => false,
        }
    }
}

/// An action that the board can approve.
#[derive(Debug)]
pub enum Action {
    /// Give an identity the board-member role.
    AddBoardMember(Address),
    /// Give an identity the proposer role.
    AddProposer(Address),
    /// Take every role from an identity.
    RemoveUser(Address),
    /// Set the number of signatures that an action needs.
    ChangeQuorum(usize),
    /// Transfer value and possibly call an endpoint, synchronously.
    SendTransferExecute(CallActionData),
    /// Transfer value and call an endpoint asynchronously.
    SendAsyncCall(CallActionData),
    /// Deploy a new contract with the code of an existing one.
    SCDeployFromSource {
        amount: u128,
        source: Address,
        code_metadata: CodeMetadata,
        arguments: Vec<Vec<u8>>,
    },
    /// Upgrade a contract to the code of another one.
    SCUpgradeFromSource {
        sc_address: Address,
        amount: u128,
        source: Address,
        code_metadata: CodeMetadata,
        arguments: Vec<Vec<u8>>,
    },
}

impl Action {
    /// Whether performing the action hands it to an outside primitive (a
    /// transfer, a call or a deployment) rather than changing the engine's
    /// own roles or quorum.
    pub fn is_external(&self) -> (r: bool)
        ensures
            r == spec_is_external(*self),
    {
        match self {
            Action::AddBoardMember(_) => false,
            Action::AddProposer(_) => false,
            Action::RemoveUser(_) => false,
            Action::ChangeQuorum(_) => false,
            _ => true,
        }
    }
}

/// Whether the action is carried out by an outside primitive.
pub open spec fn spec_is_external(a: Action) -> bool {
    !(a is AddBoardMember || a is AddProposer || a is RemoveUser || a is ChangeQuorum)
}

/// An action in the store, with who proposed it and who signed it.
#[derive(Debug)]
pub struct PendingAction {
    pub proposer: Address,
    pub action: Action,
    pub signers: Vec<Address>,
}

/// The mathematical form of a stored action: its signers as a sequence.
pub struct ActionEntry {
    pub proposer: Address,
    pub action: Action,
    pub signers: Seq<Address>,
}

impl View for PendingAction {
    type V = ActionEntry;

    open spec fn view(&self) -> ActionEntry {
        ActionEntry { proposer: self.proposer, action: self.action, signers: self.signers@ }
    }
}

} // verus!
