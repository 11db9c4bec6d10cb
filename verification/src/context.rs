//! Plain-value model of the invocation context: the accounts a call is
//! permitted to touch and the instruction payload, as the host runtime
//! supplies them to the program immediately before each call.

use vstd::prelude::*;

verus! {

/// Mathematical view of one account: its address, its owning program, its
/// balance in lamports, its raw data, and the flags the runtime sets on it.
pub ghost struct AccountView {
    pub key: Seq<u8>,
    pub owner: Seq<u8>,
    pub lamports: nat,
    pub data: Seq<u8>,
    pub is_signer: bool,
    pub is_writable: bool,
    pub executable: bool,
}

/// One account of an invocation context, held as plain values.
#[derive(Clone, Debug, PartialEq, Eq)]
pub struct Account {
    /// Address of the account.
    pub key: Vec<u8>,
    /// Address of the program that owns the account.
    pub owner: Vec<u8>,
    /// Balance of the account, in lamports.
    pub lamports: u64,
    /// Raw data held in the account.
    pub data: Vec<u8>,
    /// Whether the transaction was signed by this account's key.
    pub is_signer: bool,
    /// Whether the account may be written to.
    pub is_writable: bool,
    /// Whether the account's data contains a loaded program.
    pub executable: bool,
}

impl View for Account {
    type V = AccountView;

    open spec fn view(&self) -> AccountView {
        AccountView {
            key: self.key@,
            owner: self.owner@,
            lamports: self.lamports as nat,
            data: self.data@,
            is_signer: self.is_signer,
            is_writable: self.is_writable,
            executable: self.executable,
        }
    }
}

/// Mathematical view of a whole invocation context.
pub ghost struct ContextView {
    pub accounts: Seq<AccountView>,
    pub instruction_data: Seq<u8>,
}

/// The ephemeral, per-call structure the host runtime builds immediately
/// before a call and discards immediately after: the accounts the operation
/// is permitted to touch and the instruction payload.
#[derive(Clone, Debug, PartialEq, Eq)]
pub struct InvocationContext {
    /// Accounts supplied for this call.
    pub accounts: Vec<Account>,
    /// Instruction payload beyond what the runtime always supplies.
    pub instruction_data: Vec<u8>,
}

impl View for InvocationContext {
    type V = ContextView;

    open spec fn view(&self) -> ContextView {
        ContextView {
            accounts: self.accounts@.map_values(|a: Account| a@),
            instruction_data: self.instruction_data@,
        }
    }
}

} // verus!
