//! The plain account value the library computes over.
//!
//! The host ledger tracks accounts as addressable, resizable byte buffers
//! with a balance, an owner and per-invocation capability flags. An
//! embedding copies those fields into an [`Account`] before calling an
//! instruction handler and writes the handler's result back.

use vstd::prelude::*;

use crate::support::MAX_ACCOUNT_DATA_LEN;

verus! {

/// Snapshot of one ledger account, as handed to an instruction.
#[derive(Debug)]
pub struct Account {
    /// The account's address (32 bytes).
    pub key: Vec<u8>,
    /// The account's balance, in lamports.
    pub lamports: u64,
    /// The account's data.
    pub data: Vec<u8>,
    /// The program that owns the account (32 bytes).
    pub owner: Vec<u8>,
    /// Whether the holder of this account's key signed the transaction.
    pub is_signer: bool,
    /// Whether the account is an executable program.
    pub executable: bool,
}

/// Mathematical view of an [`Account`].
pub struct AccountView {
    pub key: Seq<u8>,
    pub lamports: u64,
    pub data: Seq<u8>,
    pub owner: Seq<u8>,
    pub is_signer: bool,
    pub executable: bool,
}

impl View for Account {
    type V = AccountView;

    open spec fn view(&self) -> AccountView {
        AccountView {
            key: self.key@,
            lamports: self.lamports,
            data: self.data@,
            owner: self.owner@,
            is_signer: self.is_signer,
            executable: self.executable,
        }
    }
}

impl AccountView {
    /// Shape every account supplied by the host has: 32-byte addresses and
    /// data within the host's size cap.
    pub open spec fn wf(self) -> bool {
        &&& self.key.len() == 32
        &&& self.owner.len() == 32
        &&& self.data.len() <= MAX_ACCOUNT_DATA_LEN
    }

    /// The same account with different data.
    pub open spec fn with_data(self, data: Seq<u8>) -> AccountView {
        AccountView { data, ..self }
    }

    /// The same account with a different balance.
    pub open spec fn with_lamports(self, lamports: u64) -> AccountView {
        AccountView { lamports, ..self }
    }

    /// The same account with a different owner.
    pub open spec fn with_owner(self, owner: Seq<u8>) -> AccountView {
        AccountView { owner, ..self }
    }
}

impl Account {
    /// Shape every account supplied by the host has.
    pub open spec fn wf(&self) -> bool {
        self@.wf()
    }
}

} // verus!
