//! The payment that a sale asks for: an instruction to the ledger's system
//! program that moves the price from the buyer to the owner.

use vstd::prelude::*;
use anchor_lang::solana_program::pubkey::Pubkey;
use anchor_lang::solana_program::system_instruction;
use crate::identity::Identity;

verus! {

/// How the payment went, as the ledger reported it.
#[derive(Clone, Copy, Debug, PartialEq, Eq, Structural)]
pub enum PaymentOutcome {
    /// The whole amount moved from the buyer to the owner.
    Completed,
    /// Nothing moved.
    Failed,
}

/// One account that an instruction touches, as mathematical values.
pub struct AccountRoleView {
    pub key: Seq<u8>,
    pub is_signer: bool,
    pub is_writable: bool,
}

/// One account that an instruction touches, and what it may do to it.
#[derive(Clone, Copy, Debug, PartialEq, Eq)]
pub struct AccountRole {
    pub key: Identity,
    /// The account's holder must have signed the transaction.
    pub is_signer: bool,
    /// The instruction may change the account.
    pub is_writable: bool,
}

impl View for AccountRole {
    type V = AccountRoleView;

    open spec fn view(&self) -> AccountRoleView {
        AccountRoleView { key: self.key@, is_signer: self.is_signer, is_writable: self.is_writable }
    }
}

/// An instruction, as mathematical values.
pub struct InstructionView {
    pub program_id: Seq<u8>,
    pub accounts: Seq<AccountRoleView>,
    pub data: Seq<u8>,
}

/// An instruction for the ledger to carry out: the program to run, the
/// accounts it works on, and the bytes it is given.
#[derive(Clone, Debug, PartialEq, Eq)]
pub struct PaymentInstruction {
    pub program_id: Identity,
    pub accounts: Vec<AccountRole>,
    pub data: Vec<u8>,
}

impl View for PaymentInstruction {
    type V = InstructionView;

    open spec fn view(&self) -> InstructionView {
        InstructionView {
            program_id: self.program_id@,
            accounts: self.accounts@.map_values(|role: AccountRole| role@),
            data: self.data@,
        }
    }
}

/// The identity of the system program: thirty-two zero bytes.
pub open spec fn system_program_id() -> Seq<u8> {
    Seq::new(32, |i: int| 0u8)
}

/// The eight bytes of `amount`, lowest first.
pub open spec fn amount_bytes(amount: u64) -> Seq<u8> {
    seq![
        (amount % 0x100) as u8,
        (amount / 0x100 % 0x100) as u8,
        (amount / 0x1_0000 % 0x100) as u8,
        (amount / 0x100_0000 % 0x100) as u8,
        (amount / 0x1_0000_0000 % 0x100) as u8,
        (amount / 0x100_0000_0000 % 0x100) as u8,
        (amount / 0x1_0000_0000_0000 % 0x100) as u8,
        (amount / 0x100_0000_0000_0000 % 0x100) as u8,
    ]
}

/// The system program's transfer of `amount` from `from` to `to`: `from` signs
/// and both accounts may change; the data is the number of the transfer
/// instruction, 2, in four bytes and then the amount in eight, lowest byte first.
pub open spec fn system_transfer(from: Seq<u8>, to: Seq<u8>, amount: u64) -> InstructionView {
    InstructionView {
        program_id: system_program_id(),
        accounts: seq![
            AccountRoleView { key: from, is_signer: true, is_writable: true },
            AccountRoleView { key: to, is_signer: false, is_writable: true },
        ],
        data: seq![2u8, 0u8, 0u8, 0u8] + amount_bytes(amount),
    }
}

/// Calls `anchor_lang::solana_program::system_instruction::transfer` and hands
/// back what it built, field by field.
///
/// Trusted, not proved: that function addresses the system program, whose
/// identity is all zero; names `from` first, as a writable signer, and `to`
/// second, as writable; and encodes the transfer as its variant number, 2, in
/// four little-endian bytes followed by the amount in eight.
#[verifier::external_body]
pub(crate) fn build_system_transfer(from: &Identity, to: &Identity, amount: u64) -> (ix:
    PaymentInstruction)
    ensures
        ix@ == system_transfer(from@, to@, amount),
{
    let built = system_instruction::transfer(
        &Pubkey::new_from_array(from.bytes),
        &Pubkey::new_from_array(to.bytes),
        amount,
    );
    PaymentInstruction {
        program_id: Identity { bytes: built.program_id.to_bytes() },
        accounts: built.accounts.iter().map(|meta| AccountRole {
            key: Identity { bytes: meta.pubkey.to_bytes() },
            is_signer: meta.is_signer,
            is_writable: meta.is_writable,
        }).collect(),
        data: built.data,
    }
}

} // verus!
