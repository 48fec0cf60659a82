//! Paying out of the vaults. The program owns two addresses, each derived
//! from a seed, and signs for them with that seed and the bump found for it.
//! The functions here work out who pays whom and how the payment is signed;
//! moving the funds is left to the caller.

use vstd::prelude::*;
use crate::admin::Pool;
use crate::constants::{ESCROW_PDA_SEED, VAULT_SEED};
use crate::errors::SpinError;
use crate::identity::Identity;
use crate::user::UserPendingClaimState;

verus! {

/// What `Pubkey::try_find_program_address` of `solana_program` gives for the
/// single seed `seed` and the program with the bytes `program_id`: the bytes
/// of the derived address and the bump that was found for it, or `None`
/// where no bump gives an address.
pub uninterp spec fn program_address(seed: Seq<u8>, program_id: Seq<u8>) -> Option<(Seq<u8>, u8)>;

/// Calls `Pubkey::try_find_program_address` of `solana_program` with the one
/// seed `seed` for the program `program_id`. The contract gives the result
/// the name `program_address`, applied to the two arguments: the function
/// hashes them, so that the same arguments give the same result.
#[verifier::external_body]
fn find_program_address(seed: &[u8], program_id: &[u8; 32]) -> (found: Option<([u8; 32], u8)>)
    ensures
        found matches Some((key, bump)) ==> program_address(seed@, program_id@) == Some(
            (key@, bump),
        ),
        found is None ==> program_address(seed@, program_id@) is None,
{
    let program = solana_program::pubkey::Pubkey::new_from_array(*program_id);
    match solana_program::pubkey::Pubkey::try_find_program_address(&[seed], &program) {
        Some((key, bump)) => Some((key.to_bytes(), bump)),
        None => None,
    }
}

/// The two addresses the program signs for.
#[derive(Clone, Copy, Debug, PartialEq, Eq, Structural)]
pub enum VaultSeed {
    /// The authority over the token vault.
    Escrow,
    /// The vault of native currency.
    SolVault,
}

impl VaultSeed {
    /// The bytes of the seed.
    pub open spec fn bytes(self) -> Seq<u8> {
        match self {
            VaultSeed::Escrow => ESCROW_PDA_SEED@,
            VaultSeed::SolVault => VAULT_SEED@,
        }
    }

    /// The bytes of the seed.
    pub fn to_bytes(&self) -> (bytes: Vec<u8>)
        ensures
            bytes@ == self.bytes(),
    {
        match self {
            VaultSeed::Escrow => copy_bytes(&ESCROW_PDA_SEED),
            VaultSeed::SolVault => copy_bytes(&VAULT_SEED),
        }
    }
}

fn copy_bytes<const N: usize>(source: &[u8; N]) -> (bytes: Vec<u8>)
    ensures
        bytes@ == source@,
{
    let mut bytes: Vec<u8> = Vec::new();
    let mut i: usize = 0;
    while i < N
        invariant
            i <= N,
            bytes@ == source@.take(i as int),
        decreases N - i,
    {
        bytes.push(source[i]);
        i += 1;
        assert(bytes@ =~= source@.take(i as int));
    }
    assert(bytes@ =~= source@);
    bytes
}

/// The address derived from `seed` for the program `program_id`, and its
/// bump; `None` where the seed gives no address.
pub fn derive_address(seed: VaultSeed, program_id: &Identity) -> (found: Option<(Identity, u8)>)
    ensures
        found matches Some((key, bump)) ==> program_address(seed.bytes(), program_id.bytes@)
            == Some((key.bytes@, bump)),
        found is None ==> program_address(seed.bytes(), program_id.bytes@) is None,
{
    let bytes = seed.to_bytes();
    match find_program_address(bytes.as_slice(), &program_id.bytes) {
        Some((key, bump)) => Some((Identity { bytes: key }, bump)),
        None => None,
    }
}

/// Who pays whom: the paying account, the receiving account, and the
/// account that has to approve.
#[derive(Clone, Copy, Debug, PartialEq, Eq)]
pub struct Transfer {
    pub from: Identity,
    pub to: Identity,
    pub authority: Identity,
}

/// A payment that the program signs for one of its own addresses.
#[derive(Clone, Copy, Debug, PartialEq, Eq)]
pub struct SignedTransfer {
    pub accounts: Transfer,
    pub amount: u64,
    /// The seed of the signing address.
    pub seed: VaultSeed,
    /// The bump of the signing address.
    pub bump: u8,
}

/// The payment of `amount` between `accounts`, signed with `seed` and the
/// bump that was derived for it; no payment where none was derived.
pub open spec fn signed_with(
    accounts: Transfer,
    amount: u64,
    seed: VaultSeed,
    derived: Option<(Seq<u8>, u8)>,
) -> Option<SignedTransfer> {
    match derived {
        Some((_, bump)) => Some(SignedTransfer { accounts, amount, seed, bump }),
        None => None,
    }
}

/// Makes the signed payment from what was derived for `seed`.
pub fn sign_transfer(
    accounts: Transfer,
    amount: u64,
    seed: VaultSeed,
    derived: Option<(Identity, u8)>,
) -> (order: Option<SignedTransfer>)
    ensures
        order == match derived {
            Some((_, bump)) => Some(SignedTransfer { accounts, amount, seed, bump }),
            None => None,
        },
{
    match derived {
        Some((_, bump)) => Some(SignedTransfer { accounts, amount, seed, bump }),
        None => None,
    }
}

/// The accounts of a claim of rewards out of the token vault.
#[derive(Clone, Copy, Debug, PartialEq, Eq)]
pub struct Claim {
    /// Who claims.
    pub owner: Identity,
    /// The address of the root record, which approves payments out of the vault.
    pub pool: Identity,
    pub source_reward_account: Identity,
    pub dest_reward_account: Identity,
    pub token_program: Identity,
    /// The rewards of the spin that the claim is for.
    pub user_pendingstate: UserPendingClaimState,
}

impl Claim {
    /// The payment a claim asks for: out of the source account, into the
    /// destination account, approved by the root record.
    pub fn into_transfer_to_pda_context(&self) -> (accounts: Transfer)
        ensures
            accounts == (Transfer {
                from: self.source_reward_account,
                to: self.dest_reward_account,
                authority: self.pool,
            }),
    {
        Transfer {
            from: self.source_reward_account,
            to: self.dest_reward_account,
            authority: self.pool,
        }
    }
}

/// The accounts of a withdrawal of tokens by the super administrator.
#[derive(Clone, Copy, Debug, PartialEq, Eq)]
pub struct Withdraw {
    /// Who withdraws.
    pub authority: Identity,
    /// The root record.
    pub pool: Pool,
    /// The address of the root record, which approves payments out of the vault.
    pub pool_address: Identity,
    pub source_account: Identity,
    pub dest_account: Identity,
    pub token_program: Identity,
}

impl Withdraw {
    /// The payment a withdrawal asks for: out of the source account, into
    /// the destination account, approved by the root record.
    pub fn into_transfer_from_pda_context(&self) -> (accounts: Transfer)
        ensures
            accounts == (Transfer {
                from: self.source_account,
                to: self.dest_account,
                authority: self.pool_address,
            }),
    {
        Transfer {
            from: self.source_account,
            to: self.dest_account,
            authority: self.pool_address,
        }
    }
}

/// The accounts of a withdrawal of native currency.
#[derive(Clone, Copy, Debug, PartialEq, Eq)]
pub struct WithdrawSol {
    /// Who withdraws.
    pub user: Identity,
    /// The vault of native currency.
    pub vault: Identity,
    pub dest_account: Identity,
}

/// Works out the payment for a claim of `amount` against the rewards of a
/// spin. Only the user those rewards belong to may claim them: for anyone
/// else `IncorrectUserState` is returned. Otherwise the payment goes from the
/// source to the destination account, approved by the root record and signed
/// for the vault authority of `program_id`; `None` where no vault authority
/// can be derived for the program. The amount is not held against the
/// rewards recorded.
pub fn claim(ctx: &Claim, program_id: &Identity, amount: u64) -> (order: Result<
    Option<SignedTransfer>,
    SpinError,
>)
    ensures
        ctx.user_pendingstate.user != ctx.owner ==> order == Err::<
            Option<SignedTransfer>,
            SpinError,
        >(SpinError::IncorrectUserState),
        ctx.user_pendingstate.user == ctx.owner ==> order == Ok::<Option<SignedTransfer>, SpinError>(
            signed_with(
                (Transfer {
                    from: ctx.source_reward_account,
                    to: ctx.dest_reward_account,
                    authority: ctx.pool,
                }),
                amount,
                VaultSeed::Escrow,
                program_address(VaultSeed::Escrow.bytes(), program_id.bytes@),
            ),
        ),
{
    if !ctx.user_pendingstate.is_owned_by(&ctx.owner) {
        return Err(SpinError::IncorrectUserState);
    }
    let derived = derive_address(VaultSeed::Escrow, program_id);
    Ok(sign_transfer(ctx.into_transfer_to_pda_context(), amount, VaultSeed::Escrow, derived))
}

/// Works out the payment for a withdrawal of `amount` tokens. Only the super
/// administrator may withdraw: for anyone else `UnauthorizedAdmin` is
/// returned. Otherwise the payment goes from the source to the destination
/// account, approved by the root record and signed for the vault authority
/// of `program_id`; `None` where no vault authority can be derived.
pub fn withdraw_paid_tokens(ctx: &Withdraw, program_id: &Identity, amount: u64) -> (order: Result<
    Option<SignedTransfer>,
    SpinError,
>)
    ensures
        ctx.pool.superadmin != ctx.authority ==> order == Err::<Option<SignedTransfer>, SpinError>(
            SpinError::UnauthorizedAdmin,
        ),
        ctx.pool.superadmin == ctx.authority ==> order == Ok::<Option<SignedTransfer>, SpinError>(
            signed_with(
                (Transfer {
                    from: ctx.source_account,
                    to: ctx.dest_account,
                    authority: ctx.pool_address,
                }),
                amount,
                VaultSeed::Escrow,
                program_address(VaultSeed::Escrow.bytes(), program_id.bytes@),
            ),
        ),
{
    if !ctx.pool.is_superadmin(&ctx.authority) {
        return Err(SpinError::UnauthorizedAdmin);
    }
    let derived = derive_address(VaultSeed::Escrow, program_id);
    Ok(sign_transfer(ctx.into_transfer_from_pda_context(), amount, VaultSeed::Escrow, derived))
}

/// Works out the payment for a withdrawal of `amount` of native currency:
/// out of the vault, into the destination account, approved by the vault
/// itself and signed for it. `None` where no vault can be derived for the
/// program.
pub fn withdraw_sol(ctx: &WithdrawSol, program_id: &Identity, amount: u64) -> (order: Option<
    SignedTransfer,
>)
    ensures
        order == signed_with(
            (Transfer { from: ctx.vault, to: ctx.dest_account, authority: ctx.vault }),
            amount,
            VaultSeed::SolVault,
            program_address(VaultSeed::SolVault.bytes(), program_id.bytes@),
        ),
{
    let derived = derive_address(VaultSeed::SolVault, program_id);
    sign_transfer(
        Transfer { from: ctx.vault, to: ctx.dest_account, authority: ctx.vault },
        amount,
        VaultSeed::SolVault,
        derived,
    )
}

} // verus!
