use vstd::prelude::*;
use crate::states::accounts::{Account, InitializeVaultAccount, VaultAccount};
use crate::states::constants::{is_valid_vault_id, valid_vault_id};
use crate::states::errors::{StakingError, VaultError};
use crate::states::events::InitializeVaultEvent;

verus! {

/// The character of a decimal digit.
pub open spec fn digit_char(d: nat) -> char {
    (d + 48) as char
}

/// The decimal digits of `n`, most significant first, without leading zeros.
pub open spec fn decimal(n: nat) -> Seq<char>
    decreases n,
{
    if n < 10 {
        seq![digit_char(n)]
    } else {
        decimal(n / 10).push(digit_char(n % 10))
    }
}

/// The message of the event that an initialized vault emits.
pub open spec fn initialized_message(vault_id: u64) -> Seq<char> {
    "The vault with vault_id of "@ + decimal(vault_id as nat) + " has been been initialized"@
}

/// Writes the message of an initialized vault with `format!`.
///
/// Trusted: `format!` writes a `u64` argument through its `Display` impl,
/// which std documents as the number in decimal, without sign or padding.
#[verifier::external_body]
fn format_initialized_message(vault_id: u64) -> (r: String)
    ensures
        r@ == initialized_message(vault_id),
{
    format!("The vault with vault_id of {} has been been initialized", vault_id)
}

/// The accounts after `initialize_vault`, or the error it answers with.
pub open spec fn initialize_vault_result(pre: InitializeVaultAccount, vault_id: u64) -> Result<
    InitializeVaultAccount,
    StakingError,
> {
    if !valid_vault_id(vault_id) {
        Err(StakingError::Vault(VaultError::VaultIdOutOfBounds))
    } else {
        Ok(
            InitializeVaultAccount {
                vault_account: Account {
                    data: VaultAccount {
                        vault_id: vault_id,
                        total_staked: 0,
                        total_rewards: 0,
                        bump: pre.vault_bump,
                        ..pre.vault_account.data
                    },
                    ..pre.vault_account
                },
                ..pre
            },
        )
    }
}

/// Initializes a vault: sets its id and bump and empties its stake and rewards.
/// The vault id must lie in `1..=128`.
pub fn initialize_vault(ctx: &mut InitializeVaultAccount, vault_id: u64, now: i64) -> (r: Result<
    InitializeVaultEvent,
    StakingError,
>)
    ensures
        match initialize_vault_result(*old(ctx), vault_id) {
            Ok(post) => {
                &&& *final(ctx) == post
                &&& r matches Ok(event)
                &&& event.vault_id == vault_id
                &&& event.message@ == initialized_message(vault_id)
                &&& event.initializing_time == now
            },
            Err(e) => *final(ctx) == *old(ctx) && (r matches Err(e2) && e2 == e),
        },
{
    if !is_valid_vault_id(vault_id) {
        return Err(StakingError::Vault(VaultError::VaultIdOutOfBounds));
    }
    ctx.vault_account.data.vault_id = vault_id;
    ctx.vault_account.data.total_staked = 0;
    ctx.vault_account.data.total_rewards = 0;
    ctx.vault_account.data.bump = ctx.vault_bump;
    let message = format_initialized_message(vault_id);
    Ok(InitializeVaultEvent { vault_id, message, initializing_time: now })
}

} // verus!
