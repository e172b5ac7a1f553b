use crate::address::Address;
use crate::deriver::{
    config_label, config_label_spec, derivation_view, derive_address, program_address,
    vault_label, vault_label_spec,
};
use crate::error::GalnoError;
use crate::host::{is_transfer, system_transfer, HostInstruction};
use crate::ledger::{
    allocated, kind_of, transfer_refusal, transferred, AccountData, Config, Entry, Kind, Ledger,
    Vault,
};
use vstd::prelude::*;

verus! {

/// The accounts that an initialization names.
#[derive(Clone, Copy, Debug, PartialEq, Eq)]
pub struct Initialize {
    /// Where the caller says the config record belongs.
    pub config: Address,
    /// The caller, who becomes the authority.
    pub authority: Address,
}

/// The accounts that a deposit names.
#[derive(Clone, Copy, Debug, PartialEq, Eq)]
pub struct Deposit {
    /// The caller, whose balance pays.
    pub user: Address,
    /// Where the caller says the vault is.
    pub vault: Address,
}

/// The accounts that a withdrawal names, with the bump that the caller
/// presents for the vault.
#[derive(Clone, Copy, Debug, PartialEq, Eq)]
pub struct Withdraw {
    /// The caller.
    pub authority: Address,
    /// Where the caller says the config record is.
    pub config: Address,
    /// Where the caller says the vault is.
    pub vault: Address,
    /// Who receives the funds.
    pub recipient: Address,
    /// The bump presented for the vault's address.
    pub vault_bump: u8,
}

/// The audit record of a deposit. It is advisory: the ledger is the state.
#[derive(Clone, Copy, Debug, PartialEq, Eq)]
pub struct DepositRecord {
    pub actor: Address,
    pub amount: u64,
}

impl DepositRecord {
    /// The name of the event that the record reports.
    pub fn event(&self) -> (name: &'static str)
        ensures
            name@ == "deposit"@,
    {
        "deposit"
    }
}

/// The right to move funds out of a derived address. One exists only where
/// the address and bump presented are what the label derives to.
#[derive(Debug)]
pub struct DerivationProof {
    address: Address,
    bump: u8,
}

/// The derivation yields exactly the address `a`.
pub open spec fn confirms(d: Option<(Seq<u8>, u8)>, a: Seq<u8>) -> bool {
    match d {
        Some((address, _)) => address == a,
        None => false,
    }
}

/// The derivation yields exactly the address `a` and the bump `bump`.
pub open spec fn confirms_bump(d: Option<(Seq<u8>, u8)>, a: Seq<u8>, bump: u8) -> bool {
    match d {
        Some((address, b)) => address == a && b == bump,
        None => false,
    }
}

impl DerivationProof {
    /// The address that this proof lets funds leave.
    pub closed spec fn source(&self) -> Seq<u8> {
        self.address@
    }

    /// The bump that was validated.
    pub closed spec fn bump_spec(&self) -> u8 {
        self.bump
    }

    /// Holds the presented address and bump against a fresh derivation.
    pub fn validate(derived: &Option<(Address, u8)>, address: &Address, bump: u8) -> (r: Result<
        DerivationProof,
        GalnoError,
    >)
        ensures
            confirms_bump(derivation_view(*derived), address@, bump) ==> r is Ok && r->Ok_0.source()
                == address@ && r->Ok_0.bump_spec() == bump,
            !confirms_bump(derivation_view(*derived), address@, bump) ==> r is Err && r->Err_0
                == GalnoError::InvalidDerivation,
    {
        match derived {
            Some((a, b)) => {
                if a.same(address) && *b == bump {
                    Ok(DerivationProof { address: *address, bump })
                } else {
                    Err(GalnoError::InvalidDerivation)
                }
            },
            None => Err(GalnoError::InvalidDerivation),
        }
    }

    pub fn address(&self) -> (a: Address)
        ensures
            a@ == self.source(),
    {
        self.address
    }

    pub fn bump(&self) -> (b: u8)
        ensures
            b == self.bump_spec(),
    {
        self.bump
    }
}

/// Holds a presented address against a fresh derivation.
pub fn check_address(derived: &Option<(Address, u8)>, address: &Address) -> (r: Result<
    (),
    GalnoError,
>)
    ensures
        r == if confirms(derivation_view(*derived), address@) {
            Ok::<(), GalnoError>(())
        } else {
            Err::<(), GalnoError>(GalnoError::InvalidDerivation)
        },
{
    match derived {
        Some((a, _)) => {
            if a.same(address) {
                Ok(())
            } else {
                Err(GalnoError::InvalidDerivation)
            }
        },
        None => Err(GalnoError::InvalidDerivation),
    }
}

/// The access-control gate: only the authority that the stored record names
/// passes.
pub fn authorize(stored: &AccountData, caller: &Address) -> (r: Result<(), GalnoError>)
    ensures
        r == if stored@ == (Kind::Config { authority: caller@ }) {
            Ok::<(), GalnoError>(())
        } else {
            Err::<(), GalnoError>(GalnoError::Unauthorized)
        },
{
    match stored {
        AccountData::Config(config) => {
            if config.authority.same(caller) {
                Ok(())
            } else {
                Err(GalnoError::Unauthorized)
            }
        },
        _ => Err(GalnoError::Unauthorized),
    }
}

/// Moves `amount` out of the address that `proof` vouches for.
pub fn transfer_signed(
    ledger: &mut Ledger,
    proof_of_source: &DerivationProof,
    to: &Address,
    amount: u64,
) -> (r: Result<(), GalnoError>)
    ensures
        match transfer_refusal(old(ledger)@, proof_of_source.source(), to@, amount as nat) {
            Some(e) => r == Err::<(), GalnoError>(e) && final(ledger)@ == old(ledger)@,
            None => r == Ok::<(), GalnoError>(()) && final(ledger)@ == transferred(
                old(ledger)@,
                proof_of_source.source(),
                to@,
                amount as nat,
            ),
        },
{
    let from = proof_of_source.address();
    ledger.transfer(&from, to, amount)
}

/// What the host is asked to do: the instruction, and the seeds by which a
/// derived address signs it (none where the payer signs for itself).
#[derive(Clone, Debug, PartialEq, Eq)]
pub struct HostCall {
    pub instruction: HostInstruction,
    pub signer_seeds: Vec<Vec<u8>>,
}

/// Why a deposit is refused before any balance is looked at, if it is. The
/// derivation is held against the presented vault first, whatever the amount.
pub open spec fn deposit_fault(ctx: Deposit, amount: u64, vault: Option<(Seq<u8>, u8)>) -> Option<
    GalnoError,
> {
    if !confirms(vault, ctx.vault@) {
        Some(GalnoError::InvalidDerivation)
    } else if amount == 0 {
        Some(GalnoError::InvalidAmount)
    } else {
        None
    }
}

/// Why a withdrawal is refused before any balance is looked at, if it is.
/// `stored` is what the account at the presented config address holds.
pub open spec fn withdraw_fault(
    ctx: Withdraw,
    stored: Kind,
    config: Option<(Seq<u8>, u8)>,
    vault: Option<(Seq<u8>, u8)>,
) -> Option<GalnoError> {
    if !confirms(config, ctx.config@) || !confirms_bump(vault, ctx.vault@, ctx.vault_bump) {
        Some(GalnoError::InvalidDerivation)
    } else if stored != (Kind::Config { authority: ctx.authority@ }) {
        Some(GalnoError::Unauthorized)
    } else {
        None
    }
}

/// The checks of a deposit that need no balance: the derivation, then the
/// amount.
pub fn check_deposit(ctx: &Deposit, amount: u64, vault: &Option<(Address, u8)>) -> (r: Result<
    (),
    GalnoError,
>)
    ensures
        r == match deposit_fault(*ctx, amount, derivation_view(*vault)) {
            Some(e) => Err::<(), GalnoError>(e),
            None => Ok::<(), GalnoError>(()),
        },
{
    match check_address(vault, &ctx.vault) {
        Err(e) => {
            return Err(e);
        },
        Ok(_) => {},
    }
    if amount == 0 {
        return Err(GalnoError::InvalidAmount);
    }
    Ok(())
}

/// The checks of a withdrawal that need no balance: both derivations, then
/// the access-control gate. Success yields the right to spend from the vault.
pub fn check_withdraw(
    ctx: &Withdraw,
    stored: &AccountData,
    config: &Option<(Address, u8)>,
    vault: &Option<(Address, u8)>,
) -> (r: Result<DerivationProof, GalnoError>)
    ensures
        match withdraw_fault(*ctx, stored@, derivation_view(*config), derivation_view(*vault)) {
            Some(e) => r is Err && r->Err_0 == e,
            None => r is Ok && r->Ok_0.source() == ctx.vault@ && r->Ok_0.bump_spec()
                == ctx.vault_bump,
        },
{
    match check_address(config, &ctx.config) {
        Err(e) => {
            return Err(e);
        },
        Ok(_) => {},
    }
    let signer = match DerivationProof::validate(vault, &ctx.vault, ctx.vault_bump) {
        Err(e) => {
            return Err(e);
        },
        Ok(signer) => signer,
    };
    match authorize(stored, &ctx.authority) {
        Err(e) => Err(e),
        Ok(_) => Ok(signer),
    }
}

/// The call that carries out a deposit on the host: a transfer from the
/// caller to the vault, signed by the caller alone.
pub fn plan_deposit(ctx: &Deposit, amount: u64, vault: &Option<(Address, u8)>) -> (r: Result<
    HostCall,
    GalnoError,
>)
    ensures
        match deposit_fault(*ctx, amount, derivation_view(*vault)) {
            Some(e) => r is Err && r->Err_0 == e,
            None => r is Ok && is_transfer(r->Ok_0.instruction, ctx.user@, ctx.vault@, amount)
                && r->Ok_0.signer_seeds@.len() == 0,
        },
{
    match check_deposit(ctx, amount, vault) {
        Err(e) => Err(e),
        Ok(_) => Ok(
            HostCall {
                instruction: system_transfer(&ctx.user, &ctx.vault, amount),
                signer_seeds: Vec::new(),
            },
        ),
    }
}

/// The call that carries out a withdrawal on the host: a transfer from the
/// vault to the recipient, signed by the vault's label and bump.
pub fn plan_withdraw(
    ctx: &Withdraw,
    amount: u64,
    stored: &AccountData,
    config: &Option<(Address, u8)>,
    vault: &Option<(Address, u8)>,
) -> (r: Result<HostCall, GalnoError>)
    ensures
        match withdraw_fault(*ctx, stored@, derivation_view(*config), derivation_view(*vault)) {
            Some(e) => r is Err && r->Err_0 == e,
            None => r is Ok && is_transfer(r->Ok_0.instruction, ctx.vault@, ctx.recipient@, amount)
                && r->Ok_0.signer_seeds@.len() == 2 && r->Ok_0.signer_seeds@[0]@
                == vault_label_spec() && r->Ok_0.signer_seeds@[1]@ == seq![ctx.vault_bump],
        },
{
    match check_withdraw(ctx, stored, config, vault) {
        Err(e) => Err(e),
        Ok(signer) => {
            let from = signer.address();
            let mut signer_seeds: Vec<Vec<u8>> = Vec::new();
            signer_seeds.push(vault_label());
            signer_seeds.push(vec![signer.bump()]);
            proof {
                assert(signer_seeds@[1]@ =~= seq![ctx.vault_bump]);
            }
            Ok(HostCall { instruction: system_transfer(&from, &ctx.recipient, amount), signer_seeds })
        },
    }
}

/// Whether an initialization succeeds, given what the config label derives to.
pub open spec fn initialize_outcome(
    m: Map<Seq<u8>, Entry>,
    ctx: Initialize,
    config: Option<(Seq<u8>, u8)>,
) -> Result<(), GalnoError> {
    if !confirms(config, ctx.config@) {
        Err(GalnoError::InvalidDerivation)
    } else if !(kind_of(m, ctx.config@) is System) {
        Err(GalnoError::AlreadyInitialized)
    } else {
        Ok(())
    }
}

/// The table after an initialization.
pub open spec fn initialize_effect(
    m: Map<Seq<u8>, Entry>,
    ctx: Initialize,
    config: Option<(Seq<u8>, u8)>,
) -> Map<Seq<u8>, Entry> {
    if initialize_outcome(m, ctx, config) is Ok {
        allocated(m, ctx.config@, Kind::Config { authority: ctx.authority@ })
    } else {
        m
    }
}

/// Whether a deposit succeeds, given what the vault label derives to.
pub open spec fn deposit_outcome(
    m: Map<Seq<u8>, Entry>,
    ctx: Deposit,
    amount: u64,
    vault: Option<(Seq<u8>, u8)>,
) -> Result<DepositRecord, GalnoError> {
    match deposit_fault(ctx, amount, vault) {
        Some(e) => Err(e),
        None => if kind_of(m, ctx.vault@) is Config {
            Err(GalnoError::InvalidDerivation)
        } else {
            match transfer_refusal(m, ctx.user@, ctx.vault@, amount as nat) {
                Some(e) => Err(e),
                None => Ok(DepositRecord { actor: ctx.user, amount }),
            }
        },
    }
}

/// The table after a deposit.
pub open spec fn deposit_effect(
    m: Map<Seq<u8>, Entry>,
    ctx: Deposit,
    amount: u64,
    vault: Option<(Seq<u8>, u8)>,
) -> Map<Seq<u8>, Entry> {
    if deposit_outcome(m, ctx, amount, vault) is Ok {
        transferred(allocated(m, ctx.vault@, Kind::Vault), ctx.user@, ctx.vault@, amount as nat)
    } else {
        m
    }
}

/// Whether a withdrawal succeeds, given what the two labels derive to.
pub open spec fn withdraw_outcome(
    m: Map<Seq<u8>, Entry>,
    ctx: Withdraw,
    amount: u64,
    config: Option<(Seq<u8>, u8)>,
    vault: Option<(Seq<u8>, u8)>,
) -> Result<(), GalnoError> {
    match withdraw_fault(ctx, kind_of(m, ctx.config@), config, vault) {
        Some(e) => Err(e),
        None => match transfer_refusal(m, ctx.vault@, ctx.recipient@, amount as nat) {
            Some(e) => Err(e),
            None => Ok(()),
        },
    }
}

/// The table after a withdrawal.
pub open spec fn withdraw_effect(
    m: Map<Seq<u8>, Entry>,
    ctx: Withdraw,
    amount: u64,
    config: Option<(Seq<u8>, u8)>,
    vault: Option<(Seq<u8>, u8)>,
) -> Map<Seq<u8>, Entry> {
    if withdraw_outcome(m, ctx, amount, config, vault) is Ok {
        transferred(m, ctx.vault@, ctx.recipient@, amount as nat)
    } else {
        m
    }
}

/// Initialization against a derivation already made: creates the config
/// record with the caller as authority, once.
pub fn initialize_with(ledger: &mut Ledger, ctx: &Initialize, config: &Option<(Address, u8)>) -> (r:
    Result<(), GalnoError>)
    ensures
        r == initialize_outcome(old(ledger)@, *ctx, derivation_view(*config)),
        final(ledger)@ == initialize_effect(old(ledger)@, *ctx, derivation_view(*config)),
{
    match check_address(config, &ctx.config) {
        Err(e) => {
            return Err(e);
        },
        Ok(_) => {},
    }
    ledger.allocate(&ctx.config, AccountData::Config(Config { authority: ctx.authority }))
}

/// Deposit against a derivation already made: creates the vault if need be,
/// then moves `amount` from the caller into it.
pub fn deposit_with(
    ledger: &mut Ledger,
    ctx: &Deposit,
    amount: u64,
    vault: &Option<(Address, u8)>,
) -> (r: Result<DepositRecord, GalnoError>)
    ensures
        r == deposit_outcome(old(ledger)@, *ctx, amount, derivation_view(*vault)),
        final(ledger)@ == deposit_effect(old(ledger)@, *ctx, amount, derivation_view(*vault)),
{
    match check_deposit(ctx, amount, vault) {
        Err(e) => {
            return Err(e);
        },
        Ok(_) => {},
    }
    let held = ledger.data(&ctx.vault);
    match held {
        AccountData::Config(_) => {
            return Err(GalnoError::InvalidDerivation);
        },
        _ => {},
    }
    match ledger.refusal(&ctx.user, &ctx.vault, amount) {
        Some(e) => {
            return Err(e);
        },
        None => {},
    }
    match held {
        AccountData::System => {
            let _ = ledger.allocate(&ctx.vault, AccountData::Vault(Vault {}));
        },
        _ => {
            proof {
                assert(allocated(ledger@, ctx.vault@, Kind::Vault) =~= ledger@);
            }
        },
    }
    match ledger.transfer(&ctx.user, &ctx.vault, amount) {
        Ok(_) => Ok(DepositRecord { actor: ctx.user, amount }),
        Err(e) => Err(e),
    }
}

/// Withdrawal against derivations already made: the stored authority alone
/// may move `amount` from the vault to the recipient.
pub fn withdraw_with(
    ledger: &mut Ledger,
    ctx: &Withdraw,
    amount: u64,
    config: &Option<(Address, u8)>,
    vault: &Option<(Address, u8)>,
) -> (r: Result<(), GalnoError>)
    ensures
        r == withdraw_outcome(
            old(ledger)@,
            *ctx,
            amount,
            derivation_view(*config),
            derivation_view(*vault),
        ),
        final(ledger)@ == withdraw_effect(
            old(ledger)@,
            *ctx,
            amount,
            derivation_view(*config),
            derivation_view(*vault),
        ),
{
    let stored = ledger.data(&ctx.config);
    match check_withdraw(ctx, &stored, config, vault) {
        Err(e) => Err(e),
        Ok(signer) => transfer_signed(ledger, &signer, &ctx.recipient, amount),
    }
}

fn derived(label: Vec<u8>, program: &Address) -> (d: Option<(Address, u8)>)
    ensures
        derivation_view(d) == program_address(label@, program@),
{
    match derive_address(label.as_slice(), program) {
        Ok(d) => Some(d),
        Err(_) => None,
    }
}

/// Creates the config record at the address that the config label derives to
/// under `program`, and makes the caller the authority. A second call fails.
pub fn initialize(ledger: &mut Ledger, program: &Address, ctx: &Initialize) -> (r: Result<
    (),
    GalnoError,
>)
    ensures
        r == initialize_outcome(
            old(ledger)@,
            *ctx,
            program_address(config_label_spec(), program@),
        ),
        final(ledger)@ == initialize_effect(
            old(ledger)@,
            *ctx,
            program_address(config_label_spec(), program@),
        ),
{
    let config = derived(config_label(), program);
    initialize_with(ledger, ctx, &config)
}

/// Moves `amount`, which must not be zero, from the caller into the vault at
/// the address that the vault label derives to under `program`.
pub fn deposit(ledger: &mut Ledger, program: &Address, ctx: &Deposit, amount: u64) -> (r: Result<
    DepositRecord,
    GalnoError,
>)
    ensures
        r == deposit_outcome(
            old(ledger)@,
            *ctx,
            amount,
            program_address(vault_label_spec(), program@),
        ),
        final(ledger)@ == deposit_effect(
            old(ledger)@,
            *ctx,
            amount,
            program_address(vault_label_spec(), program@),
        ),
{
    let vault = derived(vault_label(), program);
    deposit_with(ledger, ctx, amount, &vault)
}

/// Moves `amount` from the vault to the recipient if the caller is the stored
/// authority and the presented vault address and bump are the derived ones.
pub fn withdraw(ledger: &mut Ledger, program: &Address, ctx: &Withdraw, amount: u64) -> (r: Result<
    (),
    GalnoError,
>)
    ensures
        r == withdraw_outcome(
            old(ledger)@,
            *ctx,
            amount,
            program_address(config_label_spec(), program@),
            program_address(vault_label_spec(), program@),
        ),
        final(ledger)@ == withdraw_effect(
            old(ledger)@,
            *ctx,
            amount,
            program_address(config_label_spec(), program@),
            program_address(vault_label_spec(), program@),
        ),
{
    let config = derived(config_label(), program);
    let vault = derived(vault_label(), program);
    withdraw_with(ledger, ctx, amount, &config, &vault)
}

} // verus!
