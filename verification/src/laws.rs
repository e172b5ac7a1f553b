use crate::deriver::program_address;
use crate::error::GalnoError;
use crate::ledger::{allocated, balance, credited, kind_of, transferred, Entry, Kind};
use crate::operations::{
    confirms, confirms_bump, deposit_effect, deposit_outcome, initialize_effect,
    initialize_outcome, withdraw_effect, withdraw_outcome, Deposit, Initialize, Withdraw,
};
use vstd::prelude::*;

verus! {

/// The authority named by the config record at the derived config address,
/// if that record exists.
pub open spec fn stored_authority(m: Map<Seq<u8>, Entry>, config: Option<(Seq<u8>, u8)>) -> Option<
    Seq<u8>,
> {
    match config {
        Some((address, _)) => match kind_of(m, address) {
            Kind::Config { authority } => Some(authority),
            _ => None,
        },
        None => None,
    }
}

/// Every deposit of `steps`, made in order from table `m`, succeeds.
pub open spec fn deposits_succeed(
    m: Map<Seq<u8>, Entry>,
    steps: Seq<(Deposit, u64)>,
    vault: Option<(Seq<u8>, u8)>,
) -> bool
    decreases steps.len(),
{
    if steps.len() == 0 {
        true
    } else {
        deposit_outcome(m, steps[0].0, steps[0].1, vault) is Ok && deposits_succeed(
            deposit_effect(m, steps[0].0, steps[0].1, vault),
            steps.drop_first(),
            vault,
        )
    }
}

/// The table after the deposits of `steps`, made in order from table `m`.
pub open spec fn after_deposits(
    m: Map<Seq<u8>, Entry>,
    steps: Seq<(Deposit, u64)>,
    vault: Option<(Seq<u8>, u8)>,
) -> Map<Seq<u8>, Entry>
    decreases steps.len(),
{
    if steps.len() == 0 {
        m
    } else {
        after_deposits(
            deposit_effect(m, steps[0].0, steps[0].1, vault),
            steps.drop_first(),
            vault,
        )
    }
}

/// The sum of the amounts of `steps`.
pub open spec fn deposited_total(steps: Seq<(Deposit, u64)>) -> nat
    decreases steps.len(),
{
    if steps.len() == 0 {
        0
    } else {
        steps[0].1 as nat + deposited_total(steps.drop_first())
    }
}

/// The sum of the amounts of those `steps` that someone other than `at` pays.
pub open spec fn received_total(steps: Seq<(Deposit, u64)>, at: Seq<u8>) -> nat
    decreases steps.len(),
{
    if steps.len() == 0 {
        0
    } else if steps[0].0.user@ == at {
        received_total(steps.drop_first(), at)
    } else {
        steps[0].1 as nat + received_total(steps.drop_first(), at)
    }
}

/// After any run of successful deposits the vault holds what it held before
/// plus the amount of each deposit that another account paid, counted once;
/// a deposit that the vault itself pays leaves its balance where it was.
pub proof fn deposits_reach_the_vault(
    m: Map<Seq<u8>, Entry>,
    steps: Seq<(Deposit, u64)>,
    vault: Option<(Seq<u8>, u8)>,
    at: Seq<u8>,
)
    requires
        confirms(vault, at),
        deposits_succeed(m, steps, vault),
    ensures
        balance(after_deposits(m, steps, vault), at) == balance(m, at) + received_total(steps, at),
    decreases steps.len(),
{
    if steps.len() > 0 {
        let next = deposit_effect(m, steps[0].0, steps[0].1, vault);
        if steps[0].0.user@ == at {
            assert(balance(next, at) == balance(m, at));
        } else {
            assert(balance(next, at) == balance(m, at) + steps[0].1);
        }
        deposits_reach_the_vault(next, steps.drop_first(), vault, at);
    }
}

/// After any run of successful deposits, none of them paid by the vault
/// itself, the vault holds what it held before plus the sum of the amounts.
pub proof fn deposits_add_up(
    m: Map<Seq<u8>, Entry>,
    steps: Seq<(Deposit, u64)>,
    vault: Option<(Seq<u8>, u8)>,
    at: Seq<u8>,
)
    requires
        confirms(vault, at),
        deposits_succeed(m, steps, vault),
        forall|i: int| 0 <= i < steps.len() ==> (#[trigger] steps[i]).0.user@ != at,
    ensures
        balance(after_deposits(m, steps, vault), at) == balance(m, at) + deposited_total(steps),
    decreases steps.len(),
{
    if steps.len() > 0 {
        let next = deposit_effect(m, steps[0].0, steps[0].1, vault);
        let rest = steps.drop_first();
        assert(steps[0].0.user@ != at);
        assert(balance(next, at) == balance(m, at) + steps[0].1);
        assert forall|i: int| 0 <= i < rest.len() implies (#[trigger] rest[i]).0.user@ != at by {
            assert(rest[i] == steps[i + 1]);
        }
        deposits_add_up(next, rest, vault, at);
    }
}

/// A withdrawal asked for by anyone but the stored authority fails and leaves
/// the whole table as it was, whatever the amount.
pub proof fn withdraw_by_stranger_changes_nothing(
    m: Map<Seq<u8>, Entry>,
    ctx: Withdraw,
    amount: u64,
    config: Option<(Seq<u8>, u8)>,
    vault: Option<(Seq<u8>, u8)>,
)
    requires
        stored_authority(m, config) != Some(ctx.authority@),
    ensures
        withdraw_outcome(m, ctx, amount, config, vault) is Err,
        withdraw_effect(m, ctx, amount, config, vault) == m,
        confirms(config, ctx.config@) && confirms_bump(vault, ctx.vault@, ctx.vault_bump)
            ==> withdraw_outcome(m, ctx, amount, config, vault) == Err::<(), GalnoError>(
            GalnoError::Unauthorized,
        ),
{
}

/// Once an initialization has succeeded, every further one fails, changes
/// nothing, and the authority stays the first caller.
pub proof fn initialize_is_once(
    m: Map<Seq<u8>, Entry>,
    first: Initialize,
    second: Initialize,
    config: Option<(Seq<u8>, u8)>,
)
    requires
        initialize_outcome(m, first, config) is Ok,
    ensures
        stored_authority(initialize_effect(m, first, config), config) == Some(first.authority@),
        initialize_outcome(initialize_effect(m, first, config), second, config) is Err,
        initialize_effect(initialize_effect(m, first, config), second, config) == initialize_effect(
            m,
            first,
            config,
        ),
        confirms(config, second.config@) ==> initialize_outcome(
            initialize_effect(m, first, config),
            second,
            config,
        ) == Err::<(), GalnoError>(GalnoError::AlreadyInitialized),
{
}

/// Where a config record is stored, no initialization, deposit or withdrawal
/// changes the authority that it names.
pub proof fn authority_never_changes(
    m: Map<Seq<u8>, Entry>,
    again: Initialize,
    put_in: Deposit,
    take_out: Withdraw,
    amount: u64,
    config: Option<(Seq<u8>, u8)>,
    vault: Option<(Seq<u8>, u8)>,
)
    requires
        stored_authority(m, config) is Some,
    ensures
        initialize_outcome(m, again, config) is Err,
        initialize_effect(m, again, config) == m,
        stored_authority(deposit_effect(m, put_in, amount, vault), config) == stored_authority(
            m,
            config,
        ),
        stored_authority(withdraw_effect(m, take_out, amount, config, vault), config)
            == stored_authority(m, config),
{
}

/// A record, once stored, stays as it is under every change that the ledger
/// offers: funding, a transfer, and an allocation where it is allowed.
pub proof fn records_are_kept(
    m: Map<Seq<u8>, Entry>,
    a: Seq<u8>,
    from: Seq<u8>,
    to: Seq<u8>,
    amount: nat,
    kind: Kind,
)
    requires
        !(kind_of(m, a) is System),
    ensures
        kind_of(credited(m, to, amount), a) == kind_of(m, a),
        kind_of(transferred(m, from, to, amount), a) == kind_of(m, a),
        kind_of(m, to) is System ==> kind_of(allocated(m, to, kind), a) == kind_of(m, a),
{
}

/// Neither an initialization nor a deposit takes anything out of the vault:
/// its balance goes down by a withdrawal alone.
pub proof fn vault_shrinks_by_withdrawal_alone(
    m: Map<Seq<u8>, Entry>,
    again: Initialize,
    put_in: Deposit,
    amount: u64,
    config: Option<(Seq<u8>, u8)>,
    vault: Option<(Seq<u8>, u8)>,
    at: Seq<u8>,
)
    requires
        confirms(vault, at),
    ensures
        balance(initialize_effect(m, again, config), at) == balance(m, at),
        balance(deposit_effect(m, put_in, amount, vault), at) >= balance(m, at),
{
}

/// The same label under the same program derives to the same address and
/// bump, however often it is asked.
pub proof fn derivation_is_stable(
    label: Seq<u8>,
    program: Seq<u8>,
    label_again: Seq<u8>,
    program_again: Seq<u8>,
)
    requires
        label == label_again,
        program == program_again,
    ensures
        program_address(label, program) == program_address(label_again, program_again),
{
}

/// A withdrawal by the stored authority that presents the derived addresses
/// and bump, of no more than the vault holds, to a recipient other than the
/// vault whose balance has room for it, succeeds; the
/// vault loses exactly the amount, the recipient gains exactly the amount,
/// and no other balance moves.
pub proof fn withdraw_by_authority_conserves(
    m: Map<Seq<u8>, Entry>,
    ctx: Withdraw,
    amount: u64,
    config: Option<(Seq<u8>, u8)>,
    vault: Option<(Seq<u8>, u8)>,
)
    requires
        confirms(config, ctx.config@),
        confirms_bump(vault, ctx.vault@, ctx.vault_bump),
        stored_authority(m, config) == Some(ctx.authority@),
        amount <= balance(m, ctx.vault@),
        ctx.recipient@ != ctx.vault@,
        balance(m, ctx.recipient@) + amount <= u64::MAX,
    ensures
        withdraw_outcome(m, ctx, amount, config, vault) == Ok::<(), GalnoError>(()),
        balance(withdraw_effect(m, ctx, amount, config, vault), ctx.vault@) == balance(
            m,
            ctx.vault@,
        ) - amount,
        balance(withdraw_effect(m, ctx, amount, config, vault), ctx.recipient@) == balance(
            m,
            ctx.recipient@,
        ) + amount,
        forall|other: Seq<u8>|
            other != ctx.vault@ && other != ctx.recipient@ ==> balance(
                withdraw_effect(m, ctx, amount, config, vault),
                other,
            ) == balance(m, other),
{
}

} // verus!
