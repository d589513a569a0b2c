//! The six operations of the presale, on plain views of the accounts they are
//! given. Each returns the account creation or token transfer to carry out.
use crate::address::{find_program_address, parse_address, parsed_address, program_address, Address};
use crate::error::PresaleError;
use crate::records::{ConfigData, PresaleData};
use crate::vesting::{buy, purchase_outcome, vest, vest_outcome, NEST_TOTAL_AMOUNT, UNLOCK_START_TIME};
use vstd::prelude::*;

verus! {

/// Base58 address of the administrator.
pub const ADMIN_ADDRESS: &'static str = "4nnb****";
/// Base58 address of the stable-token account that receives purchases.
pub const USDT_RECEIVER_ADDRESS: &'static str = "DqtF****";

/// The instruction set.
#[derive(Clone, Copy, Debug, PartialEq, Eq, Structural)]
pub enum TransferInstruction {
    CreateBank,
    CreateConfig,
    CreatePresale,
    Presale(u64),
    Claim,
    Withdraw(u64),
}

/// What an operation reads of an account it is given.
#[derive(Clone, Copy, Debug, PartialEq, Eq)]
pub struct AccountRef {
    pub key: Address,
    pub owner: Address,
    pub is_signer: bool,
}

/// The identities an operation is checked against: the program itself, the
/// administrator and the stable-token receiver.
#[derive(Clone, Copy, Debug, PartialEq, Eq)]
pub struct Deployment {
    pub program_id: Address,
    pub admin: Address,
    pub usdt_receiver: Address,
}

/// An account to create at a program address, signed for with `seeds`.
#[derive(Clone, Debug)]
pub struct AccountCreation {
    pub address: Address,
    pub space: u64,
    pub owner: Address,
    pub seeds: Vec<Vec<u8>>,
    pub data: Vec<u8>,
}

/// A token transfer; `signer_seeds` is empty where the authority itself signed.
#[derive(Clone, Debug)]
pub struct TokenTransfer {
    pub source: Address,
    pub destination: Address,
    pub authority: Address,
    pub amount: u64,
    pub signer_seeds: Vec<Vec<u8>>,
}

impl AccountCreation {
    pub open spec fn is(&self, address: Seq<u8>, space: u64, owner: Seq<u8>, seeds: Seq<Seq<u8>>, data: Seq<u8>) -> bool {
        &&& self.address@ == address
        &&& self.space == space
        &&& self.owner@ == owner
        &&& self.seeds.deep_view() == seeds
        &&& self.data@ == data
    }
}

impl TokenTransfer {
    pub open spec fn is(&self, source: Seq<u8>, destination: Seq<u8>, authority: Seq<u8>, amount: u64, signer_seeds: Seq<Seq<u8>>) -> bool {
        &&& self.source@ == source
        &&& self.destination@ == destination
        &&& self.authority@ == authority
        &&& self.amount == amount
        &&& self.signer_seeds.deep_view() == signer_seeds
    }
}

/// "BANK": namespace of the custody vault.
pub open spec fn bank_seed() -> Seq<u8> {
    seq![66u8, 65, 78, 75]
}

/// "CONFIG": namespace of the allocation registry.
pub open spec fn config_seed() -> Seq<u8> {
    seq![67u8, 79, 78, 70, 73, 71]
}

/// "PRESALE": namespace of the contributor ledgers.
pub open spec fn presale_seed() -> Seq<u8> {
    seq![80u8, 82, 69, 83, 65, 76, 69]
}

fn bank_seeds() -> (r: Vec<Vec<u8>>)
    ensures
        r.deep_view() == seq![bank_seed()],
{
    let r = vec![vec![66u8, 65, 78, 75]];
    proof {
        assert(r.deep_view() =~~= seq![bank_seed()]);
    }
    r
}

fn config_seeds() -> (r: Vec<Vec<u8>>)
    ensures
        r.deep_view() == seq![config_seed()],
{
    let r = vec![vec![67u8, 79, 78, 70, 73, 71]];
    proof {
        assert(r.deep_view() =~~= seq![config_seed()]);
    }
    r
}

fn presale_seeds(contributor: &Address) -> (r: Vec<Vec<u8>>)
    ensures
        r.deep_view() == seq![presale_seed(), contributor@],
{
    let r = vec![vec![80u8, 82, 69, 83, 65, 76, 69], contributor.to_vec()];
    proof {
        assert(r.deep_view() =~~= seq![presale_seed(), contributor@]);
    }
    r
}

/// The seeds followed by the one-byte bump seed.
fn with_bump(seeds: Vec<Vec<u8>>, bump: u8) -> (r: Vec<Vec<u8>>)
    ensures
        r.deep_view() == seeds.deep_view().push(seq![bump]),
{
    let mut r = seeds;
    let b = vec![bump];
    r.push(b);
    proof {
        assert(r.deep_view() =~~= seeds.deep_view().push(seq![bump]));
    }
    r
}

impl Deployment {
    /// The deployment of the program `program_id` with the compiled-in
    /// administrator and receiver.
    pub fn new(program_id: Address) -> (r: Result<Deployment, PresaleError>)
        ensures
            match (parsed_address(ADMIN_ADDRESS@), parsed_address(USDT_RECEIVER_ADDRESS@)) {
                (Some(admin), Some(receiver)) => r is Ok && r->Ok_0.program_id == program_id
                    && r->Ok_0.admin@ == admin && r->Ok_0.usdt_receiver@ == receiver,
                _ => r == Err::<Deployment, PresaleError>(PresaleError::InvalidConfiguration),
            },
    {
        let admin = match parse_address(ADMIN_ADDRESS) {
            Some(a) => a,
            None => return Err(PresaleError::InvalidConfiguration),
        };
        let receiver = match parse_address(USDT_RECEIVER_ADDRESS) {
            Some(a) => a,
            None => return Err(PresaleError::InvalidConfiguration),
        };
        Ok(Deployment { program_id, admin, usdt_receiver: receiver })
    }
}

/// Creates the custody vault: a zero-size account at the vault's program
/// address, owned by the program. Administrator only.
pub fn create_bank(d: &Deployment, owner: &AccountRef, bank_pda: &AccountRef) -> (r: Result<AccountCreation, PresaleError>)
    ensures
        owner.key@ != d.admin@ ==> r == Err::<AccountCreation, PresaleError>(PresaleError::Unauthorized),
        owner.key@ == d.admin@ ==> match program_address(seq![bank_seed()], d.program_id@) {
            None => r == Err::<AccountCreation, PresaleError>(PresaleError::DerivationFailed),
            Some((a, bump)) => if bank_pda.key@ != a {
                r == Err::<AccountCreation, PresaleError>(PresaleError::AddressMismatch)
            } else {
                r is Ok && r->Ok_0.is(a, 0, d.program_id@, seq![bank_seed(), seq![bump]], seq![])
            },
        },
{
    if !owner.key.same_as(&d.admin) {
        return Err(PresaleError::Unauthorized);
    }
    let seeds = bank_seeds();
    let (pda, bump) = match find_program_address(&seeds, &d.program_id) {
        Some(found) => found,
        None => return Err(PresaleError::DerivationFailed),
    };
    if !bank_pda.key.same_as(&pda) {
        return Err(PresaleError::AddressMismatch);
    }
    proof {
        assert(seeds.deep_view().push(seq![bump]) =~= seq![bank_seed(), seq![bump]]);
    }
    Ok(AccountCreation { address: pda, space: 0, owner: d.program_id, seeds: with_bump(seeds, bump), data: Vec::new() })
}

/// Creates the allocation registry at its program address, owned by the
/// program, holding the whole supply and nothing sold. Administrator only.
pub fn create_config(d: &Deployment, owner: &AccountRef, config_pda: &AccountRef) -> (r: Result<AccountCreation, PresaleError>)
    ensures
        owner.key@ != d.admin@ ==> r == Err::<AccountCreation, PresaleError>(PresaleError::Unauthorized),
        owner.key@ == d.admin@ ==> match program_address(seq![config_seed()], d.program_id@) {
            None => r == Err::<AccountCreation, PresaleError>(PresaleError::DerivationFailed),
            Some((a, bump)) => if config_pda.key@ != a {
                r == Err::<AccountCreation, PresaleError>(PresaleError::AddressMismatch)
            } else {
                r is Ok && r->Ok_0.is(
                    a,
                    ConfigData::ACCOUNT_SPACE as u64,
                    d.program_id@,
                    seq![config_seed(), seq![bump]],
                    ConfigData { nest_total: NEST_TOTAL_AMOUNT, presale_total: 0 }.encoding(),
                )
            },
        },
{
    if !owner.key.same_as(&d.admin) {
        return Err(PresaleError::Unauthorized);
    }
    let seeds = config_seeds();
    let (pda, bump) = match find_program_address(&seeds, &d.program_id) {
        Some(found) => found,
        None => return Err(PresaleError::DerivationFailed),
    };
    if !config_pda.key.same_as(&pda) {
        return Err(PresaleError::AddressMismatch);
    }
    proof {
        assert(seeds.deep_view().push(seq![bump]) =~= seq![config_seed(), seq![bump]]);
    }
    let config = ConfigData { nest_total: NEST_TOTAL_AMOUNT, presale_total: 0 };
    Ok(
        AccountCreation {
            address: pda,
            space: ConfigData::ACCOUNT_SPACE as u64,
            owner: d.program_id,
            seeds: with_bump(seeds, bump),
            data: config.to_bytes(),
        },
    )
}

/// Creates `owner`'s ledger at the program address derived from the owner,
/// owned by the program, with every counter zero and the bump seed recorded.
/// Anyone may pay for it.
pub fn create_presale(program_id: &Address, owner: &AccountRef, presale_pda: &AccountRef) -> (r: Result<AccountCreation, PresaleError>)
    ensures
        match program_address(seq![presale_seed(), owner.key@], program_id@) {
            None => r == Err::<AccountCreation, PresaleError>(PresaleError::DerivationFailed),
            Some((a, bump)) => if presale_pda.key@ != a {
                r == Err::<AccountCreation, PresaleError>(PresaleError::AddressMismatch)
            } else {
                r is Ok && r->Ok_0.is(
                    a,
                    PresaleData::ACCOUNT_SPACE as u64,
                    program_id@,
                    seq![presale_seed(), owner.key@, seq![bump]],
                    PresaleData { nest_total: 0, nest_claim: 0, nest_cliff: 0, bump }.encoding(),
                )
            },
        },
{
    let seeds = presale_seeds(&owner.key);
    let (pda, bump) = match find_program_address(&seeds, program_id) {
        Some(found) => found,
        None => return Err(PresaleError::DerivationFailed),
    };
    if !presale_pda.key.same_as(&pda) {
        return Err(PresaleError::AddressMismatch);
    }
    proof {
        assert(seeds.deep_view().push(seq![bump]) =~= seq![presale_seed(), owner.key@, seq![bump]]);
    }
    let ledger = PresaleData { nest_total: 0, nest_claim: 0, nest_cliff: 0, bump };
    Ok(
        AccountCreation {
            address: pda,
            space: PresaleData::ACCOUNT_SPACE as u64,
            owner: *program_id,
            seeds: with_bump(seeds, bump),
            data: ledger.to_bytes(),
        },
    )
}

/// Why the accounts given to a purchase are refused, if they are.
pub open spec fn purchase_accounts_error(
    d: Deployment,
    owner: AccountRef,
    destination: AccountRef,
    presale_pda: AccountRef,
    config_pda: AccountRef,
) -> Option<PresaleError> {
    if !owner.is_signer {
        Some(PresaleError::MissingSignature)
    } else if destination.key@ != d.usdt_receiver@ {
        Some(PresaleError::InvalidReceiver)
    } else if presale_pda.owner@ != d.program_id@ || config_pda.owner@ != d.program_id@ {
        Some(PresaleError::NotProgramOwned)
    } else {
        None
    }
}

/// A purchase of reward tokens for `amount` stable-token units at time `now`.
/// On success the registry and ledger are updated and the stable tokens are to
/// move from `source` to the receiver, authorised by the signing contributor.
pub fn presale(
    d: &Deployment,
    owner: &AccountRef,
    source: &AccountRef,
    destination: &AccountRef,
    presale_pda: &AccountRef,
    config_pda: &AccountRef,
    now: i64,
    amount: u64,
    config: &mut ConfigData,
    ledger: &mut PresaleData,
) -> (r: Result<TokenTransfer, PresaleError>)
    requires
        old(config).wf(),
        old(ledger).wf(),
    ensures
        final(config).wf(),
        final(ledger).wf(),
        match purchase_accounts_error(*d, *owner, *destination, *presale_pda, *config_pda) {
            Some(e) => r == Err::<TokenTransfer, PresaleError>(e) && *final(config) == *old(config)
                && *final(ledger) == *old(ledger),
            None => match purchase_outcome(*old(config), *old(ledger), amount, now) {
                Ok((c, l, _)) => r is Ok && r->Ok_0.is(source.key@, destination.key@, owner.key@, amount, seq![])
                    && *final(config) == c && *final(ledger) == l,
                Err(e) => r == Err::<TokenTransfer, PresaleError>(e) && *final(config) == *old(config)
                    && *final(ledger) == *old(ledger),
            },
        },
{
    if !owner.is_signer {
        return Err(PresaleError::MissingSignature);
    }
    if !destination.key.same_as(&d.usdt_receiver) {
        return Err(PresaleError::InvalidReceiver);
    }
    if !presale_pda.owner.same_as(&d.program_id) || !config_pda.owner.same_as(&d.program_id) {
        return Err(PresaleError::NotProgramOwned);
    }
    match buy(config, ledger, amount, now) {
        Ok(_) => {},
        Err(e) => return Err(e),
    }
    let no_seeds: Vec<Vec<u8>> = Vec::new();
    proof {
        assert(no_seeds.deep_view() =~= seq![]);
    }
    Ok(
        TokenTransfer {
            source: source.key,
            destination: destination.key,
            authority: owner.key,
            amount,
            signer_seeds: no_seeds,
        },
    )
}

/// Why a claim is refused before the vesting engine runs, if it is; else the
/// vault's bump seed.
pub open spec fn claim_precheck(
    program_id: Address,
    owner: AccountRef,
    presale_pda: AccountRef,
    bank_pda: AccountRef,
    now: i64,
    stored_bump: u8,
) -> Result<u8, PresaleError> {
    if !owner.is_signer {
        Err(PresaleError::MissingSignature)
    } else {
        match program_address(seq![presale_seed(), owner.key@], program_id@) {
            None => Err(PresaleError::DerivationFailed),
            Some((p, pbump)) => if presale_pda.key@ != p {
                Err(PresaleError::InvalidSeeds)
            } else if presale_pda.owner@ != program_id@ {
                Err(PresaleError::NotProgramOwned)
            } else {
                match program_address(seq![bank_seed()], program_id@) {
                    None => Err(PresaleError::DerivationFailed),
                    Some((b, bbump)) => if bank_pda.key@ != b {
                        Err(PresaleError::InvalidSeeds)
                    } else if now < UNLOCK_START_TIME {
                        Err(PresaleError::UnlockNotStarted)
                    } else if stored_bump != pbump {
                        Err(PresaleError::InvalidSeeds)
                    } else {
                        Ok(bbump)
                    },
                }
            },
        }
    }
}

/// A claim at time `now` by the signing contributor `owner`. On success the
/// ledger records the payment and the amount due is to move from the vault's
/// token account `source` to `destination`, signed for by the vault.
pub fn claim(
    program_id: &Address,
    owner: &AccountRef,
    source: &AccountRef,
    destination: &AccountRef,
    presale_pda: &AccountRef,
    bank_pda: &AccountRef,
    now: i64,
    ledger: &mut PresaleData,
) -> (r: Result<TokenTransfer, PresaleError>)
    requires
        old(ledger).wf(),
    ensures
        final(ledger).wf(),
        match claim_precheck(*program_id, *owner, *presale_pda, *bank_pda, now, old(ledger).bump) {
            Err(e) => r == Err::<TokenTransfer, PresaleError>(e) && *final(ledger) == *old(ledger),
            Ok(bank_bump) => match vest_outcome(*old(ledger), now) {
                Ok((l, paid)) => r is Ok && r->Ok_0.is(
                    source.key@,
                    destination.key@,
                    bank_pda.key@,
                    paid,
                    seq![bank_seed(), seq![bank_bump]],
                ) && *final(ledger) == l,
                Err(e) => r == Err::<TokenTransfer, PresaleError>(e) && *final(ledger) == *old(ledger),
            },
        },
{
    if !owner.is_signer {
        return Err(PresaleError::MissingSignature);
    }
    let (ledger_key, ledger_bump) = match find_program_address(&presale_seeds(&owner.key), program_id) {
        Some(found) => found,
        None => return Err(PresaleError::DerivationFailed),
    };
    if !presale_pda.key.same_as(&ledger_key) {
        return Err(PresaleError::InvalidSeeds);
    }
    if !presale_pda.owner.same_as(program_id) {
        return Err(PresaleError::NotProgramOwned);
    }
    let seeds = bank_seeds();
    let (bank_key, bank_bump) = match find_program_address(&seeds, program_id) {
        Some(found) => found,
        None => return Err(PresaleError::DerivationFailed),
    };
    if !bank_pda.key.same_as(&bank_key) {
        return Err(PresaleError::InvalidSeeds);
    }
    if now < UNLOCK_START_TIME {
        return Err(PresaleError::UnlockNotStarted);
    }
    if ledger.bump != ledger_bump {
        return Err(PresaleError::InvalidSeeds);
    }
    let paid = match vest(ledger, now) {
        Ok(p) => p,
        Err(e) => return Err(e),
    };
    proof {
        assert(seeds.deep_view().push(seq![bank_bump]) =~= seq![bank_seed(), seq![bank_bump]]);
    }
    Ok(
        TokenTransfer {
            source: source.key,
            destination: destination.key,
            authority: bank_pda.key,
            amount: paid,
            signer_seeds: with_bump(seeds, bank_bump),
        },
    )
}

/// Moves `amount` reward tokens out of the vault for the administrator,
/// without reference to any registry or ledger.
pub fn withdraw(
    d: &Deployment,
    owner: &AccountRef,
    source: &AccountRef,
    destination: &AccountRef,
    bank_pda: &AccountRef,
    amount: u64,
) -> (r: Result<TokenTransfer, PresaleError>)
    ensures
        amount == 0 ==> r == Err::<TokenTransfer, PresaleError>(PresaleError::InvalidArgument),
        amount != 0 && owner.key@ != d.admin@ ==> r == Err::<TokenTransfer, PresaleError>(
            PresaleError::Unauthorized,
        ),
        amount != 0 && owner.key@ == d.admin@ && !owner.is_signer ==> r == Err::<TokenTransfer, PresaleError>(
            PresaleError::MissingSignature,
        ),
        amount != 0 && owner.key@ == d.admin@ && owner.is_signer ==> match program_address(seq![bank_seed()], d.program_id@) {
            None => r == Err::<TokenTransfer, PresaleError>(PresaleError::DerivationFailed),
            Some((b, bbump)) => if bank_pda.key@ != b {
                r == Err::<TokenTransfer, PresaleError>(PresaleError::AddressMismatch)
            } else {
                r is Ok && r->Ok_0.is(source.key@, destination.key@, b, amount, seq![bank_seed(), seq![bbump]])
            },
        },
{
    if amount == 0 {
        return Err(PresaleError::InvalidArgument);
    }
    if !owner.key.same_as(&d.admin) {
        return Err(PresaleError::Unauthorized);
    }
    if !owner.is_signer {
        return Err(PresaleError::MissingSignature);
    }
    let seeds = bank_seeds();
    let (bank_key, bank_bump) = match find_program_address(&seeds, &d.program_id) {
        Some(found) => found,
        None => return Err(PresaleError::DerivationFailed),
    };
    if !bank_pda.key.same_as(&bank_key) {
        return Err(PresaleError::AddressMismatch);
    }
    proof {
        assert(seeds.deep_view().push(seq![bank_bump]) =~= seq![bank_seed(), seq![bank_bump]]);
    }
    Ok(
        TokenTransfer {
            source: source.key,
            destination: destination.key,
            authority: bank_pda.key,
            amount,
            signer_seeds: with_bump(seeds, bank_bump),
        },
    )
}

} // verus!
