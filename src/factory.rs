use std::collections::HashMap;

use near_contract_standards::non_fungible_token::metadata::NFTContractMetadata;
use vstd::prelude::*;
use vstd::string::*;

use crate::registry::Registry;

verus! {

/// Balance moved into each new child account: 8 NEAR, in yoctoNEAR.
/// It is spent on the attempt whatever its outcome.
pub const CONTRACT_BALANCE: u128 = 8_000_000_000_000_000_000_000_000;

/// Deposit a creation request must attach: 10 NEAR, in yoctoNEAR.
/// What exceeds `CONTRACT_BALANCE` pays for the callback and is refunded on failure.
pub const DEPLOY_BALANCE: u128 = 10_000_000_000_000_000_000_000_000;

/// Gas for the child's initialisation call.
pub const CREATE_CONTRACT: u64 = 70_000_000_000_000;

/// Gas for the completion callback.
pub const CREATE_CALLBACK: u64 = 10_000_000_000_000;

/// Declares near_contract_standards' `NFTContractMetadata`, the collection
/// metadata, so that it can be carried to the child unchanged. Nothing inside
/// it is read here.
#[verifier::external_type_specification]
#[verifier::external_body]
pub struct ExNFTContractMetadata(NFTContractMetadata);

/// Royalty shares in basis points (10_000 is 100%).
pub struct Royalties {
    pub accounts: HashMap<String, u16>,
    pub percent: u16,
}

/// Sale terms of the collection.
pub struct Sale {
    pub royalties: Option<Royalties>,
    pub price: u128,
}

/// Arguments of the child contract's `new`.
pub struct NFTArgs {
    pub metadata: NFTContractMetadata,
    pub owner_id: String,
    pub size: u32,
    pub sale: Sale,
}

/// What the callback needs to resolve one provisioning attempt.
pub struct OnCreateArgs {
    pub creator_id: String,
    pub nft_account_id: String,
    pub attached_deposit: u128,
}

/// The provisioning call to dispatch: create `account_id`, fund it with
/// `transfer`, deploy the child code, call its `new` with `init_args`, then
/// call back `on_create` with `callback`.
pub struct Provision {
    pub account_id: String,
    pub transfer: u128,
    pub init_args: NFTArgs,
    pub init_gas: u64,
    pub callback: OnCreateArgs,
    pub callback_gas: u64,
}

/// The facts of the current call that the host runtime supplies.
pub struct CallEnv {
    /// The account that made the call.
    pub predecessor_id: String,
    /// The factory's own account.
    pub current_account_id: String,
    /// The deposit attached to the call, in yoctoNEAR.
    pub attached_deposit: u128,
}

/// Why a creation request was refused.
pub enum CreateError {
    /// The attached deposit is below `need`.
    InsufficientDeposit { need: u128, attached: u128 },
    /// A child with this account id is already registered.
    DuplicateChild { account_id: String },
}

/// How a provisioning attempt was resolved.
pub enum CreateOutcome {
    /// The child was committed to the registry.
    Registered,
    /// The child was not created; `amount` goes back to `receiver_id`.
    Refunded { receiver_id: String, amount: u128 },
}

impl CreateOutcome {
    /// The amount returned to the requester.
    pub open spec fn refund(self) -> int {
        match self {
            CreateOutcome::Registered => 0,
            CreateOutcome::Refunded { amount, .. } => amount as int,
        }
    }
}

/// The account id of the child named `collection` under `factory`.
pub open spec fn child_id(collection: Seq<char>, factory: Seq<char>) -> Seq<char> {
    collection + seq!['.'] + factory
}

/// Whether a request passes validation against `registry`.
pub open spec fn accepts(registry: Set<Seq<char>>, collection: Seq<char>, factory: Seq<char>, deposit: u128) -> bool {
    deposit >= DEPLOY_BALANCE && !registry.contains(child_id(collection, factory))
}

/// The registry once the attempt for `id` has been resolved.
pub open spec fn committed(registry: Set<Seq<char>>, id: Seq<char>, success: bool) -> Set<Seq<char>> {
    if success {
        registry.insert(id)
    } else {
        registry
    }
}

/// What the requester gets back once the attempt has been resolved.
pub open spec fn refund_due(deposit: int, success: bool) -> int {
    if success {
        0
    } else {
        deposit - CONTRACT_BALANCE
    }
}

/// Builds the child's account id: `collection` + "." + `factory_id`.
pub fn child_account_id(collection: &str, factory_id: &str) -> (r: String)
    ensures
        r@ == child_id(collection@, factory_id@),
{
    proof {
        reveal_strlit(".");
    }
    let s = String::from_str(collection).concat(".");
    s.concat(factory_id)
}

/// The factory's persistent state: the registry of provisioned children and
/// the account that initialised the factory.
pub struct ParasFactory {
    pub contracts: Registry,
    pub owner_id: String,
}

impl ParasFactory {
    /// The registry holds each child once.
    pub open spec fn wf(&self) -> bool {
        self.contracts.wf()
    }

    /// A factory owned by `owner_id`, with no children.
    pub fn new(owner_id: String) -> (r: ParasFactory)
        ensures
            r.wf(),
            r.contracts@ == Set::<Seq<char>>::empty(),
            r.owner_id == owner_id,
    {
        ParasFactory { contracts: Registry::new(), owner_id }
    }

    /// Validates a request for the child `collection` and, if it passes,
    /// returns the provisioning call to dispatch. Nothing changes here:
    /// the child is registered only by `on_create`.
    pub fn create_child_contract(
        &self,
        collection: &str,
        metadata: NFTContractMetadata,
        supply: u32,
        sale: Sale,
        env: &CallEnv,
    ) -> (r: Result<Provision, CreateError>)
        ensures
            r is Ok <==> accepts(self.contracts@, collection@, env.current_account_id@, env.attached_deposit),
            env.attached_deposit < DEPLOY_BALANCE ==> r == Err::<Provision, CreateError>(
                CreateError::InsufficientDeposit { need: DEPLOY_BALANCE, attached: env.attached_deposit },
            ),
            env.attached_deposit >= DEPLOY_BALANCE && self.contracts@.contains(
                child_id(collection@, env.current_account_id@),
            ) ==> (match r {
                Err(CreateError::DuplicateChild { account_id }) => account_id@ == child_id(
                    collection@,
                    env.current_account_id@,
                ),
                _ => false,
            }),
            r matches Ok(p) ==> {
                &&& p.account_id@ == child_id(collection@, env.current_account_id@)
                &&& p.transfer == CONTRACT_BALANCE
                &&& p.init_args.metadata == metadata
                &&& p.init_args.owner_id == env.predecessor_id
                &&& p.init_args.size == supply
                &&& p.init_args.sale == sale
                &&& p.init_gas == CREATE_CONTRACT
                &&& p.callback.creator_id == env.predecessor_id
                &&& p.callback.nft_account_id@ == p.account_id@
                &&& p.callback.attached_deposit == env.attached_deposit
                &&& p.callback_gas == CREATE_CALLBACK
            },
    {
        match self.assert_sufficient_attached_deposit(env.attached_deposit) {
            Ok(()) => {},
            Err(e) => {
                return Err(e);
            },
        }
        let subaccount_id = child_account_id(collection, env.current_account_id.as_str());
        match self.assert_contract_id(subaccount_id.clone()) {
            Ok(()) => {},
            Err(e) => {
                return Err(e);
            },
        }
        let init_args = NFTArgs {
            metadata,
            owner_id: env.predecessor_id.clone(),
            size: supply,
            sale,
        };
        let callback = OnCreateArgs {
            creator_id: env.predecessor_id.clone(),
            nft_account_id: subaccount_id.clone(),
            attached_deposit: env.attached_deposit,
        };
        Ok(
            Provision {
                account_id: subaccount_id,
                transfer: CONTRACT_BALANCE,
                init_args,
                init_gas: CREATE_CONTRACT,
                callback,
                callback_gas: CREATE_CALLBACK,
            },
        )
    }

    /// Resolves a provisioning attempt: on success the child is committed,
    /// on failure the requester is owed the deposit less `CONTRACT_BALANCE`.
    pub fn on_create(
        &mut self,
        creator_id: String,
        nft_account_id: String,
        attached_deposit: u128,
        promise_success: bool,
    ) -> (r: CreateOutcome)
        requires
            old(self).wf(),
            attached_deposit >= CONTRACT_BALANCE,
        ensures
            final(self).wf(),
            final(self).owner_id == old(self).owner_id,
            final(self).contracts@ == committed(old(self).contracts@, nft_account_id@, promise_success),
            r.refund() == refund_due(attached_deposit as int, promise_success),
            promise_success <==> r is Registered,
            r matches CreateOutcome::Refunded { receiver_id, .. } ==> receiver_id == creator_id,
    {
        if promise_success {
            self.contracts.insert(nft_account_id);
            CreateOutcome::Registered
        } else {
            CreateOutcome::Refunded { receiver_id: creator_id, amount: attached_deposit - CONTRACT_BALANCE }
        }
    }

    /// Accepts a deposit of at least `DEPLOY_BALANCE`.
    pub fn assert_sufficient_attached_deposit(&self, attached_deposit: u128) -> (r: Result<(), CreateError>)
        ensures
            attached_deposit >= DEPLOY_BALANCE ==> r == Ok::<(), CreateError>(()),
            attached_deposit < DEPLOY_BALANCE ==> r == Err::<(), CreateError>(
                CreateError::InsufficientDeposit { need: DEPLOY_BALANCE, attached: attached_deposit },
            ),
    {
        if attached_deposit >= DEPLOY_BALANCE {
            Ok(())
        } else {
            Err(CreateError::InsufficientDeposit { need: DEPLOY_BALANCE, attached: attached_deposit })
        }
    }

    /// Accepts an account id that is not registered yet.
    pub fn assert_contract_id(&self, nft_account_id: String) -> (r: Result<(), CreateError>)
        ensures
            !self.contracts@.contains(nft_account_id@) ==> r == Ok::<(), CreateError>(()),
            self.contracts@.contains(nft_account_id@) ==> r == Err::<(), CreateError>(
                CreateError::DuplicateChild { account_id: nft_account_id },
            ),
    {
        if self.contracts.contains(&nft_account_id) {
            Err(CreateError::DuplicateChild { account_id: nft_account_id })
        } else {
            Ok(())
        }
    }

    /// Whether the child `nft_account_id` has been registered.
    pub fn check_exist(&self, nft_account_id: String) -> (r: bool)
        ensures
            r == self.contracts@.contains(nft_account_id@),
    {
        self.contracts.contains(&nft_account_id)
    }
}

} // verus!
