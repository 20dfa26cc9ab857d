//! A factory that provisions child NFT contracts under its own account and
//! keeps a registry of the children whose provisioning succeeded.
//!
//! The library holds the factory's decisions: checking a creation request,
//! describing the provisioning call to dispatch, and resolving its outcome
//! into either a registration or a refund. Dispatching the call, running the
//! callback and moving funds are left to the host runtime.

pub mod registry;
pub mod factory;
pub mod laws;

pub use registry::Registry;

pub use factory::{
    child_account_id, CallEnv, CreateError, CreateOutcome, NFTArgs, OnCreateArgs, ParasFactory,
    Provision, Royalties, Sale, CONTRACT_BALANCE, CREATE_CALLBACK, CREATE_CONTRACT, DEPLOY_BALANCE,
};
