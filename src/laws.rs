//! Properties of the provisioning workflow that span several calls.
use vstd::prelude::*;

use crate::factory::{accepts, child_id, committed, refund_due, CONTRACT_BALANCE, DEPLOY_BALANCE};

verus! {

/// A request that passed validation and whose provisioning call succeeded
/// leaves its child registered, and nothing is refunded.
pub proof fn lemma_success_registers(
    registry: Set<Seq<char>>,
    collection: Seq<char>,
    factory: Seq<char>,
    deposit: u128,
)
    requires
        accepts(registry, collection, factory, deposit),
    ensures
        committed(registry, child_id(collection, factory), true).contains(child_id(collection, factory)),
        refund_due(deposit as int, true) == 0,
{
}

/// A request that passed validation and whose provisioning call failed
/// leaves its child unregistered, and the requester gets back exactly the
/// deposit less `CONTRACT_BALANCE`, which is never negative.
pub proof fn lemma_failure_refunds(
    registry: Set<Seq<char>>,
    collection: Seq<char>,
    factory: Seq<char>,
    deposit: u128,
)
    requires
        accepts(registry, collection, factory, deposit),
    ensures
        !committed(registry, child_id(collection, factory), false).contains(child_id(collection, factory)),
        committed(registry, child_id(collection, factory), false) == registry,
        refund_due(deposit as int, false) == deposit - CONTRACT_BALANCE,
        refund_due(deposit as int, false) >= DEPLOY_BALANCE - CONTRACT_BALANCE,
{
}

/// The registry only grows, and a resolution changes whether an id is
/// registered only for the id it resolves, and only when it succeeded.
pub proof fn lemma_resolution_changes_only_its_child(
    registry: Set<Seq<char>>,
    id: Seq<char>,
    success: bool,
    other: Seq<char>,
)
    ensures
        registry.contains(other) ==> committed(registry, id, success).contains(other),
        other != id ==> (committed(registry, id, success).contains(other) == registry.contains(other)),
{
}

/// Once a child is registered, a new request for the same name is refused.
pub proof fn lemma_registered_child_is_refused(
    registry: Set<Seq<char>>,
    collection: Seq<char>,
    factory: Seq<char>,
    deposit: u128,
)
    ensures
        !accepts(committed(registry, child_id(collection, factory), true), collection, factory, deposit),
{
}

/// Two requests for the same child that both passed validation before
/// either was resolved: committing the child twice leaves the registry as
/// committing it once does.
pub proof fn lemma_double_commit_is_single(registry: Set<Seq<char>>, id: Seq<char>)
    ensures
        committed(committed(registry, id, true), id, true) == committed(registry, id, true),
{
    assert(committed(committed(registry, id, true), id, true) =~= committed(registry, id, true));
}

} // verus!
