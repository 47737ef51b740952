//! The bridge module: whitelist, nonce issuance, event emission and the
//! privileged funding transfer, over one explicit state struct.
//!
//! Each public operation is one atomic request: it either applies its whole
//! effect and returns `Ok`, or fails before mutating anything and returns the
//! error. The spec functions here state each operation's effect on the
//! mathematical view of the state; the law lemmas build on them.

use vstd::prelude::*;

use crate::auth::{authenticate, AccountId, Origin};
use crate::errors::Error;
use crate::ledger::{spec_balance, Ledger};
use crate::records::{RecordView, TransferRecord};
use crate::registry::ChainRegistry;

verus! {

/// The mathematical view of the bridge state: the emitter address, the
/// whitelisted chains with their deposit counters, the designated funding
/// account, the account balances, and the stream of published transfer
/// records in order of issuance.
#[verifier::ext_equal]
pub struct BridgeView {
    pub emitter: Seq<u8>,
    pub chains: Map<Seq<u8>, u32>,
    pub funding: u64,
    pub balances: Map<u64, u64>,
    pub records: Seq<RecordView>,
}

/// The state right after genesis: nothing whitelisted, no record published,
/// no emitter address set, and the funding account endowed with its opening
/// balance.
pub open spec fn spec_init(funding_account: u64, funding_balance: u64) -> BridgeView {
    BridgeView {
        emitter: Seq::empty(),
        chains: Map::empty(),
        funding: funding_account,
        balances: Map::empty().insert(funding_account, funding_balance),
        records: Seq::empty(),
    }
}

/// The effect of setting the emitter address: last write wins, nothing else
/// moves.
pub open spec fn spec_set_emitter(v: BridgeView, addr: Seq<u8>) -> BridgeView {
    BridgeView { emitter: addr, ..v }
}

/// The effect of whitelisting a chain: its entry is created, or overwritten,
/// with counter zero; nothing else moves.
pub open spec fn spec_whitelist(v: BridgeView, id: Seq<u8>) -> BridgeView {
    BridgeView { chains: v.chains.insert(id, 0), ..v }
}

/// Whether an asset transfer to `id` can succeed: the chain is whitelisted
/// and its counter has room for one more nonce.
pub open spec fn transfer_asset_enabled(v: BridgeView, id: Seq<u8>) -> bool {
    v.chains.contains_key(id) && v.chains[id] < u32::MAX
}

/// The nonce the next successful transfer to `id` is issued.
pub open spec fn next_nonce(v: BridgeView, id: Seq<u8>) -> u32 {
    (v.chains[id] + 1) as u32
}

/// The effect of a successful asset transfer to `id`: the chain's counter
/// steps to the issued nonce, and exactly one record carrying that nonce is
/// appended; nothing else moves.
pub open spec fn spec_transfer_asset(
    v: BridgeView,
    id: Seq<u8>,
    to: Seq<u8>,
    asset_id: Seq<u8>,
    metadata: Seq<u8>,
) -> BridgeView {
    BridgeView {
        chains: v.chains.insert(id, next_nonce(v, id)),
        records: v.records.push(
            RecordView { dest_chain_id: id, nonce: next_nonce(v, id), to, asset_id, metadata },
        ),
        ..v
    }
}

/// The bridge state. All persisted values live here; only the operations
/// below mutate them, and the funding account is fixed at genesis.
pub struct Bridge {
    emitter_address: Vec<u8>,
    chains: ChainRegistry,
    funding_account: AccountId,
    ledger: Ledger,
    records: Vec<TransferRecord>,
}

impl View for Bridge {
    type V = BridgeView;

    closed spec fn view(&self) -> BridgeView {
        BridgeView {
            emitter: self.emitter_address@,
            chains: self.chains@,
            funding: self.funding_account,
            balances: self.ledger@,
            records: self.records@.map_values(|r: TransferRecord| r@),
        }
    }
}

impl Bridge {
    /// The registry and the ledger keep their internal invariants.
    pub closed spec fn wf(&self) -> bool {
        self.chains.wf() && self.ledger.wf()
    }

    /// Initializes the bridge at genesis, designating the funding account and
    /// endowing it with `funding_balance`.
    pub fn new(funding_account: AccountId, funding_balance: u64) -> (b: Bridge)
        ensures
            b.wf(),
            b@ == spec_init(funding_account, funding_balance),
    {
        let mut ledger = Ledger::new();
        ledger.endow(funding_account, funding_balance);
        let b = Bridge {
            emitter_address: Vec::new(),
            chains: ChainRegistry::new(),
            funding_account,
            ledger,
            records: Vec::new(),
        };
        proof {
            assert(b@ =~= spec_init(funding_account, funding_balance));
        }
        b
    }

    /// Sets the address used to identify this chain in published records.
    /// Overwrites the previous value unconditionally; an unauthenticated
    /// caller is rejected with nothing mutated.
    pub fn set_emitter_address(&mut self, origin: &Origin, addr: Vec<u8>) -> (r: Result<
        (),
        Error,
    >)
        requires
            old(self).wf(),
        ensures
            final(self).wf(),
            !(origin is Signed) ==> r == Err::<(), Error>(Error::Unauthenticated) && final(self)@
                == old(self)@,
            origin is Signed ==> r == Ok::<(), Error>(()) && final(self)@ == spec_set_emitter(
                old(self)@,
                addr@,
            ),
    {
        if let Err(e) = authenticate(origin) {
            return Err(e);
        }
        self.emitter_address = addr;
        proof {
            assert(self@ =~= spec_set_emitter(old(self)@, addr@));
        }
        Ok(())
    }

    /// Enables a chain as a destination for bridge transfers, with its
    /// counter at zero. Whitelisting an already whitelisted chain resets its
    /// counter to zero, discarding prior nonce history; relayers relying on
    /// nonce continuity must account for that. An unauthenticated caller is
    /// rejected with nothing mutated.
    pub fn whitelist_chain(&mut self, origin: &Origin, id: Vec<u8>) -> (r: Result<(), Error>)
        requires
            old(self).wf(),
        ensures
            final(self).wf(),
            !(origin is Signed) ==> r == Err::<(), Error>(Error::Unauthenticated) && final(self)@
                == old(self)@,
            origin is Signed ==> r == Ok::<(), Error>(()) && final(self)@ == spec_whitelist(
                old(self)@,
                id@,
            ),
    {
        if let Err(e) = authenticate(origin) {
            return Err(e);
        }
        self.chains.whitelist(&id);
        proof {
            assert(self@ =~= spec_whitelist(old(self)@, id@));
        }
        Ok(())
    }

    /// Whether `id` is registered as a bridge destination. A pure lookup with
    /// no side effects.
    pub fn is_whitelisted(&self, id: &Vec<u8>) -> (r: bool)
        ensures
            r == self@.chains.contains_key(id@),
    {
        self.chains.is_whitelisted(id)
    }

    /// Commits an asset transfer to the chain: issues the next deposit nonce
    /// for `dest_id` and appends exactly one transfer record carrying that
    /// nonce. An unauthenticated caller, an unknown destination or an
    /// exhausted counter is rejected with nothing mutated.
    pub fn transfer_asset(
        &mut self,
        origin: &Origin,
        dest_id: Vec<u8>,
        to: Vec<u8>,
        token_id: Vec<u8>,
        metadata: Vec<u8>,
    ) -> (r: Result<(), Error>)
        requires
            old(self).wf(),
        ensures
            final(self).wf(),
            !(origin is Signed) ==> r == Err::<(), Error>(Error::Unauthenticated) && final(self)@
                == old(self)@,
            origin is Signed && !old(self)@.chains.contains_key(dest_id@) ==> r == Err::<
                (),
                Error,
            >(Error::ChainNotWhitelisted) && final(self)@ == old(self)@,
            origin is Signed && old(self)@.chains.contains_key(dest_id@) && old(
                self,
            )@.chains[dest_id@] == u32::MAX ==> r == Err::<(), Error>(Error::CounterOverflow)
                && final(self)@ == old(self)@,
            origin is Signed && transfer_asset_enabled(old(self)@, dest_id@) ==> r == Ok::<
                (),
                Error,
            >(()) && final(self)@ == spec_transfer_asset(
                old(self)@,
                dest_id@,
                to@,
                token_id@,
                metadata@,
            ),
    {
        if let Err(e) = authenticate(origin) {
            return Err(e);
        }
        match self.chains.issue_next(&dest_id) {
            Err(e) => {
                proof {
                    assert(self@ =~= old(self)@);
                }
                Err(e)
            },
            Ok(nonce) => {
                let ghost mid_records = self.records@.map_values(|r: TransferRecord| r@);
                let record = TransferRecord {
                    dest_chain_id: dest_id,
                    nonce,
                    to,
                    asset_id: token_id,
                    metadata,
                };
                let ghost record_view = record@;
                self.records.push(record);
                proof {
                    assert(self.records@.map_values(|r: TransferRecord| r@) =~= mid_records.push(
                        record_view,
                    ));
                    assert(self@ =~= spec_transfer_asset(
                        old(self)@,
                        dest_id@,
                        to@,
                        token_id@,
                        metadata@,
                    ));
                }
                Ok(())
            },
        }
    }

    /// Moves `amount` from the funding account to `to` through the native
    /// ledger, allowing the funding account to be fully depleted. Any
    /// failure, an unauthenticated caller, insufficient funds, or a recipient
    /// balance that cannot take the credit, aborts the request with no
    /// balance changed.
    pub fn transfer(&mut self, origin: &Origin, to: AccountId, amount: u32) -> (r: Result<
        (),
        Error,
    >)
        requires
            old(self).wf(),
        ensures
            final(self).wf(),
            final(self)@.emitter == old(self)@.emitter,
            final(self)@.chains == old(self)@.chains,
            final(self)@.funding == old(self)@.funding,
            final(self)@.records == old(self)@.records,
            !(origin is Signed) ==> r == Err::<(), Error>(Error::Unauthenticated) && final(self)@
                == old(self)@,
            origin is Signed && spec_balance(old(self)@.balances, old(self)@.funding) < amount
                as u64 ==> r == Err::<(), Error>(Error::InsufficientFunds) && final(self)@ == old(
                self,
            )@,
            origin is Signed && spec_balance(old(self)@.balances, old(self)@.funding) >= amount
                as u64 && to != old(self)@.funding && spec_balance(old(self)@.balances, to)
                + amount as u64 > u64::MAX ==> r == Err::<(), Error>(Error::BalanceOverflow)
                && final(self)@ == old(self)@,
            origin is Signed && spec_balance(old(self)@.balances, old(self)@.funding) >= amount
                as u64 && (to == old(self)@.funding || spec_balance(old(self)@.balances, to)
                + amount as u64 <= u64::MAX) ==> r == Ok::<(), Error>(()) && (forall|a: u64|
                spec_balance(final(self)@.balances, a) == (if a == old(self)@.funding && a != to {
                    (spec_balance(old(self)@.balances, old(self)@.funding) - amount as u64) as u64
                } else if a == to && a != old(self)@.funding {
                    (spec_balance(old(self)@.balances, to) + amount as u64) as u64
                } else {
                    spec_balance(old(self)@.balances, a)
                })),
    {
        if let Err(e) = authenticate(origin) {
            return Err(e);
        }
        let source = self.funding_account;
        let outcome = self.ledger.transfer(source, to, amount as u64);
        proof {
            if outcome is Err {
                assert(self@ =~= old(self)@);
            }
        }
        outcome
    }

    /// The address relayers read as this chain's identity; empty until set.
    pub fn emitter_address(&self) -> (r: &Vec<u8>)
        ensures
            r@ == self@.emitter,
    {
        &self.emitter_address
    }

    /// The account designated at genesis to fund bridge operations.
    pub fn funding_account(&self) -> (r: AccountId)
        ensures
            r == self@.funding,
    {
        self.funding_account
    }

    /// The balance `account` holds on the native ledger.
    pub fn balance_of(&self, account: AccountId) -> (r: u64)
        requires
            self.wf(),
        ensures
            r == spec_balance(self@.balances, account),
    {
        self.ledger.balance_of(account)
    }

    /// The deposit counter stored for `id`, if the chain is whitelisted.
    pub fn counter_of(&self, id: &Vec<u8>) -> (r: Option<u32>)
        requires
            self.wf(),
        ensures
            r == if self@.chains.contains_key(id@) {
                Some(self@.chains[id@])
            } else {
                None::<u32>
            },
    {
        self.chains.counter_of(id)
    }

    /// How many transfer records have been published.
    pub fn record_count(&self) -> (r: usize)
        ensures
            r == self@.records.len(),
    {
        self.records.len()
    }

    /// The `i`-th published transfer record, in order of issuance.
    pub fn record_at(&self, i: usize) -> (r: &TransferRecord)
        requires
            i < self@.records.len(),
        ensures
            r@ == self@.records[i as int],
    {
        &self.records[i]
    }
}

} // verus!
