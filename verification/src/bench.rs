//! The benchmark's transaction schedule.
//!
//! One `deposit()` funds the caller's token balance with `amount` times the number of
//! transfers; then come the warm-up transfers and the timed transfers of `amount` to
//! the recipient; then two `balanceOf` queries, for the caller and for the recipient.
//! The caller's nonce starts at zero and grows by one with every transaction.
//! Whoever runs the transactions asks the plan for the next one until it has none.

use vstd::prelude::*;
use crate::address::Address;
use crate::bigendian::zeros;
use crate::calldata::{
    address_word, balance_of_calldata, balance_of_selector, deposit_calldata, deposit_selector,
    encode_balance_of, encode_deposit, encode_transfer, transfer_calldata, transfer_selector,
    uint_word,
};
use crate::u256::{u256_modulus, U256};

verus! {

/// The gas limit of every transaction of the benchmark.
pub const GAS_LIMIT: u64 = 30_000_000;

/// The part of the schedule a transaction belongs to.
#[derive(Clone, Copy, Debug, PartialEq, Eq, Structural)]
pub enum Stage {
    /// The `deposit()` that funds the caller.
    Deposit,
    /// A transfer before timing starts.
    Warmup,
    /// A timed transfer.
    Timed,
    /// The `balanceOf` query for the caller.
    QueryCaller,
    /// The `balanceOf` query for the recipient.
    QueryRecipient,
}

/// One transaction to run: a call from `caller` to `contract`.
pub struct TxRequest {
    /// The part of the schedule it belongs to.
    pub stage: Stage,
    /// The sender.
    pub caller: Address,
    /// The called contract.
    pub contract: Address,
    /// The calldata.
    pub data: Vec<u8>,
    /// The value sent with the call.
    pub value: U256,
    /// The gas limit.
    pub gas_limit: u64,
    /// The gas price.
    pub gas_price: u64,
    /// The sender's nonce.
    pub nonce: u64,
}

/// The parameters of a plan and how far it has gone.
pub struct PlanView {
    pub caller: Seq<u8>,
    pub recipient: Seq<u8>,
    pub contract: Seq<u8>,
    pub amount: nat,
    pub warmup: nat,
    pub iters: nat,
    /// How many transactions the plan has handed out.
    pub position: nat,
}

/// The number of transactions in the schedule.
pub open spec fn plan_len(p: PlanView) -> nat {
    p.warmup + p.iters + 3
}

/// The stage of the `k`-th transaction.
pub open spec fn stage_at(p: PlanView, k: nat) -> Stage {
    if k == 0 {
        Stage::Deposit
    } else if k <= p.warmup {
        Stage::Warmup
    } else if k <= p.warmup + p.iters {
        Stage::Timed
    } else if k == p.warmup + p.iters + 1 {
        Stage::QueryCaller
    } else {
        Stage::QueryRecipient
    }
}

/// The value deposited: `amount` times the number of transfers, wrapping at `2^256`.
pub open spec fn deposit_value(p: PlanView) -> nat {
    (p.amount * (p.warmup + p.iters)) % u256_modulus()
}

/// The calldata of the `k`-th transaction.
pub open spec fn data_at(p: PlanView, k: nat) -> Seq<u8> {
    match stage_at(p, k) {
        Stage::Deposit => deposit_calldata(),
        Stage::Warmup => transfer_calldata(p.recipient, p.amount),
        Stage::Timed => transfer_calldata(p.recipient, p.amount),
        Stage::QueryCaller => balance_of_calldata(p.caller),
        Stage::QueryRecipient => balance_of_calldata(p.recipient),
    }
}

/// The value sent with the `k`-th transaction.
pub open spec fn value_at(p: PlanView, k: nat) -> nat {
    if k == 0 {
        deposit_value(p)
    } else {
        0
    }
}

/// `r` is the `k`-th transaction of the plan.
pub open spec fn is_request(p: PlanView, k: nat, r: TxRequest) -> bool {
    &&& r.stage == stage_at(p, k)
    &&& r.caller@ == p.caller
    &&& r.contract@ == p.contract
    &&& r.data@ == data_at(p, k)
    &&& r.value@ == value_at(p, k)
    &&& r.gas_limit == GAS_LIMIT
    &&& r.gas_price == 0
    &&& r.nonce == k
}

/// The benchmark's schedule and how far it has gone.
pub struct BenchPlan {
    caller: Address,
    recipient: Address,
    contract: Address,
    amount: U256,
    warmup: u64,
    iters: u64,
    deposit: U256,
    next: u64,
    finished: bool,
}

impl View for BenchPlan {
    type V = PlanView;

    closed spec fn view(&self) -> PlanView {
        PlanView {
            caller: self.caller@,
            recipient: self.recipient@,
            contract: self.contract@,
            amount: self.amount@,
            warmup: self.warmup as nat,
            iters: self.iters as nat,
            position: if self.finished {
                plan_len(self.view_params())
            } else {
                self.next as nat
            },
        }
    }
}

impl BenchPlan {
    spec fn view_params(&self) -> PlanView {
        PlanView {
            caller: self.caller@,
            recipient: self.recipient@,
            contract: self.contract@,
            amount: self.amount@,
            warmup: self.warmup as nat,
            iters: self.iters as nat,
            position: 0,
        }
    }

    /// The plan's own invariant: the nonces fit in a `u64` and the deposit is computed.
    pub closed spec fn wf(&self) -> bool {
        &&& self.warmup + self.iters + 2 <= u64::MAX
        &&& self.next <= self.warmup + self.iters + 2
        &&& self.deposit@ == deposit_value(self@)
    }

    /// A plan that has handed out nothing yet. The last nonce, `warmup + iters + 2`,
    /// must fit in a `u64`.
    pub fn new(
        caller: Address,
        recipient: Address,
        contract: Address,
        amount: U256,
        warmup: u64,
        iters: u64,
    ) -> (p: BenchPlan)
        requires
            warmup + iters + 2 <= u64::MAX,
        ensures
            p.wf(),
            p@ == (PlanView {
                caller: caller@,
                recipient: recipient@,
                contract: contract@,
                amount: amount@,
                warmup: warmup as nat,
                iters: iters as nat,
                position: 0,
            }),
    {
        let transfers = U256::from_u64(warmup + iters);
        let deposit = amount.wrapping_mul(&transfers);
        BenchPlan {
            caller,
            recipient,
            contract,
            amount,
            warmup,
            iters,
            deposit,
            next: 0,
            finished: false,
        }
    }

    /// The value the `deposit()` sends, which is also the caller's starting balance:
    /// `amount` times the number of transfers, wrapping at `2^256`.
    pub fn deposit_value(&self) -> (r: U256)
        requires
            self.wf(),
        ensures
            r@ == deposit_value(self@),
    {
        self.deposit
    }

    /// The next transaction, or `None` once all `plan_len` have been handed out.
    pub fn next_tx(&mut self) -> (r: Option<TxRequest>)
        requires
            old(self).wf(),
        ensures
            final(self).wf(),
            old(self)@.position <= plan_len(old(self)@),
            old(self)@.position < plan_len(old(self)@) ==> {
                &&& r matches Some(req)
                &&& is_request(old(self)@, old(self)@.position, req)
                &&& final(self)@ == (PlanView { position: old(self)@.position + 1, ..old(self)@ })
                &&& req.nonce == old(self)@.position
                &&& req.caller@ == old(self)@.caller
                &&& req.contract@ == old(self)@.contract
                &&& req.gas_limit == 30_000_000
                &&& req.gas_price == 0
                &&& old(self)@.position == 0 ==> req.value@ == (old(self)@.amount * (old(self)@.warmup
                    + old(self)@.iters)) % u256_modulus()
                &&& old(self)@.position > 0 ==> req.value@ == 0
                &&& old(self)@.position == 0 ==> req.stage == Stage::Deposit && req.data@
                    == deposit_calldata()
                &&& 1 <= old(self)@.position <= old(self)@.warmup + old(self)@.iters ==> req.data@
                    == transfer_calldata(old(self)@.recipient, old(self)@.amount)
                &&& old(self)@.position == old(self)@.warmup + old(self)@.iters + 1 ==> req.stage
                    == Stage::QueryCaller && req.data@ == balance_of_calldata(old(self)@.caller)
                &&& old(self)@.position == old(self)@.warmup + old(self)@.iters + 2 ==> req.stage
                    == Stage::QueryRecipient && req.data@ == balance_of_calldata(
                    old(self)@.recipient,
                )
            },
            old(self)@.position == plan_len(old(self)@) ==> {
                &&& r is None
                &&& final(self)@ == old(self)@
            },
    {
        if self.finished {
            return None;
        }
        let k = self.next;
        let transfers_end = self.warmup + self.iters;
        let (stage, data, value) = if k == 0 {
            (Stage::Deposit, encode_deposit(), self.deposit)
        } else if k <= self.warmup {
            (Stage::Warmup, encode_transfer(self.recipient, self.amount), U256::zero())
        } else if k <= transfers_end {
            (Stage::Timed, encode_transfer(self.recipient, self.amount), U256::zero())
        } else if k == transfers_end + 1 {
            (Stage::QueryCaller, encode_balance_of(self.caller), U256::zero())
        } else {
            (Stage::QueryRecipient, encode_balance_of(self.recipient), U256::zero())
        };
        let req = TxRequest {
            stage,
            caller: self.caller,
            contract: self.contract,
            data,
            value,
            gas_limit: GAS_LIMIT,
            gas_price: 0,
            nonce: k,
        };
        if k == transfers_end + 2 {
            self.finished = true;
        } else {
            self.next = k + 1;
        }
        Some(req)
    }
}

/// The position of a stage in the schedule's order.
pub open spec fn stage_rank(s: Stage) -> nat {
    match s {
        Stage::Deposit => 0,
        Stage::Warmup => 1,
        Stage::Timed => 2,
        Stage::QueryCaller => 3,
        Stage::QueryRecipient => 4,
    }
}

/// The stage of a transfer of `amount` to the recipient.
pub open spec fn is_transfer(s: Stage) -> bool {
    s == Stage::Warmup || s == Stage::Timed
}

/// How many of the first `n` transactions are transfers.
pub open spec fn transfers_in(p: PlanView, n: nat) -> nat
    decreases n,
{
    if n == 0 {
        0
    } else {
        transfers_in(p, (n - 1) as nat) + if is_transfer(stage_at(p, (n - 1) as nat)) {
            1nat
        } else {
            0nat
        }
    }
}

/// How many of the first `n` transactions are timed transfers.
pub open spec fn timed_in(p: PlanView, n: nat) -> nat
    decreases n,
{
    if n == 0 {
        0
    } else {
        timed_in(p, (n - 1) as nat) + if stage_at(p, (n - 1) as nat) == Stage::Timed {
            1nat
        } else {
            0nat
        }
    }
}

/// The stages come in order: the deposit, the warm-up transfers, the timed transfers,
/// the query for the caller, the query for the recipient.
pub proof fn lemma_stage_order(p: PlanView, j: nat, k: nat)
    requires
        j <= k,
    ensures
        stage_rank(stage_at(p, j)) <= stage_rank(stage_at(p, k)),
        stage_at(p, 0) == Stage::Deposit,
        stage_at(p, (plan_len(p) - 2) as nat) == Stage::QueryCaller,
        stage_at(p, (plan_len(p) - 1) as nat) == Stage::QueryRecipient,
{
}

proof fn lemma_counts_prefix(p: PlanView, n: nat)
    ensures
        transfers_in(p, n) == if n == 0 {
            0
        } else if n - 1 <= p.warmup + p.iters {
            (n - 1) as nat
        } else {
            p.warmup + p.iters
        },
        timed_in(p, n) == if n <= p.warmup + 1 {
            0
        } else if n - 1 <= p.warmup + p.iters {
            (n - 1 - p.warmup) as nat
        } else {
            p.iters
        },
    decreases n,
{
    if n > 0 {
        lemma_counts_prefix(p, (n - 1) as nat);
    }
}

/// The schedule makes `warmup + iters` transfers, `iters` of them timed.
pub proof fn lemma_transfer_counts(p: PlanView)
    ensures
        transfers_in(p, plan_len(p)) == p.warmup + p.iters,
        timed_in(p, plan_len(p)) == p.iters,
{
    lemma_counts_prefix(p, plan_len(p));
}

/// The deposit funds exactly the transfers: where `amount` times the number of transfers
/// stays below `2^256`, the value deposited is the sum of the amounts transferred, and no
/// other transaction sends value.
pub proof fn lemma_deposit_funds_transfers(p: PlanView, k: nat)
    requires
        p.amount * (p.warmup + p.iters) < u256_modulus(),
    ensures
        value_at(p, 0) == p.amount * transfers_in(p, plan_len(p)),
        k > 0 ==> value_at(p, k) == 0,
        is_transfer(stage_at(p, k)) ==> data_at(p, k) == transfer_calldata(p.recipient, p.amount),
{
    lemma_transfer_counts(p);
    assert(((p.amount * (p.warmup + p.iters)) as nat) % u256_modulus() == p.amount * (p.warmup
        + p.iters)) by {
        vstd::arithmetic::div_mod::lemma_small_mod(
            (p.amount * (p.warmup + p.iters)) as nat,
            u256_modulus(),
        );
    }
}


/// What each transaction of the schedule calls: the first is `deposit()`, every
/// transfer is `transfer(recipient, amount)`, the next-to-last asks `balanceOf(caller)`
/// and the last asks `balanceOf(recipient)`. Byte for byte: selector, then the
/// 12 zero bytes and the address or amount words.
pub proof fn lemma_schedule_calldata(p: PlanView, k: nat)
    ensures
        data_at(p, 0) == deposit_calldata(),
        data_at(p, 0) == deposit_selector(),
        1 <= k <= p.warmup + p.iters ==> data_at(p, k) == transfer_calldata(p.recipient, p.amount),
        1 <= k <= p.warmup + p.iters ==> data_at(p, k) == transfer_selector() + zeros(12)
            + p.recipient + uint_word(p.amount),
        data_at(p, (plan_len(p) - 2) as nat) == balance_of_calldata(p.caller),
        data_at(p, (plan_len(p) - 2) as nat) == balance_of_selector() + zeros(12) + p.caller,
        data_at(p, (plan_len(p) - 1) as nat) == balance_of_calldata(p.recipient),
        data_at(p, (plan_len(p) - 1) as nat) == balance_of_selector() + zeros(12) + p.recipient,
        stage_at(p, (plan_len(p) - 2) as nat) == Stage::QueryCaller,
        stage_at(p, (plan_len(p) - 1) as nat) == Stage::QueryRecipient,
{
    assert(address_word(p.caller) == zeros(12) + p.caller);
}


/// Only the first transaction sends value, and it sends `amount` times the number of
/// transfers (`warmup + iters`), wrapping at `2^256`.
pub proof fn lemma_schedule_values(p: PlanView, k: nat)
    ensures
        value_at(p, 0) == (p.amount * (p.warmup + p.iters)) % u256_modulus(),
        k > 0 ==> value_at(p, k) == 0,
        stage_at(p, 0) == Stage::Deposit,
        1 <= k <= p.warmup ==> stage_at(p, k) == Stage::Warmup,
        p.warmup < k <= p.warmup + p.iters ==> stage_at(p, k) == Stage::Timed,
{
}

} // verus!
