use standalone_wbnb_handler_bench::address::Address;
use standalone_wbnb_handler_bench::bench::{BenchPlan, Stage, GAS_LIMIT};
use standalone_wbnb_handler_bench::calldata::{encode_balance_of, encode_deposit, encode_transfer};
use standalone_wbnb_handler_bench::u256::U256;

fn addr(last: u8) -> Address {
    let mut bytes = [0u8; 20];
    bytes[19] = last;
    Address::new(bytes)
}

#[test]
fn full_schedule() {
    let (from, to, contract) = (addr(0xa0), addr(0xef), addr(0x99));
    let amount = U256::from_u64(3);
    let mut plan = BenchPlan::new(from, to, contract, amount, 2, 3);
    assert_eq!(plan.deposit_value().limbs, [15, 0, 0, 0]);
    let mut stages = Vec::new();
    let mut nonce = 0u64;
    while let Some(tx) = plan.next_tx() {
        assert_eq!(tx.nonce, nonce);
        assert_eq!(tx.caller.bytes, from.bytes);
        assert_eq!(tx.contract.bytes, contract.bytes);
        assert_eq!(tx.gas_limit, GAS_LIMIT);
        assert_eq!(tx.gas_limit, 30_000_000);
        assert_eq!(tx.gas_price, 0);
        match tx.stage {
            Stage::Deposit => {
                assert_eq!(tx.data, encode_deposit());
                assert_eq!(tx.value.limbs, [15, 0, 0, 0]);
            }
            Stage::Warmup | Stage::Timed => {
                assert_eq!(tx.data, encode_transfer(to, amount));
                assert_eq!(tx.value.limbs, [0, 0, 0, 0]);
            }
            Stage::QueryCaller => assert_eq!(tx.data, encode_balance_of(from)),
            Stage::QueryRecipient => assert_eq!(tx.data, encode_balance_of(to)),
        }
        stages.push(tx.stage);
        nonce += 1;
    }
    assert_eq!(
        stages,
        vec![
            Stage::Deposit,
            Stage::Warmup,
            Stage::Warmup,
            Stage::Timed,
            Stage::Timed,
            Stage::Timed,
            Stage::QueryCaller,
            Stage::QueryRecipient,
        ]
    );
    assert!(plan.next_tx().is_none());
    assert!(plan.next_tx().is_none());
}

#[test]
fn schedule_without_transfers() {
    let mut plan = BenchPlan::new(addr(1), addr(2), addr(3), U256::from_u64(1), 0, 0);
    assert_eq!(plan.deposit_value().limbs, [0, 0, 0, 0]);
    let stages: Vec<Stage> = std::iter::from_fn(|| plan.next_tx().map(|t| t.stage)).collect();
    assert_eq!(stages, vec![Stage::Deposit, Stage::QueryCaller, Stage::QueryRecipient]);
}

#[test]
fn deposit_of_the_default_run() {
    let plan = BenchPlan::new(addr(1), addr(2), addr(3), U256::from_u64(1), 100, 5000);
    assert_eq!(plan.deposit_value().limbs, [5100, 0, 0, 0]);
}

#[test]
fn deposit_wraps_at_two_to_the_256() {
    let half = U256 { limbs: [0, 0, 0, 1 << 63] };
    let plan = BenchPlan::new(addr(1), addr(2), addr(3), half, 0, 2);
    assert_eq!(plan.deposit_value().limbs, [0, 0, 0, 0]);
}

#[test]
fn last_nonce_at_the_limit() {
    let mut plan = BenchPlan::new(addr(1), addr(2), addr(3), U256::from_u64(0), u64::MAX - 2, 0);
    let first = plan.next_tx().unwrap();
    assert_eq!(first.nonce, 0);
    assert_eq!(first.stage, Stage::Deposit);
    let second = plan.next_tx().unwrap();
    assert_eq!(second.nonce, 1);
    assert_eq!(second.stage, Stage::Warmup);
}
