use starcoin_gas::errors::{Location, PartialVMError, StatusCode, VMError};
use starcoin_gas::meter::StarcoinGasMeter;
use starcoin_gas::params::{SimpleInstruction, StarcoinGasParameters};
use starcoin_gas::units::{AbstractMemorySize, Gas, InternalGas, NumArgs, NumBytes};

fn out_of_gas() -> PartialVMError {
    PartialVMError { major_status: StatusCode::OutOfGas }
}

fn meter_with(params: StarcoinGasParameters, balance: u64) -> StarcoinGasMeter {
    StarcoinGasMeter::new(params, Gas(balance))
}

#[test]
fn underflow_empties_the_balance() {
    let mut m = meter_with(StarcoinGasParameters::initial(), 5);
    assert_eq!(m.internal_balance(), InternalGas(5));
    assert_eq!(m.deduct_gas(InternalGas(10)), Err(out_of_gas()));
    assert_eq!(m.internal_balance(), InternalGas(0));
    assert_eq!(m.balance(), Gas(0));
}

#[test]
fn exact_exhaustion_then_failure() {
    let mut m = meter_with(StarcoinGasParameters::initial(), 10);
    assert_eq!(m.deduct_gas(InternalGas(10)), Ok(()));
    assert_eq!(m.internal_balance(), InternalGas(0));
    assert_eq!(m.deduct_gas(InternalGas(1)), Err(out_of_gas()));
    assert_eq!(m.deduct_gas(InternalGas(0)), Ok(()));
    assert_eq!(m.internal_balance(), InternalGas(0));
}

#[test]
fn disabled_metering_bypass() {
    let mut m = meter_with(StarcoinGasParameters::initial(), 5);
    m.set_metering(false);
    assert_eq!(m.deduct_gas(InternalGas(1_000_000)), Ok(()));
    assert_eq!(m.internal_balance(), InternalGas(5));
    m.set_metering(true);
    assert_eq!(m.deduct_gas(InternalGas(3)), Ok(()));
    assert_eq!(m.internal_balance(), InternalGas(2));
}

#[test]
fn deductions_clamp_at_zero() {
    let mut m = meter_with(StarcoinGasParameters::initial(), 100);
    let mut expected: u64 = 100;
    for amount in [30u64, 0, 50, 25, 7, 0] {
        let r = m.deduct_gas(InternalGas(amount));
        assert_eq!(r.is_ok(), amount <= expected);
        expected = expected.saturating_sub(amount);
        assert_eq!(m.internal_balance(), InternalGas(expected));
    }
}

#[test]
fn call_cost_formula() {
    let mut params = StarcoinGasParameters::zeros();
    params.txn.gas_unit_scaling_factor = 1;
    params.instr.call_per_arg = 2;
    params.instr.call_generic_per_arg = 3;
    let mut m = meter_with(params, 100);
    assert_eq!(m.charge_call(NumArgs(3)), Ok(()));
    assert_eq!(m.internal_balance(), InternalGas(92));
    assert_eq!(m.charge_call_generic(NumArgs(1), NumArgs(2)), Ok(()));
    assert_eq!(m.internal_balance(), InternalGas(80));
}

#[test]
fn move_from_absent_resource_is_free() {
    let mut params = StarcoinGasParameters::initial();
    params.instr.move_from_per_abs_mem_unit = 1_000;
    params.instr.move_from_generic_per_abs_mem_unit = 1_000;
    let mut m = meter_with(params, 50);
    assert_eq!(m.charge_move_from(false, None), Ok(()));
    assert_eq!(m.charge_move_from(true, None), Ok(()));
    assert_eq!(m.internal_balance(), InternalGas(50));
    assert_eq!(m.charge_move_from(false, Some(AbstractMemorySize(1))), Err(out_of_gas()));
    assert_eq!(m.internal_balance(), InternalGas(0));
}

#[test]
fn zero_schedule_is_free() {
    let mut m = meter_with(StarcoinGasParameters::zeros(), 0);
    let big = AbstractMemorySize(u64::MAX);
    assert_eq!(m.charge_simple_instr(SimpleInstruction::Ret), Ok(()));
    assert_eq!(m.charge_call(NumArgs(u64::MAX)), Ok(()));
    assert_eq!(m.charge_call_generic(NumArgs(9), NumArgs(9)), Ok(()));
    assert_eq!(m.charge_ld_const(NumBytes(1 << 40)), Ok(()));
    assert_eq!(m.charge_copy_loc(big), Ok(()));
    assert_eq!(m.charge_move_loc(big), Ok(()));
    assert_eq!(m.charge_store_loc(big), Ok(()));
    assert_eq!(m.charge_pack(true, &vec![big, big]), Ok(()));
    assert_eq!(m.charge_unpack(false, &vec![big]), Ok(()));
    assert_eq!(m.charge_read_ref(big), Ok(()));
    assert_eq!(m.charge_write_ref(big), Ok(()));
    assert_eq!(m.charge_eq(big, big), Ok(()));
    assert_eq!(m.charge_neq(big, big), Ok(()));
    assert_eq!(m.charge_borrow_global(true, true, false), Ok(()));
    assert_eq!(m.charge_exists(false, false), Ok(()));
    assert_eq!(m.charge_move_from(true, Some(big)), Ok(()));
    assert_eq!(m.charge_move_to(false, big, true), Ok(()));
    assert_eq!(m.charge_vec_pack(NumArgs(1000)), Ok(()));
    assert_eq!(m.charge_vec_len(), Ok(()));
    assert_eq!(m.charge_vec_borrow(true, true), Ok(()));
    assert_eq!(m.charge_vec_push_back(big), Ok(()));
    assert_eq!(m.charge_vec_pop_back(), Ok(()));
    assert_eq!(m.charge_vec_unpack(NumArgs(1000)), Ok(()));
    assert_eq!(m.charge_vec_swap(), Ok(()));
    assert_eq!(m.charge_load_resource(Some(NumBytes(10))), Ok(()));
    assert_eq!(m.charge_intrinsic_gas_for_transaction(NumBytes(5000)), Ok(()));
    assert_eq!(m.internal_balance(), InternalGas(0));
}

fn spent(params: &StarcoinGasParameters, f: impl FnOnce(&mut StarcoinGasMeter)) -> u64 {
    let mut m = meter_with(params.clone(), 1_000_000);
    f(&mut m);
    1_000_000 - m.internal_balance().0
}

#[test]
fn charge_formulas_use_initial_rates() {
    let p = StarcoinGasParameters::initial();
    assert_eq!(spent(&p, |m| m.charge_simple_instr(SimpleInstruction::Ret).unwrap()), 638);
    assert_eq!(spent(&p, |m| m.charge_simple_instr(SimpleInstruction::Div).unwrap()), 3);
    assert_eq!(spent(&p, |m| m.charge_call(NumArgs(2)).unwrap()), 1132 * 3);
    assert_eq!(spent(&p, |m| m.charge_call_generic(NumArgs(1), NumArgs(1)).unwrap()), 582 * 3);
    assert_eq!(spent(&p, |m| m.charge_ld_const(NumBytes(16)).unwrap()), 16);
    assert_eq!(spent(&p, |m| m.charge_pack(false, &vec![AbstractMemorySize(40), AbstractMemorySize(8)]).unwrap()), 2 * 50);
    assert_eq!(spent(&p, |m| m.charge_unpack(true, &vec![]).unwrap()), 0);
    assert_eq!(spent(&p, |m| m.charge_eq(AbstractMemorySize(3), AbstractMemorySize(4)).unwrap()), 7);
    assert_eq!(spent(&p, |m| m.charge_neq(AbstractMemorySize(3), AbstractMemorySize(4)).unwrap()), 7);
    assert_eq!(spent(&p, |m| m.charge_borrow_global(false, false, true).unwrap()), 23);
    assert_eq!(spent(&p, |m| m.charge_borrow_global(false, true, true).unwrap()), 14);
    assert_eq!(spent(&p, |m| m.charge_borrow_global(true, false, false).unwrap()), 21);
    assert_eq!(spent(&p, |m| m.charge_borrow_global(true, true, false).unwrap()), 15);
    assert_eq!(spent(&p, |m| m.charge_exists(false, true).unwrap()), 41 * 8);
    assert_eq!(spent(&p, |m| m.charge_exists(false, false).unwrap()), 41 * 100);
    assert_eq!(spent(&p, |m| m.charge_exists(true, false).unwrap()), 34 * 100);
    assert_eq!(spent(&p, |m| m.charge_move_from(false, Some(AbstractMemorySize(2))).unwrap()), 918);
    assert_eq!(spent(&p, |m| m.charge_move_to(true, AbstractMemorySize(2), false).unwrap()), 54);
    assert_eq!(spent(&p, |m| m.charge_vec_pack(NumArgs(3)).unwrap()), 252);
    assert_eq!(spent(&p, |m| m.charge_vec_len().unwrap()), 98);
    assert_eq!(spent(&p, |m| m.charge_vec_borrow(false, true).unwrap()), 1334);
    assert_eq!(spent(&p, |m| m.charge_vec_borrow(true, true).unwrap()), 1902);
    assert_eq!(spent(&p, |m| m.charge_vec_push_back(AbstractMemorySize(2)).unwrap()), 106);
    assert_eq!(spent(&p, |m| m.charge_vec_pop_back().unwrap()), 227);
    assert_eq!(spent(&p, |m| m.charge_vec_unpack(NumArgs(2)).unwrap()), 1144);
    assert_eq!(spent(&p, |m| m.charge_vec_swap().unwrap()), 1436);
    assert_eq!(spent(&p, |m| m.charge_load_resource(Some(NumBytes(99))).unwrap()), 0);
    assert_eq!(spent(&p, |m| m.charge_native_function(InternalGas(77)).unwrap()), 77);
    assert_eq!(spent(&p, |m| m.charge_copy_loc(AbstractMemorySize(5)).unwrap()), 5);
    assert_eq!(spent(&p, |m| m.charge_move_loc(AbstractMemorySize(5)).unwrap()), 5);
    assert_eq!(spent(&p, |m| m.charge_store_loc(AbstractMemorySize(5)).unwrap()), 5);
    assert_eq!(spent(&p, |m| m.charge_read_ref(AbstractMemorySize(5)).unwrap()), 5);
    assert_eq!(spent(&p, |m| m.charge_write_ref(AbstractMemorySize(5)).unwrap()), 5);
}

#[test]
fn intrinsic_charge_and_its_failure() {
    let p = StarcoinGasParameters::initial();
    assert_eq!(spent(&p, |m| m.charge_intrinsic_gas_for_transaction(NumBytes(100)).unwrap()), 600 + 8 * 100);
    let mut m = meter_with(p, 1000);
    assert_eq!(
        m.charge_intrinsic_gas_for_transaction(NumBytes(100)),
        Err(VMError { major_status: StatusCode::OutOfGas, location: Location::Undefined })
    );
    assert_eq!(m.internal_balance(), InternalGas(0));
}

#[test]
fn write_set_cost_is_a_query() {
    let m = meter_with(StarcoinGasParameters::initial(), 1000);
    assert_eq!(m.cal_write_set_gas(), InternalGas(9 * 800));
    assert_eq!(m.internal_balance(), InternalGas(1000));
}

#[test]
fn balance_converts_by_the_scale_factor() {
    let mut p = StarcoinGasParameters::initial();
    p.txn.gas_unit_scaling_factor = 1000;
    let mut m = meter_with(p, 7);
    assert_eq!(m.internal_balance(), InternalGas(7000));
    assert_eq!(m.deduct_gas(InternalGas(1)), Ok(()));
    assert_eq!(m.balance(), Gas(6));
    let z = meter_with(StarcoinGasParameters::zeros(), 7);
    assert_eq!(z.internal_balance(), InternalGas(0));
    assert_eq!(z.balance(), Gas(0));
}

#[test]
fn costs_saturate_instead_of_wrapping() {
    let mut m = meter_with(StarcoinGasParameters::initial(), u64::MAX);
    assert_eq!(m.charge_copy_loc(AbstractMemorySize(u64::MAX)), Ok(()));
    assert_eq!(m.internal_balance(), InternalGas(0));
}
