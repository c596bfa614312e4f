use starcoin_gas::params::{
    InstructionGasParameters, MiscGasParameters, NativeGasParameters, StarcoinGasParameters,
    TransactionGasParameters,
};
use starcoin_gas::schedule::{decode_group, encode_group, find_value, ScheduleEntry};

fn entry(name: &str, value: u64) -> ScheduleEntry {
    (name.to_string(), value)
}

fn full_schedule(p: &StarcoinGasParameters) -> Vec<ScheduleEntry> {
    let mut s = p.to_on_chain_gas_schedule();
    p.misc.append_on_chain_gas_schedule(&mut s);
    s
}

#[test]
fn initial_schedule_round_trips() {
    let p = StarcoinGasParameters::initial();
    let written = p.to_on_chain_gas_schedule();
    let back = StarcoinGasParameters::from_on_chain_gas_schedule(&full_schedule(&p)).unwrap();
    assert_eq!(back.to_on_chain_gas_schedule(), written);
    assert_eq!(back, p);
}

#[test]
fn round_trip_ignores_entry_order() {
    let p = StarcoinGasParameters::initial();
    let mut s = full_schedule(&p);
    s.reverse();
    let back = StarcoinGasParameters::from_on_chain_gas_schedule(&s).unwrap();
    assert_eq!(back, p);
}

#[test]
fn written_schedule_lacks_misc_group() {
    let p = StarcoinGasParameters::initial();
    let written = p.to_on_chain_gas_schedule();
    assert!(written.iter().all(|(n, _)| !n.starts_with("misc.")));
    assert_eq!(StarcoinGasParameters::from_on_chain_gas_schedule(&written), None);
}

#[test]
fn schedule_order_and_names() {
    let p = StarcoinGasParameters::initial();
    let s = p.to_on_chain_gas_schedule();
    let n_instr = InstructionGasParameters::COUNT;
    let n_txn = TransactionGasParameters::COUNT;
    assert_eq!(s[0], entry("instr.abort", 1));
    assert_eq!(s[n_instr - 1], entry("instr.xor", 1));
    assert_eq!(s[n_instr], entry("txn.default_account_size", 800));
    assert_eq!(s[n_instr + n_txn], entry("move_stdlib.bcs.to_bytes.failure", 1000));
    assert_eq!(s.last().unwrap(), &entry("table.remove_box.base", 24));
    assert_eq!(
        s.len(),
        n_instr + n_txn + p.natives.to_on_chain_gas_schedule().len()
    );
    assert!(s.contains(&entry("instr.call_per_arg", 1132)));
    assert!(s.contains(&entry("instr.mod", 1)));
    assert!(s.contains(&entry("nursery.debug.print.base_cost", 1)));
    assert!(s.contains(&entry("starcoin_natives.token.name_of.base", 2002)));
}

#[test]
fn missing_name_fails_closed() {
    let p = StarcoinGasParameters::initial();
    let mut s = full_schedule(&p);
    s.retain(|(n, _)| n != "txn.min_transaction_gas_units");
    assert_eq!(StarcoinGasParameters::from_on_chain_gas_schedule(&s), None);
    assert_eq!(TransactionGasParameters::from_on_chain_gas_schedule(&s), None);
    assert!(InstructionGasParameters::from_on_chain_gas_schedule(&s).is_some());
}

#[test]
fn missing_native_name_fails_natives() {
    let p = StarcoinGasParameters::initial();
    let mut s = full_schedule(&p);
    s.retain(|(n, _)| n != "table.new_table_handle.base");
    assert_eq!(NativeGasParameters::from_on_chain_gas_schedule(&s), None);
    assert_eq!(StarcoinGasParameters::from_on_chain_gas_schedule(&s), None);
}

#[test]
fn decode_reads_values_by_name() {
    let mut p = StarcoinGasParameters::initial();
    p.instr.call_per_arg = 2;
    p.txn.gas_unit_scaling_factor = 1000;
    p.misc.reference = 9;
    p.natives.table.add_box_base = 77;
    let back = StarcoinGasParameters::from_on_chain_gas_schedule(&full_schedule(&p)).unwrap();
    assert_eq!(back.instr.call_per_arg, 2);
    assert_eq!(back.txn.gas_unit_scaling_factor, 1000);
    assert_eq!(back.misc.reference, 9);
    assert_eq!(back.natives.table.add_box_base, 77);
}

#[test]
fn first_entry_of_a_name_wins() {
    let s = vec![entry("a.x", 1), entry("a.y", 2), entry("a.x", 3)];
    assert_eq!(find_value(&s, &"a.x".to_string()), Some(1));
    assert_eq!(find_value(&s, &"a.y".to_string()), Some(2));
    assert_eq!(find_value(&s, &"a.z".to_string()), None);
    assert_eq!(find_value(&vec![], &"a.x".to_string()), None);
}

#[test]
fn generic_group_codec() {
    let fields = vec!["x", "y"];
    let mut out = vec![entry("other", 5)];
    encode_group("g.", &fields, &vec![10, 20], &mut out);
    assert_eq!(out, vec![entry("other", 5), entry("g.x", 10), entry("g.y", 20)]);
    assert_eq!(decode_group(&out, "g.", &fields), Some(vec![10, 20]));
    assert_eq!(decode_group(&out, "h.", &fields), None);
    assert_eq!(decode_group(&out, "g.", &vec![]), Some(vec![]));
}

#[test]
fn zeros_are_all_zero() {
    let z = StarcoinGasParameters::zeros();
    assert!(z.to_on_chain_gas_schedule().iter().all(|(_, v)| *v == 0));
    assert!(z.misc.to_on_chain_gas_schedule().iter().all(|(_, v)| *v == 0));
    assert_eq!(z.natives, NativeGasParameters::zeros());
}

#[test]
fn initial_values_are_the_defaults() {
    let p = StarcoinGasParameters::initial();
    assert_eq!(p.instr.ret, 638);
    assert_eq!(p.instr.vec_swap_base, 1436);
    assert_eq!(p.txn.min_transaction_gas_units, 600);
    assert_eq!(p.txn.gas_unit_scaling_factor, 1);
    assert_eq!(p.misc.reference, 8);
    assert_eq!(p.misc, MiscGasParameters::initial());
    assert_eq!(
        p.instr.to_values().len(),
        InstructionGasParameters::COUNT
    );
    assert_eq!(InstructionGasParameters::from_values(&p.instr.to_values()), p.instr);
}
