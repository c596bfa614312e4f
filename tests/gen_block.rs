use starcoin_gas::gen_block::{
    GenBlockAction, GenBlockCommand, GenBlockOpt, GenBlockState, GEN_BLOCK_ROUNDS,
};

#[test]
fn refuses_other_networks() {
    let c = GenBlockCommand;
    assert_eq!(c.check_network(true), Ok(()));
    assert_eq!(
        c.check_network(false),
        Err("Only dev network support this command".to_string())
    );
}

#[test]
fn runs_every_round_and_unlocks_every_fiftieth() {
    let _opt = GenBlockOpt {};
    let c = GenBlockCommand;
    let mut s = c.start();
    let mut executed: u64 = 0;
    let mut unlocks: u64 = 0;
    let mut first_unlock_after: Option<u64> = None;
    loop {
        let (next, action) = c.step(s);
        match action {
            GenBlockAction::Finish => break,
            GenBlockAction::UnlockAccount => {
                unlocks += 1;
                if first_unlock_after.is_none() {
                    first_unlock_after = Some(executed);
                }
            }
            GenBlockAction::ExecuteTransaction => executed += 1,
        }
        s = next;
    }
    assert_eq!(executed, GEN_BLOCK_ROUNDS);
    assert_eq!(executed, 12000);
    assert_eq!(unlocks, 240);
    assert_eq!(first_unlock_after, Some(49));
    assert_eq!(c.step(s), (s, GenBlockAction::Finish));
}

#[test]
fn unlock_comes_once_before_its_round() {
    let c = GenBlockCommand;
    let s = GenBlockState { round: 50, unlocked: false };
    let (s1, a1) = c.step(s);
    assert_eq!(a1, GenBlockAction::UnlockAccount);
    let (s2, a2) = c.step(s1);
    assert_eq!(a2, GenBlockAction::ExecuteTransaction);
    assert_eq!(s2, GenBlockState { round: 51, unlocked: false });
}
