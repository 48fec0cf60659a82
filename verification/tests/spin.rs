use spin_wheel::{
    add_item, initialize, set_item, set_settinginfo, spin_wheel, spin_wheel_at, AdminInfo,
    Identity, Initialize, ItemRewardMints, PlayGame, Pool, SetSettingInfo, SettingInfo, SpinError,
    SpinItemList, SpinWheel, UserPendingClaimState, UserState,
};

fn id(byte: u8) -> Identity {
    Identity { bytes: [byte; 32] }
}

fn mints(list: &[u8]) -> [Identity; 10] {
    let mut all = [Identity::default(); 10];
    for (i, m) in list.iter().enumerate() {
        all[i] = id(*m);
    }
    all
}

fn wheel_with(slots: &[(&[u8], u32, u64)]) -> SpinItemList {
    let mut ctx = SpinWheel { state: SpinItemList::default() };
    for (list, ratio, amount) in slots.iter() {
        add_item(&mut ctx, mints(list), list.len() as u8, 0, *ratio, *amount).unwrap();
    }
    ctx.state
}

fn game(user: Identity, state: SpinItemList, user_state: UserState) -> PlayGame {
    PlayGame { user, state, user_state, user_pendingstate: UserPendingClaimState::default() }
}

#[test]
fn initialize_names_the_super_admin_and_empties_the_records() {
    let mut used = SpinItemList::default();
    used.add_spinitem(ItemRewardMints::default(), 1, 2, 3).unwrap();
    let mut admins = AdminInfo::default();
    admins.add_admin(id(5)).unwrap();
    let mut ctx = Initialize {
        initializer: id(1),
        pool: Pool { superadmin: id(9), bump: 3 },
        super_admin: id(2),
        state: used,
        setting_info: SettingInfo { payment_token: id(4), payment_amount: 5, payment_solamount: 6 },
        admin_info: admins,
    };
    assert_eq!(initialize(&mut ctx, 254), Ok(()));
    assert_eq!(ctx.pool, Pool { superadmin: id(2), bump: 254 });
    assert_eq!(ctx.state, SpinItemList::default());
    assert_eq!(ctx.setting_info, SettingInfo::default());
    assert_eq!(ctx.admin_info, AdminInfo::default());
    assert_eq!(ctx.initializer, id(1));
    assert_eq!(ctx.super_admin, id(2));
}

#[test]
fn add_item_takes_the_first_count_mints_as_rewards() {
    let mut ctx = SpinWheel { state: SpinItemList::default() };
    assert_eq!(add_item(&mut ctx, mints(&[1, 2, 3]), 2, 7, 40_000, 11), Ok(()));
    assert_eq!(ctx.state.count, 1);
    assert_eq!(ctx.state.reward_mint_list[0].count, 2);
    assert_eq!(ctx.state.reward_mint_list[0].item_mint_list, mints(&[1, 2, 3]));
    assert_eq!(ctx.state.token_type_list[0], 7);
    assert_eq!(ctx.state.ratio_list[0], 40_000);
    assert_eq!(ctx.state.amount_list[0], 11);
}

#[test]
fn add_item_refuses_a_sixteenth_slot() {
    let mut ctx = SpinWheel { state: SpinItemList::default() };
    let mut i: u8 = 0;
    while i < 15 {
        assert_eq!(add_item(&mut ctx, mints(&[i]), 1, 0, 100, 1), Ok(()));
        i += 1;
    }
    assert_eq!(ctx.state.count, 15);
    let before = ctx;
    assert_eq!(add_item(&mut ctx, mints(&[1]), 1, 0, 100, 1), Err(SpinError::CountOverflowAddItem));
    assert_eq!(ctx, before);
}

#[test]
fn set_item_writes_a_slot_and_refuses_index_15() {
    let mut ctx = SpinWheel { state: SpinItemList::default() };
    assert_eq!(set_item(&mut ctx, 4, mints(&[8]), 1, 2, 3, 4), Ok(()));
    assert_eq!(ctx.state.count, 5);
    assert_eq!(ctx.state.ratio_list[4], 3);
    assert_eq!(ctx.state.amount_list[4], 4);
    assert_eq!(set_item(&mut ctx, 1, mints(&[8]), 1, 2, 3, 4), Ok(()));
    assert_eq!(ctx.state.count, 5);
    let before = ctx;
    assert_eq!(
        set_item(&mut ctx, 15, mints(&[8]), 1, 2, 3, 4),
        Err(SpinError::IndexOverflowSetItem)
    );
    assert_eq!(ctx, before);
}

#[test]
fn set_settinginfo_stores_the_token_and_the_prices() {
    let mut ctx = SetSettingInfo { setting_info: SettingInfo::default(), payment_token: id(6) };
    assert_eq!(set_settinginfo(&mut ctx, 1_000, 2_000_000), Ok(()));
    assert_eq!(
        ctx.setting_info,
        SettingInfo { payment_token: id(6), payment_amount: 1_000, payment_solamount: 2_000_000 }
    );
    assert_eq!(ctx.payment_token, id(6));
}

#[test]
fn first_spin_claims_the_user_record_and_counts_one() {
    let state = wheel_with(&[(&[1], 100_000, 5)]);
    let mut ctx = game(id(10), state, UserState::default());
    assert_eq!(spin_wheel_at(&mut ctx, 1_700_000_000, 3, 1), Ok(0));
    assert_eq!(ctx.user_state, UserState { is_initialized: true, user: id(10), round_num: 1 });
}

#[test]
fn second_spin_of_the_same_user_counts_two() {
    let state = wheel_with(&[(&[1], 100_000, 5)]);
    let mut ctx = game(id(10), state, UserState::default());
    assert_eq!(spin_wheel_at(&mut ctx, 1_700_000_000, 3, 1), Ok(0));
    let mut next = game(id(10), ctx.state, ctx.user_state);
    assert_eq!(spin_wheel_at(&mut next, 1_700_000_060, 4, 2), Ok(0));
    assert_eq!(next.user_state, UserState { is_initialized: true, user: id(10), round_num: 2 });
    assert_eq!(next.user_pendingstate.round_num, 2);
}

#[test]
fn spin_by_another_identity_is_refused_and_changes_nothing() {
    let state = wheel_with(&[(&[1], 100_000, 5)]);
    let owned = UserState { is_initialized: true, user: id(10), round_num: 4 };
    let mut ctx = game(id(11), state, owned);
    ctx.state.last_spinindex = 3;
    let before = ctx;
    assert_eq!(spin_wheel_at(&mut ctx, 1_700_000_000, 3, 1), Err(SpinError::IncorrectUserState));
    assert_eq!(ctx, before);
    assert_eq!(ctx.user_state.round_num, 4);
    assert_eq!(ctx.user_pendingstate, UserPendingClaimState::default());
}

#[test]
fn spin_records_one_line_for_each_reward_of_the_winning_slot() {
    let state = wheel_with(&[(&[1], 30_000, 5), (&[21, 22, 23], 40_000, 77), (&[3], 30_000, 9)]);
    let mut ctx = game(id(10), state, UserState::default());
    // 1000 * 7 mod 101 = 31, point 31000, second slot
    assert_eq!(spin_wheel_at(&mut ctx, 1000, 7, 1), Ok(1));
    assert_eq!(ctx.state.last_spinindex, 1);
    let ledger = ctx.user_pendingstate;
    assert_eq!(ledger.count, 3);
    assert_eq!(ledger.pending_mint_list[0], id(21));
    assert_eq!(ledger.pending_mint_list[1], id(22));
    assert_eq!(ledger.pending_mint_list[2], id(23));
    assert_eq!(ledger.pending_mint_list[3], Identity::default());
    assert_eq!(ledger.pending_amount_list[0], 77);
    assert_eq!(ledger.pending_amount_list[1], 77);
    assert_eq!(ledger.pending_amount_list[2], 77);
    assert_eq!(ledger.pending_amount_list[3], 0);
    assert_eq!(ledger.user, id(10));
    assert!(!ledger.is_claimed);
    assert_eq!(ledger.round_num, 1);
}

#[test]
fn spin_reads_only_the_first_count_mints_of_the_slot() {
    let mut wheel = SpinWheel { state: SpinItemList::default() };
    add_item(&mut wheel, mints(&[1, 2, 3, 4]), 2, 0, 100_000, 8).unwrap();
    let mut ctx = game(id(10), wheel.state, UserState::default());
    assert_eq!(spin_wheel_at(&mut ctx, 5, 5, 1), Ok(0));
    assert_eq!(ctx.user_pendingstate.count, 2);
    assert_eq!(ctx.user_pendingstate.pending_mint_list[1], id(2));
    assert_eq!(ctx.user_pendingstate.pending_mint_list[2], Identity::default());
}

#[test]
fn spin_on_a_single_slot_wheel_ends_in_the_expected_ledger() {
    let mint_x = id(0xAB);
    let user = id(0x55);
    let mut wheel = SpinWheel { state: SpinItemList::default() };
    let mut list = [Identity::default(); 10];
    list[0] = mint_x;
    add_item(&mut wheel, list, 1, 0, 100_000, 50).unwrap();

    let mut seed: u32 = 0;
    while seed < 500 {
        let mut probe = wheel.state;
        probe.last_spinindex = 9;
        probe.get_spinresult_at(1_600_000_000 + 7 * seed as i64, seed);
        assert_eq!(probe.last_spinindex, 0);
        seed += 1;
    }

    let six_spins = UserState { is_initialized: true, user, round_num: 6 };
    let mut ctx = game(user, wheel.state, six_spins);
    assert_eq!(spin_wheel_at(&mut ctx, 1_700_000_000, 42, 7), Ok(0));
    let mut expected = UserPendingClaimState::default();
    expected.user = user;
    expected.round_num = 7;
    expected.count = 1;
    expected.pending_mint_list[0] = mint_x;
    expected.pending_amount_list[0] = 50;
    expected.is_claimed = false;
    assert_eq!(ctx.user_pendingstate, expected);
    assert_eq!(ctx.user_state.round_num, 7);
}

#[test]
fn spin_that_matches_no_slot_pays_the_slot_selected_last() {
    let mut state = wheel_with(&[(&[1], 10_000, 5), (&[2, 3], 10_000, 6)]);
    state.last_spinindex = 1;
    let mut ctx = game(id(10), state, UserState::default());
    // point 31000 is past the sum of the weights
    assert_eq!(spin_wheel_at(&mut ctx, 1000, 7, 1), Ok(1));
    assert_eq!(ctx.state.last_spinindex, 1);
    assert_eq!(ctx.user_pendingstate.count, 2);
    assert_eq!(ctx.user_pendingstate.pending_mint_list[0], id(2));
    assert_eq!(ctx.user_pendingstate.pending_amount_list[1], 6);
}

#[test]
fn spin_on_a_slot_without_rewards_records_no_line() {
    let state = wheel_with(&[(&[], 100_000, 5)]);
    let mut ctx = game(id(10), state, UserState::default());
    assert_eq!(spin_wheel_at(&mut ctx, 1000, 7, 1), Ok(0));
    assert_eq!(ctx.user_pendingstate.count, 0);
    assert_eq!(ctx.user_pendingstate.user, id(10));
    assert_eq!(ctx.user_pendingstate.round_num, 1);
}

#[test]
fn spin_takes_ten_rewards_and_refuses_eleven() {
    let ten: [u8; 10] = [1, 2, 3, 4, 5, 6, 7, 8, 9, 10];
    let state = wheel_with(&[(&ten, 100_000, 5)]);
    let mut ctx = game(id(10), state, UserState::default());
    assert_eq!(spin_wheel_at(&mut ctx, 1000, 7, 1), Ok(0));
    assert_eq!(ctx.user_pendingstate.count, 10);
    assert_eq!(ctx.user_pendingstate.pending_mint_list, mints(&ten));
    assert_eq!(ctx.user_pendingstate.pending_amount_list, [5u64; 10]);

    let mut wheel = SpinWheel { state: SpinItemList::default() };
    add_item(&mut wheel, mints(&ten), 11, 0, 100_000, 5).unwrap();
    let mut ctx = game(id(10), wheel.state, UserState::default());
    ctx.state.last_spinindex = 2;
    let before = ctx;
    assert_eq!(spin_wheel_at(&mut ctx, 1000, 7, 1), Err(SpinError::CountOverflowAddItem));
    assert_eq!(ctx, before);
}

#[test]
fn spin_refuses_lines_that_do_not_fit_behind_the_lines_held() {
    let state = wheel_with(&[(&[1, 2, 3], 100_000, 5)]);
    let mut ctx = game(id(10), state, UserState::default());
    let mut i: u8 = 0;
    while i < 8 {
        ctx.user_pendingstate.add_item(id(100 + i), 1).unwrap();
        i += 1;
    }
    let before = ctx;
    assert_eq!(spin_wheel_at(&mut ctx, 1000, 7, 1), Err(SpinError::CountOverflowAddItem));
    assert_eq!(ctx, before);

    let mut ctx = game(id(10), state, UserState::default());
    let mut i: u8 = 0;
    while i < 7 {
        ctx.user_pendingstate.add_item(id(100 + i), 1).unwrap();
        i += 1;
    }
    assert_eq!(spin_wheel_at(&mut ctx, 1000, 7, 1), Ok(0));
    assert_eq!(ctx.user_pendingstate.count, 10);
    assert_eq!(ctx.user_pendingstate.pending_mint_list[6], id(106));
    assert_eq!(ctx.user_pendingstate.pending_mint_list[7], id(1));
    assert_eq!(ctx.user_pendingstate.pending_mint_list[9], id(3));
}

#[test]
fn spin_wheel_refuses_another_identity_before_it_reads_the_clock() {
    let state = wheel_with(&[(&[1], 100_000, 5)]);
    let owned = UserState { is_initialized: true, user: id(10), round_num: 4 };
    let mut ctx = game(id(11), state, owned);
    let before = ctx;
    assert_eq!(spin_wheel(&mut ctx, 3, 1), Some(Err(SpinError::IncorrectUserState)));
    assert_eq!(ctx, before);
}

#[test]
fn spin_wheel_without_a_clock_changes_nothing() {
    let state = wheel_with(&[(&[1], 100_000, 5)]);
    let mut ctx = game(id(10), state, UserState::default());
    let before = ctx;
    match spin_wheel(&mut ctx, 3, 1) {
        None => assert_eq!(ctx, before),
        Some(won) => {
            assert_eq!(won, Ok(0));
            assert_eq!(ctx.user_state.round_num, 1);
            assert_eq!(ctx.user_pendingstate.count, 1);
        }
    }
}
