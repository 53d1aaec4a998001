use vrrb_network::reward::{can_draw_now, Category, EpochAllotment, Reward, RewardState, N_BLOCKS_PER_EPOCH};

fn allotment() -> EpochAllotment {
    EpochAllotment { nuggets: 100, veins: 50, motherlodes: 10 }
}

fn only(flakes: u32, grains: u32, nuggets: u32, veins: u32) -> RewardState {
    RewardState {
        epoch: 1,
        next_epoch_block: N_BLOCKS_PER_EPOCH,
        current_block: 0,
        n_nuggets_remaining: 10,
        n_veins_remaining: 10,
        n_motherlodes_remaining: 10,
        n_nuggets_current_epoch: nuggets,
        n_veins_current_epoch: veins,
        n_motherlodes_current_epoch: 0,
        n_flakes_current_epoch: flakes,
        n_grains_current_epoch: grains,
    }
}

#[test]
fn start_allots_the_first_epoch() {
    let r = RewardState::start(allotment());
    assert_eq!(r.current_block, 0);
    assert_eq!(r.epoch, 1);
    assert_eq!(r.next_epoch_block, 16000000);
    assert_eq!(r.n_nuggets_remaining, 80000000);
    assert_eq!(r.n_veins_remaining, 1400000);
    assert_eq!(r.n_motherlodes_remaining, 20000);
    assert_eq!(r.n_nuggets_current_epoch, 100);
    assert_eq!(r.n_veins_current_epoch, 50);
    assert_eq!(r.n_motherlodes_current_epoch, 10);
    assert_eq!(r.n_flakes_current_epoch, 9599904);
    assert_eq!(r.n_grains_current_epoch, 6399936);
}

#[test]
fn update_within_epoch_takes_the_reward() {
    let r = RewardState::start(allotment());
    let n = r.update(Category::Nugget(Some(100)), allotment());
    assert_eq!(n.current_block, 1);
    assert_eq!(n.epoch, 1);
    assert_eq!(n.n_nuggets_remaining, 80000000 - 1);
    assert_eq!(n.n_nuggets_current_epoch, 99);
    assert_eq!(n.n_veins_current_epoch, 50);
    let g = n.update(Category::Grain(Some(9)), allotment());
    assert_eq!(g.n_grains_current_epoch, 6399935);
    assert_eq!(g.n_nuggets_remaining, 80000000 - 1);
    let f = g.update(Category::Flake(Some(2)), allotment());
    assert_eq!(f.n_flakes_current_epoch, 9599903);
    let m = f.update(Category::Motherlode(Some(5000)), allotment());
    assert_eq!(m.n_motherlodes_remaining, 19999);
    assert_eq!(m.n_motherlodes_current_epoch, 9);
    let v = m.update(Category::Vein(Some(600)), allotment());
    assert_eq!(v.n_veins_remaining, 1399999);
    assert_eq!(v.n_veins_current_epoch, 49);
    assert_eq!(v.current_block, 5);
}

#[test]
fn undrawn_reward_changes_no_count() {
    let r = RewardState::start(allotment());
    let n = r.update(Category::Vein(None), allotment());
    assert_eq!(n.n_veins_remaining, r.n_veins_remaining);
    assert_eq!(n.n_veins_current_epoch, r.n_veins_current_epoch);
    assert_eq!(n.current_block, 1);
}

#[test]
fn update_at_epoch_end_starts_the_next() {
    let mut r = RewardState::start(allotment());
    r.current_block = N_BLOCKS_PER_EPOCH - 1;
    let next = EpochAllotment { nuggets: 1000, veins: 0, motherlodes: 0 };
    let n = r.update(Category::Vein(Some(600)), next);
    assert_eq!(n.current_block, N_BLOCKS_PER_EPOCH);
    assert_eq!(n.epoch, 2);
    assert_eq!(n.next_epoch_block, 2 * N_BLOCKS_PER_EPOCH);
    assert_eq!(n.n_veins_remaining, 1399999);
    assert_eq!(n.n_nuggets_current_epoch, 1000);
    assert_eq!(n.n_veins_current_epoch, 0);
    assert_eq!(n.n_flakes_current_epoch, 9599400);
    assert_eq!(n.n_grains_current_epoch, 6399600);
}

#[test]
fn grains_and_drawn_categories_are_paid_as_flakes() {
    assert_eq!(Category::Grain(None).with_amount(9), Category::Flake(Some(9)));
    assert_eq!(Category::Nugget(Some(70)).with_amount(3), Category::Flake(Some(3)));
    assert_eq!(Category::Vein(None).with_amount(600), Category::Vein(Some(600)));
    assert_eq!(Category::Grain(None).reward_range(), (8, 63));
    assert_eq!(Category::Motherlode(Some(1)).reward_range(), (1, 7));
}

#[test]
fn amount_is_within_the_range() {
    for _ in 0..50 {
        match Category::Nugget(None).amount() {
            Category::Nugget(Some(v)) => assert!((64..511).contains(&v)),
            other => panic!("unexpected {:?}", other),
        }
        match Category::Motherlode(None).amount() {
            Category::Motherlode(Some(v)) => assert!((4096..32767).contains(&v)),
            other => panic!("unexpected {:?}", other),
        }
        match Category::Grain(None).amount() {
            Category::Flake(Some(v)) => assert!((8..63).contains(&v)),
            other => panic!("unexpected {:?}", other),
        }
    }
}

#[test]
fn draw_skips_zero_weights() {
    for _ in 0..50 {
        assert_eq!(Category::generate_category(&only(0, 0, 5, 0)), Category::Nugget(None));
        assert_eq!(Category::generate_category(&only(0, 3, 0, 0)), Category::Grain(None));
        let c = Category::generate_category(&only(0, 0, 0, 4));
        assert!(c == Category::Vein(None) || c == Category::Motherlode(None));
    }
}

#[test]
fn new_category_is_drawn_and_priced() {
    for _ in 0..50 {
        match Category::new(&only(1, 0, 0, 0)) {
            Category::Flake(Some(v)) => assert!((1..7).contains(&v)),
            other => panic!("unexpected {:?}", other),
        }
    }
}

#[test]
fn reward_records_miner_and_amount() {
    let r = Reward::new("miner-1".to_string(), &only(0, 0, 2, 0));
    assert_eq!(r.miner, "miner-1");
    match r.category {
        Category::Nugget(Some(v)) => assert_eq!(r.amount, v),
        other => panic!("unexpected {:?}", other),
    }
}

#[test]
fn drawing_needs_some_weight() {
    assert!(!can_draw_now(&only(0, 0, 0, 0)));
    assert!(can_draw_now(&only(0, 0, 0, 1)));
    assert!(!can_draw_now(&only(u32::MAX, 1, 0, 0)));
    assert!(can_draw_now(&RewardState::start(allotment())));
}
