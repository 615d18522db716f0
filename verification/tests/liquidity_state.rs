use anchor_lang::prelude::Pubkey;
use jupiter_lend::errors::ErrorCodes;
use jupiter_lend::liquidity::constants::MAX_AUTH_COUNT;
use jupiter_lend::liquidity::state::{AuthorizationList, Liquidity, UserClaim, UserClass};
use jupiter_lend::math::safe_add;

fn empty_list() -> AuthorizationList {
    AuthorizationList {
        auth_users: Vec::new(),
        guardians: Vec::new(),
        user_classes: Vec::new(),
    }
}

fn empty_claim() -> UserClaim {
    UserClaim {
        user: Pubkey::default(),
        amount: 0,
        mint: Pubkey::default(),
    }
}

#[test]
fn test_c1_attacker_controls_authority_after_init() {
    let attacker_pubkey = Pubkey::new_unique();
    let legitimate_admin = Pubkey::new_unique();
    let malicious_revenue_collector = Pubkey::new_unique();

    let mut liquidity = Liquidity {
        authority: Pubkey::default(),
        revenue_collector: Pubkey::default(),
        status: false,
        bump: 0,
    };

    let dummy_bump = 255u8;
    liquidity
        .init(attacker_pubkey, malicious_revenue_collector, dummy_bump)
        .expect("init must succeed");

    assert_eq!(liquidity.authority, attacker_pubkey);
    assert_ne!(liquidity.authority, legitimate_admin);
    assert_eq!(liquidity.revenue_collector, malicious_revenue_collector);
}

#[test]
fn test_c1_attacker_is_sole_auth_user_after_init() {
    let attacker_pubkey = Pubkey::new_unique();

    let mut auth_list = empty_list();
    auth_list.init(attacker_pubkey).expect("init must succeed");

    assert_eq!(
        auth_list.auth_users.len(),
        1,
        "auth_users should have exactly one entry"
    );
    assert_eq!(auth_list.auth_users[0], attacker_pubkey);
    assert_eq!(auth_list.guardians[0], attacker_pubkey);
}

#[test]
fn test_h4_control_attacker_cannot_withdraw_victim_claim_funds() {
    let attacker = Pubkey::new_unique();
    let victim = Pubkey::new_unique();
    let mint = Pubkey::new_unique();

    let mut claim = empty_claim();
    claim.init(victim, mint).expect("init must succeed");

    assert_eq!(claim.user, victim, "the claim belongs to the named user");
    assert_ne!(claim.user, attacker, "the claim belongs to nobody else");
}

#[test]
fn init_overwrites_every_field_and_unlocks() {
    let first = Pubkey::new_unique();
    let second = Pubkey::new_unique();
    let collector = Pubkey::new_unique();

    let mut liquidity = Liquidity {
        authority: first,
        revenue_collector: first,
        status: true,
        bump: 7,
    };
    assert!(liquidity.is_locked());

    assert_eq!(liquidity.init(second, collector, 254), Ok(()));
    assert_eq!(liquidity.authority, second);
    assert_eq!(liquidity.revenue_collector, collector);
    assert_eq!(liquidity.bump, 254);
    assert!(!liquidity.is_locked());
}

#[test]
fn init_appends_to_the_lists_and_keeps_the_classes() {
    let old = Pubkey::new_unique();
    let new = Pubkey::new_unique();

    let mut auth_list = AuthorizationList {
        auth_users: vec![old],
        guardians: Vec::new(),
        user_classes: vec![UserClass { addr: old, class: 3 }],
    };
    assert_eq!(auth_list.init(new), Ok(()));
    assert_eq!(auth_list.auth_users, vec![old, new]);
    assert_eq!(auth_list.guardians, vec![new]);
    assert_eq!(auth_list.user_classes.len(), 1);
    assert_eq!(auth_list.user_classes[0].addr, old);
    assert_eq!(auth_list.user_classes[0].class, 3);
}

#[test]
fn lists_below_the_limit_have_room_for_one_more() {
    let mut auth_list = empty_list();
    for _ in 1..MAX_AUTH_COUNT {
        auth_list.auth_users.push(Pubkey::new_unique());
        auth_list.guardians.push(Pubkey::new_unique());
    }
    let last = Pubkey::new_unique();
    assert_eq!(auth_list.init(last), Ok(()));
    assert_eq!(auth_list.auth_users.len(), 10);
    assert_eq!(auth_list.guardians.len(), 10);
    assert!(auth_list.is_auth_user(&last));
}

#[test]
fn membership_is_found_at_every_position() {
    let keys = vec![
        Pubkey::new_unique(),
        Pubkey::new_unique(),
        Pubkey::new_unique(),
    ];
    let stranger = Pubkey::new_unique();
    let auth_list = AuthorizationList {
        auth_users: keys.clone(),
        guardians: vec![stranger],
        user_classes: Vec::new(),
    };
    for key in keys.iter() {
        assert!(auth_list.is_auth_user(key));
    }
    assert!(!auth_list.is_auth_user(&stranger));
    assert!(!auth_list.is_auth_user(&Pubkey::default()));
    assert!(!empty_list().is_auth_user(&stranger));
}

#[test]
fn keys_that_differ_in_one_byte_are_different() {
    let mut bytes = [0u8; 32];
    let zero = Pubkey::new_from_array(bytes);
    bytes[31] = 1;
    let one = Pubkey::new_from_array(bytes);
    let auth_list = AuthorizationList {
        auth_users: vec![zero],
        guardians: Vec::new(),
        user_classes: Vec::new(),
    };
    assert!(auth_list.is_auth_user(&Pubkey::default()));
    assert!(!auth_list.is_auth_user(&one));
}

#[test]
fn clones_hold_the_same() {
    let a = Pubkey::new_unique();
    let b = Pubkey::new_unique();

    let liquidity = Liquidity {
        authority: a,
        revenue_collector: b,
        status: true,
        bump: 9,
    };
    let copy = liquidity.clone();
    assert_eq!(copy.authority, a);
    assert_eq!(copy.revenue_collector, b);
    assert!(copy.status);
    assert_eq!(copy.bump, 9);

    let auth_list = AuthorizationList {
        auth_users: vec![a, b],
        guardians: vec![b],
        user_classes: vec![UserClass { addr: b, class: 2 }],
    };
    let copy = auth_list.clone();
    assert_eq!(copy.auth_users, vec![a, b]);
    assert_eq!(copy.guardians, vec![b]);
    assert_eq!(copy.user_classes.len(), 1);
    assert_eq!(copy.user_classes[0].addr, b);
    assert_eq!(copy.user_classes[0].class, 2);
}

#[test]
fn init_of_a_claim_keeps_the_amount() {
    let user = Pubkey::new_unique();
    let mint = Pubkey::new_unique();

    let mut claim = empty_claim();
    claim.amount = 41;
    assert_eq!(claim.init(user, mint), Ok(()));
    assert_eq!(claim.user, user);
    assert_eq!(claim.mint, mint);
    assert_eq!(claim.balance(), 41);
}

#[test]
fn approvals_add_up_in_any_order() {
    let user = Pubkey::new_unique();
    let mint = Pubkey::new_unique();

    let mut one = UserClaim { user, amount: 5, mint };
    let mut other = one;
    assert_eq!(one.approve(30), Ok(()));
    assert_eq!(one.approve(7), Ok(()));
    assert_eq!(other.approve(7), Ok(()));
    assert_eq!(other.approve(30), Ok(()));
    assert_eq!(one.balance(), 42);
    assert_eq!(other.balance(), 42);
    assert_eq!(one.user, user);
    assert_eq!(one.mint, mint);
}

#[test]
fn approval_that_does_not_fit_is_refused() {
    let mut claim = empty_claim();
    claim.amount = u64::MAX - 1;
    assert_eq!(claim.approve(2), Err(ErrorCodes::MathError));
    assert_eq!(claim.balance(), u64::MAX - 1);
    assert_eq!(claim.approve(1), Ok(()));
    assert_eq!(claim.balance(), u64::MAX);
    assert_eq!(claim.approve(1), Err(ErrorCodes::MathError));
    assert_eq!(claim.approve(0), Ok(()));
    assert_eq!(claim.balance(), u64::MAX);
}

#[test]
fn reset_forgets_the_balance_and_keeps_the_owner() {
    let user = Pubkey::new_unique();
    let mint = Pubkey::new_unique();

    let mut claim = UserClaim { user, amount: u64::MAX, mint };
    assert_eq!(claim.reset_balance(), Ok(()));
    assert_eq!(claim.balance(), 0);
    assert_eq!(claim.approve(12), Ok(()));
    assert_eq!(claim.balance(), 12);
    assert_eq!(claim.user, user);
    assert_eq!(claim.mint, mint);
}

#[test]
fn safe_add_reports_overflow() {
    assert_eq!(safe_add(40, 2), Ok(42));
    assert_eq!(safe_add(u64::MAX, 0), Ok(u64::MAX));
    assert_eq!(safe_add(u64::MAX, 1), Err(ErrorCodes::MathError));
}
