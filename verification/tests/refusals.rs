use contracts::errors::ContractError;
use contracts::instructions::approve_user_bid::{self, ApproveBid};
use contracts::instructions::claim_funds::{self, ClaimFunds};
use contracts::instructions::claim_tokens::{self, ClaimTokens};
use contracts::instructions::init_protocol::{self, InitProtocol};
use contracts::instructions::launch_product::{self, LaunchProduct, LaunchProductArgs};
use contracts::instructions::reject_bid::{self, RejectBid};
use contracts::instructions::user_bid_product::{self, UserBidProduct, MAX_SLOTS_PER_BID};
use contracts::state::{
    Address, BidStatus, GlobalConfig, Product, ProductPhase, TokenHolding, TokenPool, Treasury,
    UserBid, Wallet,
};

const NOW: i64 = 1_700_000_000;
const LAUNCH: i64 = NOW + 30 * 86400;
const CLOSE: i64 = LAUNCH - 604800;

fn key(tag: u8) -> Address {
    Address::new([tag; 32])
}

fn campaign() -> Product {
    Product {
        maker: key(1),
        name: String::from("Acme"),
        description: String::from("A fixed-supply launch"),
        token_symbol: String::from("ACME"),
        initial_deposit: 1000,
        ipo_slots: 2,
        approved_bids: 0,
        total_token_supply: 100,
        token_mint: key(11),
        token_pool: key(12),
        launch_date: LAUNCH,
        bid_close_date: CLOSE,
        phase: ProductPhase::Bidding,
        created_at: NOW,
        funds_claimed: false,
        bump: 254,
    }
}

fn bid_of(status: BidStatus) -> UserBid {
    UserBid {
        user: key(2),
        product: key(10),
        amount: 250,
        token_amount: 25,
        slots_requested: 1,
        status,
        tokens_claimed: false,
        funds_claimed: status == BidStatus::Rejected,
        created_at: NOW + 1,
        bump: 200,
    }
}

fn launch_args() -> LaunchProductArgs {
    LaunchProductArgs {
        name: String::from("Acme"),
        description: String::from("A fixed-supply launch"),
        token_symbol: String::from("ACME"),
        initial_deposit: 1000,
        ipo_slots: 2,
        initial_token_supply: 100,
        launch_date: LAUNCH,
    }
}

fn launch_ctx() -> LaunchProduct {
    LaunchProduct {
        maker: Wallet { owner: key(1), lamports: 1000 },
        product_key: key(10),
        product: None,
        treasury: None,
        token_mint: key(11),
        token_pool_key: key(12),
        token_pool: None,
        product_bump: 254,
    }
}

fn refused_launch(ctx: LaunchProduct, args: LaunchProductArgs, now: i64) -> ContractError {
    let mut after = ctx.clone();
    let err = launch_product::handler(&mut after, args, now).unwrap_err();
    assert_eq!(after, ctx);
    err
}

fn bid_ctx() -> UserBidProduct {
    UserBidProduct {
        user: Wallet { owner: key(2), lamports: 400 },
        product_key: key(10),
        product: campaign(),
        user_bid: None,
        treasury: Treasury { product: key(10), lamports: 1000 },
        user_bid_bump: 200,
    }
}

fn refused_bid(ctx: UserBidProduct, amount: u64, slots: u32, now: i64) -> ContractError {
    let mut after = ctx.clone();
    let err = user_bid_product::handler(&mut after, amount, slots, now).unwrap_err();
    assert_eq!(after, ctx);
    err
}

fn approve_ctx() -> ApproveBid {
    ApproveBid {
        product_owner: key(1),
        product_key: key(10),
        product: campaign(),
        user_bid: bid_of(BidStatus::Pending),
    }
}

fn refused_approval(ctx: ApproveBid) -> ContractError {
    let mut after = ctx.clone();
    let err = approve_user_bid::handler(&mut after).unwrap_err();
    assert_eq!(after, ctx);
    err
}

fn reject_ctx() -> RejectBid {
    RejectBid {
        product_owner: key(1),
        product_key: key(10),
        product: campaign(),
        user_bid: bid_of(BidStatus::Pending),
        treasury: Treasury { product: key(10), lamports: 1250 },
        user_account: Wallet { owner: key(2), lamports: 0 },
    }
}

fn refused_rejection(ctx: RejectBid) -> ContractError {
    let mut after = ctx.clone();
    let err = reject_bid::handler(&mut after).unwrap_err();
    assert_eq!(after, ctx);
    err
}

fn tokens_ctx() -> ClaimTokens {
    let mut product = campaign();
    product.approved_bids = 1;
    ClaimTokens {
        user: key(2),
        product_key: key(10),
        product,
        user_bid: bid_of(BidStatus::Approved),
        token_pool: TokenPool { product: key(10), mint: key(11), amount: 100 },
        user_token_account: TokenHolding { owner: key(2), mint: key(11), amount: 0 },
    }
}

fn refused_tokens(ctx: ClaimTokens, now: i64) -> ContractError {
    let mut after = ctx.clone();
    let err = claim_tokens::handler(&mut after, now).unwrap_err();
    assert_eq!(after, ctx);
    err
}

fn funds_ctx() -> ClaimFunds {
    let mut product = campaign();
    product.approved_bids = 1;
    ClaimFunds {
        product_owner: Wallet { owner: key(1), lamports: 0 },
        product_key: key(10),
        product,
        treasury: Treasury { product: key(10), lamports: 1250 },
        bids: vec![bid_of(BidStatus::Approved)],
    }
}

fn refused_funds(ctx: ClaimFunds, now: i64) -> ContractError {
    let mut after = ctx.clone();
    let err = claim_funds::handler(&mut after, now).unwrap_err();
    assert_eq!(after, ctx);
    err
}

#[test]
fn launch_refuses_zero_amounts() {
    for field in 0..3 {
        let mut args = launch_args();
        match field {
            0 => args.initial_deposit = 0,
            1 => args.ipo_slots = 0,
            _ => args.initial_token_supply = 0,
        }
        assert_eq!(refused_launch(launch_ctx(), args, NOW), ContractError::ZeroBidAmount);
    }
}

#[test]
fn launch_refuses_a_date_that_is_not_in_the_future() {
    let mut args = launch_args();
    args.launch_date = NOW;
    assert_eq!(refused_launch(launch_ctx(), args, NOW), ContractError::InvalidLaunchDate);
    let mut args = launch_args();
    args.launch_date = NOW - 1;
    assert_eq!(refused_launch(launch_ctx(), args, NOW), ContractError::InvalidLaunchDate);
    let mut args = launch_args();
    args.launch_date = NOW + 1;
    let mut ctx = launch_ctx();
    assert_eq!(launch_product::handler(&mut ctx, args, NOW), Ok(()));
    assert_eq!(ctx.product.unwrap().bid_close_date, NOW + 1 - 604800);
}

#[test]
fn launch_checks_amounts_before_the_date_and_the_date_before_texts() {
    let mut args = launch_args();
    args.initial_deposit = 0;
    args.launch_date = NOW;
    assert_eq!(refused_launch(launch_ctx(), args, NOW), ContractError::ZeroBidAmount);
    let mut args = launch_args();
    args.name = "x".repeat(51);
    args.launch_date = NOW;
    assert_eq!(refused_launch(launch_ctx(), args, NOW), ContractError::InvalidLaunchDate);
}

#[test]
fn launch_bounds_texts_in_characters() {
    let cases: [(usize, usize, usize, bool); 6] = [
        (50, 200, 10, true),
        (51, 200, 10, false),
        (50, 201, 10, false),
        (50, 200, 11, false),
        (0, 0, 0, true),
        (51, 0, 0, false),
    ];
    for (n, d, s, ok) in cases {
        let mut args = launch_args();
        args.name = "n".repeat(n);
        args.description = "d".repeat(d);
        args.token_symbol = "s".repeat(s);
        let mut ctx = launch_ctx();
        let res = launch_product::handler(&mut ctx, args, NOW);
        if ok {
            assert_eq!(res, Ok(()));
            assert_eq!(ctx.product.unwrap().name.len(), n);
        } else {
            assert_eq!(res, Err(ContractError::ZeroBidAmount));
            assert_eq!(ctx, launch_ctx());
        }
    }
    let mut args = launch_args();
    args.token_symbol = "é".repeat(10);
    let mut ctx = launch_ctx();
    assert_eq!(launch_product::handler(&mut ctx, args, NOW), Ok(()));
    let mut args = launch_args();
    args.token_symbol = "é".repeat(11);
    assert_eq!(refused_launch(launch_ctx(), args, NOW), ContractError::ZeroBidAmount);
}

#[test]
fn launch_refuses_a_close_date_out_of_range() {
    let mut args = launch_args();
    args.launch_date = i64::MIN + 604799;
    assert_eq!(refused_launch(launch_ctx(), args, i64::MIN), ContractError::ArithmeticOverflow);
    let mut args = launch_args();
    args.launch_date = i64::MIN + 604800;
    let mut ctx = launch_ctx();
    assert_eq!(launch_product::handler(&mut ctx, args, i64::MIN), Ok(()));
    assert_eq!(ctx.product.unwrap().bid_close_date, i64::MIN);
}

#[test]
fn launch_refuses_an_owner_short_of_the_deposit() {
    let mut ctx = launch_ctx();
    ctx.maker.lamports = 999;
    assert_eq!(refused_launch(ctx, launch_args(), NOW), ContractError::InsufficientFunds);
    let mut ctx = launch_ctx();
    assert_eq!(launch_product::handler(&mut ctx, launch_args(), NOW), Ok(()));
    assert_eq!(ctx.maker.lamports, 0);
    assert_eq!(ctx.treasury, Some(Treasury { product: key(10), lamports: 1000 }));
    assert_eq!(ctx.token_pool, Some(TokenPool { product: key(10), mint: key(11), amount: 100 }));
    assert_eq!(ctx.product.unwrap(), campaign());
}

#[test]
fn bid_refuses_each_invalid_input() {
    assert_eq!(refused_bid(bid_ctx(), 0, 1, NOW), ContractError::ZeroBidAmount);
    assert_eq!(refused_bid(bid_ctx(), 100, 0, NOW), ContractError::InvalidSlotCount);
    assert_eq!(refused_bid(bid_ctx(), 100, 6, NOW), ContractError::InvalidSlotCount);
    assert_eq!(refused_bid(bid_ctx(), 100, 1, CLOSE), ContractError::BiddingPeriodEnded);
    assert_eq!(refused_bid(bid_ctx(), 401, 1, NOW), ContractError::InsufficientFunds);
    let mut ctx = bid_ctx();
    ctx.treasury.product = key(9);
    assert_eq!(refused_bid(ctx, 100, 1, NOW), ContractError::UnauthorizedAccess);
    let mut ctx = bid_ctx();
    ctx.treasury.lamports = u64::MAX - 99;
    assert_eq!(refused_bid(ctx, 100, 1, NOW), ContractError::ArithmeticOverflow);
    for phase in [ProductPhase::Launched, ProductPhase::Completed] {
        let mut ctx = bid_ctx();
        ctx.product.phase = phase;
        assert_eq!(refused_bid(ctx, 100, 1, NOW), ContractError::NotInBiddingPhase);
    }
}

#[test]
fn bid_checks_time_then_slots_then_amount() {
    assert_eq!(refused_bid(bid_ctx(), 0, 0, CLOSE), ContractError::BiddingPeriodEnded);
    assert_eq!(refused_bid(bid_ctx(), 0, 0, NOW), ContractError::InvalidSlotCount);
}

#[test]
fn bid_takes_one_to_five_slots() {
    assert_eq!(MAX_SLOTS_PER_BID, 5);
    for slots in 1..=5u32 {
        let mut ctx = bid_ctx();
        assert_eq!(user_bid_product::handler(&mut ctx, 400, slots, CLOSE - 1), Ok(()));
        let bid = ctx.user_bid.unwrap();
        assert_eq!(bid.slots_requested, slots);
        assert_eq!(bid.token_amount, 40);
        assert_eq!(bid.status, BidStatus::Pending);
        assert!(!bid.funds_claimed && !bid.tokens_claimed);
        assert_eq!(ctx.user.lamports, 0);
        assert_eq!(ctx.treasury.lamports, 1400);
    }
}

#[test]
fn bid_needs_a_price_above_zero() {
    let mut ctx = bid_ctx();
    ctx.product.total_token_supply = 0;
    assert_eq!(ctx.product.get_token_price(), Err(ContractError::ArithmeticOverflow));
    assert_eq!(ctx.product.calculate_token_amount(100), Err(ContractError::ArithmeticOverflow));
    assert_eq!(refused_bid(ctx, 100, 1, NOW), ContractError::ArithmeticOverflow);
    let mut ctx = bid_ctx();
    ctx.product.total_token_supply = 1001;
    assert_eq!(ctx.product.get_token_price(), Ok(0));
    assert_eq!(ctx.product.calculate_token_amount(100), Err(ContractError::ArithmeticOverflow));
    assert_eq!(refused_bid(ctx, 100, 1, NOW), ContractError::ArithmeticOverflow);
}

#[test]
fn token_amount_is_the_amount_over_the_floored_price() {
    let cases: [(u64, u64, u64, u64, u64); 7] = [
        (1000, 100, 250, 10, 25),
        (1000, 100, 259, 10, 25),
        (1000, 100, 9, 10, 0),
        (1000, 3, 1000, 333, 3),
        (1000, 1000, 77, 1, 77),
        (1999, 1000, 77, 1, 77),
        (u64::MAX, 1, u64::MAX, u64::MAX, 1),
    ];
    for (deposit, supply, amount, price, tokens) in cases {
        let mut p = campaign();
        p.initial_deposit = deposit;
        p.total_token_supply = supply;
        assert_eq!(p.get_token_price(), Ok(price));
        assert_eq!(p.calculate_token_amount(amount), Ok(tokens));
        assert_eq!(tokens, amount / (deposit / supply));
    }
}

#[test]
fn approval_refuses_strangers_decided_bids_and_full_campaigns() {
    let mut ctx = approve_ctx();
    ctx.product_owner = key(2);
    assert_eq!(refused_approval(ctx), ContractError::UnauthorizedAccess);
    let mut ctx = approve_ctx();
    ctx.user_bid.product = key(9);
    assert_eq!(refused_approval(ctx), ContractError::UnauthorizedAccess);
    for status in [BidStatus::Approved, BidStatus::Rejected] {
        let mut ctx = approve_ctx();
        ctx.user_bid = bid_of(status);
        assert_eq!(refused_approval(ctx), ContractError::BidAlreadyProcessed);
    }
    let mut ctx = approve_ctx();
    ctx.product.approved_bids = 2;
    assert_eq!(refused_approval(ctx), ContractError::AllSlotsFilled);
    let mut ctx = approve_ctx();
    ctx.product.approved_bids = 1;
    assert_eq!(approve_user_bid::handler(&mut ctx), Ok(()));
    assert_eq!(ctx.product.approved_bids, 2);
    assert_eq!(ctx.user_bid.status, BidStatus::Approved);
    assert!(!ctx.user_bid.tokens_claimed);
}

#[test]
fn rejection_refuses_strangers_and_a_short_treasury() {
    let mut ctx = reject_ctx();
    ctx.product_owner = key(2);
    assert_eq!(refused_rejection(ctx), ContractError::UnauthorizedAccess);
    let mut ctx = reject_ctx();
    ctx.user_account.owner = key(3);
    assert_eq!(refused_rejection(ctx), ContractError::UnauthorizedAccess);
    let mut ctx = reject_ctx();
    ctx.treasury.product = key(3);
    assert_eq!(refused_rejection(ctx), ContractError::UnauthorizedAccess);
    let mut ctx = reject_ctx();
    ctx.user_bid.product = key(3);
    assert_eq!(refused_rejection(ctx), ContractError::UnauthorizedAccess);
    let mut ctx = reject_ctx();
    ctx.treasury.lamports = 249;
    assert_eq!(refused_rejection(ctx.clone()), ContractError::InsufficientFunds);
    assert_eq!(reject_bid::handler_alternative(&mut ctx), Err(ContractError::InsufficientFunds));
    assert_eq!(ctx.user_bid.status, BidStatus::Pending);
    let mut ctx = reject_ctx();
    ctx.user_account.lamports = u64::MAX - 249;
    assert_eq!(refused_rejection(ctx), ContractError::ArithmeticOverflow);
    let mut ctx = reject_ctx();
    ctx.treasury.lamports = 250;
    assert_eq!(reject_bid::handler(&mut ctx), Ok(()));
    assert_eq!(ctx.treasury.lamports, 0);
    assert_eq!(ctx.user_account.lamports, 250);
}

#[test]
fn token_claim_refuses_each_invalid_state() {
    let mut ctx = tokens_ctx();
    ctx.user = key(3);
    assert_eq!(refused_tokens(ctx, LAUNCH), ContractError::UnauthorizedAccess);
    let mut ctx = tokens_ctx();
    ctx.token_pool.mint = key(3);
    assert_eq!(refused_tokens(ctx, LAUNCH), ContractError::UnauthorizedAccess);
    let mut ctx = tokens_ctx();
    ctx.user_token_account.owner = key(3);
    assert_eq!(refused_tokens(ctx, LAUNCH), ContractError::UnauthorizedAccess);
    for status in [BidStatus::Pending, BidStatus::Rejected] {
        let mut ctx = tokens_ctx();
        ctx.user_bid = bid_of(status);
        assert_eq!(refused_tokens(ctx, LAUNCH), ContractError::BidNotApproved);
    }
    let mut ctx = tokens_ctx();
    ctx.user_bid.tokens_claimed = true;
    assert_eq!(refused_tokens(ctx, LAUNCH), ContractError::TokensAlreadyClaimed);
    assert_eq!(refused_tokens(tokens_ctx(), LAUNCH - 1), ContractError::LaunchDateNotReached);
    let mut ctx = tokens_ctx();
    ctx.token_pool.amount = 24;
    assert_eq!(refused_tokens(ctx, LAUNCH), ContractError::InsufficientTokens);
    let mut ctx = tokens_ctx();
    ctx.user_token_account.amount = u64::MAX - 24;
    assert_eq!(refused_tokens(ctx, LAUNCH), ContractError::ArithmeticOverflow);
    let mut ctx = tokens_ctx();
    ctx.token_pool.amount = 25;
    assert_eq!(claim_tokens::handler(&mut ctx, LAUNCH), Ok(()));
    assert_eq!(ctx.token_pool.amount, 0);
    assert_eq!(ctx.user_token_account.amount, 25);
}

#[test]
fn funds_claim_refuses_each_invalid_state() {
    let mut ctx = funds_ctx();
    ctx.product_owner.owner = key(2);
    assert_eq!(refused_funds(ctx, LAUNCH), ContractError::UnauthorizedAccess);
    let mut ctx = funds_ctx();
    ctx.treasury.product = key(2);
    assert_eq!(refused_funds(ctx, LAUNCH), ContractError::UnauthorizedAccess);
    let mut ctx = funds_ctx();
    ctx.product.funds_claimed = true;
    ctx.product.phase = ProductPhase::Launched;
    assert_eq!(refused_funds(ctx, LAUNCH), ContractError::FundsAlreadyClaimed);
    assert_eq!(refused_funds(funds_ctx(), LAUNCH - 1), ContractError::LaunchDateNotReached);
    let mut ctx = funds_ctx();
    ctx.treasury.lamports = 1249;
    assert_eq!(refused_funds(ctx, LAUNCH), ContractError::InsufficientFunds);
    let mut ctx = funds_ctx();
    ctx.product_owner.lamports = u64::MAX - 1249;
    assert_eq!(refused_funds(ctx, LAUNCH), ContractError::ArithmeticOverflow);
    let mut ctx = funds_ctx();
    let mut big = bid_of(BidStatus::Approved);
    big.amount = u64::MAX;
    big.user = key(3);
    ctx.bids.push(big);
    ctx.product.approved_bids = 2;
    assert_eq!(claim_funds::sum_approved(&ctx.bids, &key(10)), None);
    assert_eq!(refused_funds(ctx, LAUNCH), ContractError::ArithmeticOverflow);
    let mut ctx = funds_ctx();
    ctx.bids[0].amount = u64::MAX - 999;
    assert_eq!(claim_funds::sum_approved(&ctx.bids, &key(10)), Some(u64::MAX - 999));
    assert_eq!(refused_funds(ctx, LAUNCH), ContractError::ArithmeticOverflow);
    let mut ctx = funds_ctx();
    assert_eq!(claim_funds::handler(&mut ctx, LAUNCH), Ok(()));
    assert_eq!(ctx.treasury.lamports, 0);
    assert_eq!(ctx.product_owner.lamports, 1250);
}

#[test]
fn funds_claim_holds_the_bids_against_the_count() {
    let approved = bid_of(BidStatus::Approved);
    let mut second = approved;
    second.user = key(3);
    second.amount = 100;
    let mut foreign = approved;
    foreign.product = key(99);

    let mut ctx = funds_ctx();
    ctx.bids = Vec::new();
    assert_eq!(refused_funds(ctx, LAUNCH), ContractError::UnauthorizedAccess);
    let mut ctx = funds_ctx();
    ctx.bids = vec![approved, second];
    assert_eq!(refused_funds(ctx, LAUNCH), ContractError::UnauthorizedAccess);
    let mut ctx = funds_ctx();
    ctx.product.ipo_slots = 2;
    ctx.product.approved_bids = 2;
    ctx.bids = vec![approved, approved];
    assert_eq!(refused_funds(ctx, LAUNCH), ContractError::UnauthorizedAccess);
    let mut ctx = funds_ctx();
    ctx.bids = vec![foreign];
    assert_eq!(refused_funds(ctx, LAUNCH), ContractError::UnauthorizedAccess);

    let mut ctx = funds_ctx();
    ctx.product.approved_bids = 2;
    ctx.treasury.lamports = 1400;
    ctx.bids = vec![bid_of(BidStatus::Pending), second, foreign, foreign, approved];
    assert_eq!(claim_funds::handler(&mut ctx, LAUNCH), Ok(()));
    assert_eq!(ctx.product_owner.lamports, 1350);
    assert_eq!(ctx.treasury.lamports, 50);

    let bids = vec![approved, bid_of(BidStatus::Rejected), second, foreign, approved];
    assert_eq!(claim_funds::count_approved(&bids, &key(10)), 3);
    assert_eq!(claim_funds::count_approved(&bids, &key(99)), 1);
    assert_eq!(claim_funds::count_approved(&Vec::new(), &key(10)), 0);
    assert!(!claim_funds::bidders_distinct(&bids, &key(10)));
    assert!(claim_funds::bidders_distinct(&bids, &key(99)));
    assert!(claim_funds::bidders_distinct(&bids[..4].to_vec(), &key(10)));
    assert!(claim_funds::is_counted(&approved, &key(10)));
    assert!(!claim_funds::is_counted(&approved, &key(99)));
    assert!(!claim_funds::is_counted(&bid_of(BidStatus::Pending), &key(10)));
}

#[test]
fn init_protocol_names_the_signer_administrator() {
    let mut ctx = InitProtocol { global_config: None, signer: key(5), bump: 253 };
    assert_eq!(init_protocol::handler(&mut ctx), Ok(()));
    assert_eq!(ctx.global_config, Some(GlobalConfig { protocol_admin: key(5), bump: 253 }));
    assert_eq!(ctx.signer, key(5));
    assert_eq!(ctx.bump, 253);
    ctx.signer = key(6);
    let before = ctx;
    assert_eq!(init_protocol::handler(&mut ctx), Err(ContractError::AlreadyInitialized));
    assert_eq!(ctx, before);
    assert_eq!(GlobalConfig::INIT_SPACE, 33);
    assert_eq!(Product::INIT_SPACE, 419);
    assert_eq!(UserBid::INIT_SPACE, 104);
}

#[test]
fn addresses_compare_byte_for_byte() {
    let a = Address::new([7; 32]);
    assert_eq!(a, Address::new([7; 32]));
    assert_eq!(a.to_bytes(), [7; 32]);
    for i in 0..32 {
        let mut bytes = [7u8; 32];
        bytes[i] = 8;
        assert_ne!(a, Address::new(bytes));
    }
}

#[test]
fn messages_name_the_refusal() {
    assert_eq!(ContractError::ZeroBidAmount.message(), "Bid amount must be greater than zero");
    assert_eq!(ContractError::NotInBiddingPhase.message(), "Product is not in bidding phase");
    assert_eq!(ContractError::BiddingPeriodEnded.message(), "Bidding period has ended");
    assert_eq!(ContractError::LaunchDateNotReached.message(), "Launch date has not arrived yet");
    assert_eq!(ContractError::BidAlreadyProcessed.message(), "Bid has already been processed");
    assert_eq!(ContractError::BidNotApproved.message(), "Bid is not approved");
    assert_eq!(ContractError::BidNotRejected.message(), "Bid is not rejected");
    assert_eq!(
        ContractError::UnauthorizedAccess.message(),
        "Only product owner can perform this action"
    );
    assert_eq!(ContractError::AllSlotsFilled.message(), "All IPO slots are filled");
    assert_eq!(ContractError::InvalidLaunchDate.message(), "Invalid launch date");
    assert_eq!(ContractError::ArithmeticOverflow.message(), "Arithmetic overflow");
    assert_eq!(ContractError::TokensAlreadyClaimed.message(), "Tokens already claimed");
    assert_eq!(ContractError::FundsAlreadyClaimed.message(), "Funds already claimed");
    assert_eq!(ContractError::InsufficientTokens.message(), "Insufficient tokens in pool");
    assert_eq!(ContractError::InsufficientFunds.message(), "Insufficient funds in treasury");
    assert_eq!(ContractError::InvalidSlotCount.message(), "Invalid number of slots requested");
    assert_eq!(ContractError::AlreadyInitialized.message(), "Account is already initialized");
}

#[test]
fn entry_points_run_the_operations() {
    let mut init = InitProtocol { global_config: None, signer: key(5), bump: 1 };
    assert_eq!(contracts::init_protocol(&mut init), Ok(()));
    assert_eq!(init.global_config.unwrap().protocol_admin, key(5));
    assert_eq!(contracts::init_protocol(&mut init), Err(ContractError::AlreadyInitialized));

    let mut launch = launch_ctx();
    assert_eq!(contracts::launch_product(&mut launch, launch_args(), NOW), Ok(()));
    assert_eq!(launch.treasury.unwrap().lamports, 1000);

    let mut bid = bid_ctx();
    bid.product = launch.product.clone().unwrap();
    bid.treasury = launch.treasury.unwrap();
    assert_eq!(contracts::user_bid_product(&mut bid, 250, 2, NOW + 1), Ok(()));
    assert_eq!(bid.user_bid.unwrap().token_amount, 25);
    assert_eq!(bid.treasury.lamports, 1250);

    let mut approve = ApproveBid {
        product_owner: key(1),
        product_key: key(10),
        product: bid.product.clone(),
        user_bid: bid.user_bid.unwrap(),
    };
    assert_eq!(contracts::approve_bid(&mut approve), Ok(()));
    assert_eq!(approve.product.approved_bids, 1);

    let mut reject = RejectBid {
        product_owner: key(1),
        product_key: key(10),
        product: approve.product.clone(),
        user_bid: approve.user_bid,
        treasury: bid.treasury,
        user_account: bid.user,
    };
    assert_eq!(contracts::reject_bid(&mut reject), Err(ContractError::BidAlreadyProcessed));
    reject.user_bid.status = BidStatus::Pending;
    assert_eq!(contracts::reject_bid(&mut reject), Ok(()));
    assert_eq!(reject.treasury.lamports, 1000);
    assert_eq!(reject.user_account.lamports, 400);

    let mut tokens = tokens_ctx();
    assert_eq!(contracts::claim_tokens(&mut tokens, LAUNCH - 1), Err(ContractError::LaunchDateNotReached));
    assert_eq!(contracts::claim_tokens(&mut tokens, LAUNCH), Ok(()));
    assert_eq!(tokens.token_pool.amount, 75);
    assert_eq!(tokens.user_token_account.amount, 25);
    assert!(tokens.user_bid.tokens_claimed);

    let mut funds = funds_ctx();
    assert_eq!(contracts::claim_funds(&mut funds, LAUNCH - 1), Err(ContractError::LaunchDateNotReached));
    assert_eq!(contracts::claim_funds(&mut funds, LAUNCH), Ok(()));
    assert_eq!(funds.product_owner.lamports, 1250);
    assert!(funds.product.funds_claimed);
    assert_eq!(funds.product.phase, ProductPhase::Launched);
}
