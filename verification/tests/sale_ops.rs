use ico::config::SaleConfig;
use ico::config::LAMPORTS_PER_TOKEN;
use ico::config::TOKEN_DECIMALS;
use ico::errors::ErrorCode;
use ico::sale::Sale;

/// A mint, a program id, and the canonical custody address plus bump that
/// the real ledger derivation produces for them.
fn setup() -> ([u8; 32], [u8; 32], [u8; 32], u8) {
    let mint = [7u8; 32];
    let program = [9u8; 32];
    let program_id = solana_pubkey::Pubkey::new_from_array(program);
    let (custody, bump) = solana_pubkey::Pubkey::find_program_address(&[&mint], &program_id);
    (mint, program, custody.to_bytes(), bump)
}

fn funded_sale() -> (SaleConfig, Sale, [u8; 32], u8, [u8; 32]) {
    let (mint, program, custody, bump) = setup();
    let cfg = SaleConfig::new(mint, program);
    let admin = [1u8; 32];
    let mut sale = Sale::uninitialized();
    let mut source: u64 = 2_000_000_000_000;
    let r = sale.initialize_and_fund(&cfg, &admin, 1000, bump, &custody, &mut source);
    assert_eq!(r, Ok(()));
    (cfg, sale, admin, bump, custody)
}

#[test]
fn fund_purchase_topup_scenario() {
    let (cfg, mut sale, admin, bump, _custody) = funded_sale();
    let inst = sale.instance.unwrap();
    assert_eq!(inst.record.total_tokens, 1000);
    assert_eq!(inst.record.tokens_sold, 0);
    assert_eq!(inst.custody_balance, 1000 * TOKEN_DECIMALS);

    // Buyer purchases 10 tokens at 1_000_000 lamports per token.
    let mut buyer_lamports: u64 = 10_000_000_000;
    let mut admin_lamports: u64 = 0;
    let mut buyer_tokens: u64 = 0;
    let r = sale.purchase(&cfg, bump, 10, &mut buyer_lamports, &mut admin_lamports, &mut buyer_tokens);
    assert_eq!(r, Ok(()));
    assert_eq!(buyer_lamports, 10_000_000_000 - 10_000_000);
    assert_eq!(admin_lamports, 10_000_000);
    assert_eq!(buyer_tokens, 10_000_000_000);
    assert_eq!(sale.instance.unwrap().record.tokens_sold, 10);

    // Admin tops up by 500.
    let mut source: u64 = 500 * TOKEN_DECIMALS;
    let r = sale.top_up(&cfg, &admin, 500, &mut source);
    assert_eq!(r, Ok(()));
    assert_eq!(source, 0);
    assert_eq!(sale.instance.unwrap().record.total_tokens, 1500);

    // A second purchase over the remaining custody (990 + 500 tokens) fails
    // with a balance error and changes nothing.
    let r = sale.purchase(&cfg, bump, 2000, &mut buyer_lamports, &mut admin_lamports, &mut buyer_tokens);
    assert_eq!(r, Err(ErrorCode::InsufficientTokens));
    assert_eq!(sale.instance.unwrap().record.tokens_sold, 10);
    assert_eq!(buyer_lamports, 10_000_000_000 - 10_000_000);
    assert_eq!(admin_lamports, 10_000_000);
    assert_eq!(buyer_tokens, 10_000_000_000);
}

#[test]
fn initialize_is_one_shot() {
    let (cfg, mut sale, admin, bump, custody) = funded_sale();
    let other = [2u8; 32];
    let mut source: u64 = 5_000_000_000_000;
    let r = sale.initialize_and_fund(&cfg, &other, 5, bump, &custody, &mut source);
    assert_eq!(r, Err(ErrorCode::AlreadyInitialized));
    // The admin identity was not overwritten and no tokens moved.
    assert_eq!(sale.instance.unwrap().record.admin, admin);
    assert_eq!(source, 5_000_000_000_000);
}

#[test]
fn initialize_rejects_bad_derivation() {
    let (mint, program, custody, bump) = setup();
    let cfg = SaleConfig::new(mint, program);
    let admin = [1u8; 32];
    let mut sale = Sale::uninitialized();
    let mut source: u64 = 2_000_000_000_000;
    let r = sale.initialize_and_fund(&cfg, &admin, 1000, bump.wrapping_add(1), &custody, &mut source);
    assert_eq!(r, Err(ErrorCode::DerivationMismatch));
    assert!(sale.instance.is_none());
    assert_eq!(source, 2_000_000_000_000);
}

#[test]
fn initialize_insufficient_source_fails() {
    let (mint, program, custody, bump) = setup();
    let cfg = SaleConfig::new(mint, program);
    let admin = [1u8; 32];
    let mut sale = Sale::uninitialized();
    let mut source: u64 = 999_999_999_999;
    let r = sale.initialize_and_fund(&cfg, &admin, 1000, bump, &custody, &mut source);
    assert_eq!(r, Err(ErrorCode::InsufficientTokens));
    assert!(sale.instance.is_none());
    assert_eq!(source, 999_999_999_999);
}

#[test]
fn scaling_overflow_performs_no_transfer() {
    let (mint, program, custody, bump) = setup();
    let cfg = SaleConfig::new(mint, program);
    let admin = [1u8; 32];
    let mut sale = Sale::uninitialized();
    let mut source: u64 = u64::MAX;
    // 18_446_744_074 * 1_000_000_000 exceeds u64::MAX.
    let r = sale.initialize_and_fund(&cfg, &admin, 18_446_744_074, bump, &custody, &mut source);
    assert_eq!(r, Err(ErrorCode::Overflow));
    assert!(sale.instance.is_none());
    assert_eq!(source, u64::MAX);
}

#[test]
fn top_up_rejects_non_admin() {
    let (cfg, mut sale, _admin, _bump, _custody) = funded_sale();
    let intruder = [3u8; 32];
    let mut source: u64 = 500 * TOKEN_DECIMALS;
    let r = sale.top_up(&cfg, &intruder, 500, &mut source);
    assert_eq!(r, Err(ErrorCode::InvalidAdmin));
    assert_eq!(sale.instance.unwrap().record.total_tokens, 1000);
    assert_eq!(source, 500 * TOKEN_DECIMALS);
}

#[test]
fn top_up_overflow_leaves_state() {
    let (cfg, mut sale, admin, _bump, _custody) = funded_sale();
    let mut source: u64 = u64::MAX;
    let r = sale.top_up(&cfg, &admin, 18_446_744_074, &mut source);
    assert_eq!(r, Err(ErrorCode::Overflow));
    assert_eq!(sale.instance.unwrap().record.total_tokens, 1000);
    assert_eq!(source, u64::MAX);
}

#[test]
fn purchase_rejects_bad_derivation_proof() {
    let (cfg, mut sale, _admin, bump, _custody) = funded_sale();
    let mut buyer_lamports: u64 = 10_000_000_000;
    let mut admin_lamports: u64 = 0;
    let mut buyer_tokens: u64 = 0;
    let r = sale.purchase(&cfg, bump.wrapping_add(1), 10, &mut buyer_lamports, &mut admin_lamports, &mut buyer_tokens);
    assert_eq!(r, Err(ErrorCode::DerivationMismatch));
    assert_eq!(buyer_lamports, 10_000_000_000);
    assert_eq!(admin_lamports, 0);
    assert_eq!(buyer_tokens, 0);
    assert_eq!(sale.instance.unwrap().record.tokens_sold, 0);
}

#[test]
fn purchase_rejects_poor_buyer() {
    let (cfg, mut sale, _admin, bump, _custody) = funded_sale();
    // 10 tokens cost 10_000_000 lamports; the buyer has one lamport less.
    let mut buyer_lamports: u64 = 10 * LAMPORTS_PER_TOKEN - 1;
    let mut admin_lamports: u64 = 7;
    let mut buyer_tokens: u64 = 0;
    let r = sale.purchase(&cfg, bump, 10, &mut buyer_lamports, &mut admin_lamports, &mut buyer_tokens);
    assert_eq!(r, Err(ErrorCode::InsufficientFunds));
    assert_eq!(buyer_lamports, 10 * LAMPORTS_PER_TOKEN - 1);
    assert_eq!(admin_lamports, 7);
    assert_eq!(buyer_tokens, 0);
    assert_eq!(sale.instance.unwrap().record.tokens_sold, 0);
}

#[test]
fn purchase_scaling_overflow_fails() {
    let (cfg, mut sale, _admin, bump, _custody) = funded_sale();
    let mut buyer_lamports: u64 = u64::MAX;
    let mut admin_lamports: u64 = 0;
    let mut buyer_tokens: u64 = 0;
    let r = sale.purchase(&cfg, bump, 18_446_744_074, &mut buyer_lamports, &mut admin_lamports, &mut buyer_tokens);
    assert_eq!(r, Err(ErrorCode::Overflow));
    assert_eq!(buyer_lamports, u64::MAX);
    assert_eq!(sale.instance.unwrap().record.tokens_sold, 0);
}

#[test]
fn sold_never_exceeds_total_across_operations() {
    let (cfg, mut sale, admin, bump, _custody) = funded_sale();
    let mut buyer_lamports: u64 = u64::MAX / 2;
    let mut admin_lamports: u64 = 0;
    let mut buyer_tokens: u64 = 0;
    let amounts: [u64; 6] = [400, 400, 400, 400, 400, 400];
    let mut i = 0;
    while i < amounts.len() {
        let _ = sale.purchase(&cfg, bump, amounts[i], &mut buyer_lamports, &mut admin_lamports, &mut buyer_tokens);
        let inst = sale.instance.unwrap();
        assert!(inst.record.tokens_sold <= inst.record.total_tokens);
        if i == 2 {
            let mut source: u64 = 100 * TOKEN_DECIMALS;
            let _ = sale.top_up(&cfg, &admin, 100, &mut source);
            let inst = sale.instance.unwrap();
            assert!(inst.record.tokens_sold <= inst.record.total_tokens);
        }
        i += 1;
    }
    let inst = sale.instance.unwrap();
    assert_eq!(inst.record.total_tokens, 1100);
    assert_eq!(inst.record.tokens_sold, 800);
    assert_eq!(inst.custody_balance, 300 * TOKEN_DECIMALS);
}
