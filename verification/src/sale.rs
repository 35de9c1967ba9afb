//! The sale operations state machine.
//!
//! One `Sale` value models one sale instance on the ledger: the persistent
//! ledger record plus its paired custody account. The three operations —
//! initialize-and-fund, top-up, purchase — validate their preconditions,
//! move plain balances, and mutate the record, all-or-nothing: on any error
//! the state and every balance are left exactly as they were, which is the
//! transactional atomicity the host ledger guarantees.
//!
//! External accounts (the admin's token source, the buyer's wallet and token
//! destination, the admin's currency destination) are passed in as plain
//! balances; the transfer services' balance checks are part of each
//! operation's contract.

use vstd::prelude::*;

use crate::config::SaleConfig;
use crate::derivation::spec_custody_proof_ok;
use crate::derivation::verify_custody;
use crate::errors::ErrorCode;
use crate::guard::checked_add;
use crate::guard::checked_scale;
use crate::guard::require_admin;
use crate::guard::scale_fits;
use crate::record::SaleLedgerRecord;

verus! {

/// One live sale: the ledger record together with its custody account's
/// canonical address, derivation bump, and balance in token base units.
#[derive(Clone, Copy)]
pub struct SaleInstance {
    /// The persistent sale ledger record.
    pub record: SaleLedgerRecord,
    /// Canonical derived address of the custody account.
    pub custody_address: [u8; 32],
    /// The bump byte under which `custody_address` derives canonically.
    pub custody_bump: u8,
    /// Live custody balance, in token base units.
    pub custody_balance: u64,
}

impl SaleInstance {
    /// The instance invariant: the record never records more sold than
    /// deposited, and the custody balance is exactly the unsold inventory
    /// in base units.
    pub open spec fn wf(&self, cfg: SaleConfig) -> bool {
        &&& self.record.wf()
        &&& self.custody_balance == self.record.available() * cfg.token_decimals
    }

    /// The custody address is canonically derived from the mint under the
    /// stored bump. Established by initialize-and-fund and never disturbed:
    /// the other operations leave address and bump unchanged.
    pub open spec fn custody_canonical(&self, cfg: SaleConfig) -> bool {
        spec_custody_proof_ok(self.custody_address@, cfg.mint@, self.custody_bump, cfg.program@)
    }
}

/// One sale instance's slot on the ledger: `None` until initialize-and-fund
/// creates the record and custody account together, `Some` from then on.
#[derive(Clone, Copy)]
pub struct Sale {
    /// The record and custody account, once created.
    pub instance: Option<SaleInstance>,
}

/// When initialize-and-fund succeeds: the instance does not exist yet, the
/// supplied bump derives the supplied custody address, the amount scales to
/// base units without overflow, and the funding source covers it.
pub open spec fn init_allowed(
    cfg: SaleConfig,
    sale: Sale,
    amount: u64,
    bump: u8,
    custody_address: Seq<u8>,
    source_balance: u64,
) -> bool {
    &&& sale.instance is None
    &&& spec_custody_proof_ok(custody_address, cfg.mint@, bump, cfg.program@)
    &&& scale_fits(amount, cfg.token_decimals)
    &&& amount * cfg.token_decimals <= source_balance
}

/// When top-up succeeds: the caller is the recorded admin, the amount scales
/// without overflow, the admin's source covers it, and neither the total
/// counter nor the custody balance would overflow.
pub open spec fn top_up_allowed(
    cfg: SaleConfig,
    inst: SaleInstance,
    caller: Seq<u8>,
    amount: u64,
    source_balance: u64,
) -> bool {
    &&& caller == inst.record.admin@
    &&& scale_fits(amount, cfg.token_decimals)
    &&& amount * cfg.token_decimals <= source_balance
    &&& inst.record.total_tokens + amount <= u64::MAX
    &&& inst.custody_balance + amount * cfg.token_decimals <= u64::MAX
}

/// When purchase succeeds: the bump re-derives the custody address, both
/// scalings fit, the buyer can pay, the admin can receive, the custody
/// account holds the requested tokens, and the buyer's token account can
/// receive them.
pub open spec fn purchase_allowed(
    cfg: SaleConfig,
    inst: SaleInstance,
    bump: u8,
    amount: u64,
    buyer_lamports: u64,
    admin_lamports: u64,
    buyer_tokens: u64,
) -> bool {
    &&& spec_custody_proof_ok(inst.custody_address@, cfg.mint@, bump, cfg.program@)
    &&& scale_fits(amount, cfg.token_decimals)
    &&& scale_fits(amount, cfg.lamports_per_token)
    &&& amount * cfg.lamports_per_token <= buyer_lamports
    &&& admin_lamports + amount * cfg.lamports_per_token <= u64::MAX
    &&& amount * cfg.token_decimals <= inst.custody_balance
    &&& buyer_tokens + amount * cfg.token_decimals <= u64::MAX
}

impl Sale {
    /// The state invariant: whenever the instance exists it is well formed.
    pub open spec fn wf(&self, cfg: SaleConfig) -> bool {
        self.instance matches Some(inst) ==> inst.wf(cfg)
    }

    /// Whenever the instance exists, its custody address is canonical.
    pub open spec fn custody_canonical(&self, cfg: SaleConfig) -> bool {
        self.instance matches Some(inst) ==> inst.custody_canonical(cfg)
    }

    /// True once initialize-and-fund has run.
    pub open spec fn is_initialized(&self) -> bool {
        self.instance is Some
    }

    /// A sale slot before initialize-and-fund has run.
    pub fn uninitialized() -> (s: Sale)
        ensures
            !s.is_initialized(),
    {
        Sale { instance: None }
    }

    /// Creates the sale: records `caller` as admin, and moves the scaled
    /// initial amount from the caller's token source into the custody
    /// account derived from the mint under `bump`.
    ///
    /// All-or-nothing: on any error the slot and the source balance are
    /// unchanged, and a second call on an existing instance always fails,
    /// so the recorded admin is never overwritten.
    pub fn initialize_and_fund(
        &mut self,
        cfg: &SaleConfig,
        caller: &[u8; 32],
        amount: u64,
        bump: u8,
        custody_address: &[u8; 32],
        source_balance: &mut u64,
    ) -> (r: Result<(), ErrorCode>)
        requires
            cfg.wf(),
        ensures
            r is Ok <==> init_allowed(*cfg, *old(self), amount, bump, custody_address@, *old(source_balance)),
            r is Err ==> *final(self) == *old(self) && *final(source_balance) == *old(source_balance),
            old(self).is_initialized() ==> r == Err::<(), ErrorCode>(ErrorCode::AlreadyInitialized),
            !old(self).is_initialized() && !spec_custody_proof_ok(custody_address@, cfg.mint@, bump, cfg.program@)
                ==> r == Err::<(), ErrorCode>(ErrorCode::DerivationMismatch),
            !old(self).is_initialized() && spec_custody_proof_ok(custody_address@, cfg.mint@, bump, cfg.program@)
                && !scale_fits(amount, cfg.token_decimals)
                ==> r == Err::<(), ErrorCode>(ErrorCode::Overflow),
            !old(self).is_initialized() && spec_custody_proof_ok(custody_address@, cfg.mint@, bump, cfg.program@)
                && scale_fits(amount, cfg.token_decimals)
                && *old(source_balance) < amount * cfg.token_decimals
                ==> r == Err::<(), ErrorCode>(ErrorCode::InsufficientTokens),
            r is Ok ==> final(self).instance == Some(SaleInstance {
                record: SaleLedgerRecord { admin: *caller, total_tokens: amount, tokens_sold: 0 },
                custody_address: *custody_address,
                custody_bump: bump,
                custody_balance: (amount * cfg.token_decimals) as u64,
            }),
            r is Ok ==> *final(source_balance) == *old(source_balance) - amount * cfg.token_decimals,
            r is Ok ==> final(self).wf(*cfg) && final(self).custody_canonical(*cfg),
    {
        if self.instance.is_some() {
            return Err(ErrorCode::AlreadyInitialized);
        }
        if !verify_custody(custody_address, &cfg.mint, bump, &cfg.program) {
            return Err(ErrorCode::DerivationMismatch);
        }
        let base = match checked_scale(amount, cfg.token_decimals) {
            Ok(v) => v,
            Err(e) => {
                return Err(e);
            },
        };
        if *source_balance < base {
            return Err(ErrorCode::InsufficientTokens);
        }
        *source_balance = *source_balance - base;
        self.instance = Some(SaleInstance {
            record: SaleLedgerRecord { admin: *caller, total_tokens: amount, tokens_sold: 0 },
            custody_address: *custody_address,
            custody_bump: bump,
            custody_balance: base,
        });
        Ok(())
    }

    /// Moves the scaled amount from the admin's token source into the
    /// existing custody account and adds the amount to `total_tokens`.
    ///
    /// Admin-gated: any caller other than the recorded admin fails with
    /// `InvalidAdmin` before any asset moves. All-or-nothing on every error.
    pub fn top_up(
        &mut self,
        cfg: &SaleConfig,
        caller: &[u8; 32],
        amount: u64,
        source_balance: &mut u64,
    ) -> (r: Result<(), ErrorCode>)
        requires
            cfg.wf(),
            old(self).is_initialized(),
            old(self).wf(*cfg),
        ensures
            r is Ok <==> top_up_allowed(*cfg, old(self).instance->Some_0, caller@, amount, *old(source_balance)),
            r is Err ==> *final(self) == *old(self) && *final(source_balance) == *old(source_balance),
            caller@ != old(self).instance->Some_0.record.admin@
                ==> r == Err::<(), ErrorCode>(ErrorCode::InvalidAdmin),
            caller@ == old(self).instance->Some_0.record.admin@
                && !scale_fits(amount, cfg.token_decimals)
                ==> r == Err::<(), ErrorCode>(ErrorCode::Overflow),
            caller@ == old(self).instance->Some_0.record.admin@
                && scale_fits(amount, cfg.token_decimals)
                && *old(source_balance) < amount * cfg.token_decimals
                ==> r == Err::<(), ErrorCode>(ErrorCode::InsufficientTokens),
            caller@ == old(self).instance->Some_0.record.admin@
                && scale_fits(amount, cfg.token_decimals)
                && amount * cfg.token_decimals <= *old(source_balance)
                && (old(self).instance->Some_0.record.total_tokens + amount > u64::MAX
                    || old(self).instance->Some_0.custody_balance + amount * cfg.token_decimals > u64::MAX)
                ==> r == Err::<(), ErrorCode>(ErrorCode::Overflow),
            r is Ok ==> final(self).instance == Some(SaleInstance {
                record: SaleLedgerRecord {
                    admin: old(self).instance->Some_0.record.admin,
                    total_tokens: (old(self).instance->Some_0.record.total_tokens + amount) as u64,
                    tokens_sold: old(self).instance->Some_0.record.tokens_sold,
                },
                custody_address: old(self).instance->Some_0.custody_address,
                custody_bump: old(self).instance->Some_0.custody_bump,
                custody_balance: (old(self).instance->Some_0.custody_balance
                    + amount * cfg.token_decimals) as u64,
            }),
            r is Ok ==> *final(source_balance) == *old(source_balance) - amount * cfg.token_decimals,
            r is Ok ==> final(self).wf(*cfg),
            old(self).custody_canonical(*cfg) ==> final(self).custody_canonical(*cfg),
    {
        let inst = self.instance.unwrap();
        match require_admin(&inst.record, caller) {
            Ok(()) => {},
            Err(e) => {
                return Err(e);
            },
        }
        let base = match checked_scale(amount, cfg.token_decimals) {
            Ok(v) => v,
            Err(e) => {
                return Err(e);
            },
        };
        if *source_balance < base {
            return Err(ErrorCode::InsufficientTokens);
        }
        let new_total = match checked_add(inst.record.total_tokens, amount) {
            Ok(v) => v,
            Err(e) => {
                return Err(e);
            },
        };
        let new_custody = match checked_add(inst.custody_balance, base) {
            Ok(v) => v,
            Err(e) => {
                return Err(e);
            },
        };
        *source_balance = *source_balance - base;
        self.instance = Some(SaleInstance {
            record: SaleLedgerRecord {
                admin: inst.record.admin,
                total_tokens: new_total,
                tokens_sold: inst.record.tokens_sold,
            },
            custody_address: inst.custody_address,
            custody_bump: inst.custody_bump,
            custody_balance: new_custody,
        });
        proof {
            let t = inst.record.total_tokens as int;
            let s = inst.record.tokens_sold as int;
            let a = amount as int;
            let d = cfg.token_decimals as int;
            assert((t + a - s) * d == (t - s) * d + a * d) by (nonlinear_arith);
        }
        Ok(())
    }

    /// Executes one purchase: the buyer pays `amount * lamports_per_token`
    /// native units to the admin and receives `amount * token_decimals` base
    /// units from the custody account, whose signing authority is proven by
    /// re-deriving its address from the mint under `bump`; `tokens_sold`
    /// grows by `amount`.
    ///
    /// All-or-nothing: on any error no balance moves, so the buyer never
    /// pays without receiving tokens and tokens never leave custody without
    /// payment.
    pub fn purchase(
        &mut self,
        cfg: &SaleConfig,
        bump: u8,
        amount: u64,
        buyer_lamports: &mut u64,
        admin_lamports: &mut u64,
        buyer_tokens: &mut u64,
    ) -> (r: Result<(), ErrorCode>)
        requires
            cfg.wf(),
            old(self).is_initialized(),
            old(self).wf(*cfg),
        ensures
            r is Ok <==> purchase_allowed(*cfg, old(self).instance->Some_0, bump, amount,
                *old(buyer_lamports), *old(admin_lamports), *old(buyer_tokens)),
            r is Err ==> *final(self) == *old(self)
                && *final(buyer_lamports) == *old(buyer_lamports)
                && *final(admin_lamports) == *old(admin_lamports)
                && *final(buyer_tokens) == *old(buyer_tokens),
            !spec_custody_proof_ok(old(self).instance->Some_0.custody_address@, cfg.mint@, bump, cfg.program@)
                ==> r == Err::<(), ErrorCode>(ErrorCode::DerivationMismatch),
            spec_custody_proof_ok(old(self).instance->Some_0.custody_address@, cfg.mint@, bump, cfg.program@)
                && (!scale_fits(amount, cfg.token_decimals) || !scale_fits(amount, cfg.lamports_per_token))
                ==> r == Err::<(), ErrorCode>(ErrorCode::Overflow),
            spec_custody_proof_ok(old(self).instance->Some_0.custody_address@, cfg.mint@, bump, cfg.program@)
                && scale_fits(amount, cfg.token_decimals)
                && scale_fits(amount, cfg.lamports_per_token)
                && *old(buyer_lamports) < amount * cfg.lamports_per_token
                ==> r == Err::<(), ErrorCode>(ErrorCode::InsufficientFunds),
            spec_custody_proof_ok(old(self).instance->Some_0.custody_address@, cfg.mint@, bump, cfg.program@)
                && scale_fits(amount, cfg.token_decimals)
                && scale_fits(amount, cfg.lamports_per_token)
                && amount * cfg.lamports_per_token <= *old(buyer_lamports)
                && *old(admin_lamports) + amount * cfg.lamports_per_token <= u64::MAX
                && old(self).instance->Some_0.custody_balance < amount * cfg.token_decimals
                ==> r == Err::<(), ErrorCode>(ErrorCode::InsufficientTokens),
            r is Ok ==> final(self).instance == Some(SaleInstance {
                record: SaleLedgerRecord {
                    admin: old(self).instance->Some_0.record.admin,
                    total_tokens: old(self).instance->Some_0.record.total_tokens,
                    tokens_sold: (old(self).instance->Some_0.record.tokens_sold + amount) as u64,
                },
                custody_address: old(self).instance->Some_0.custody_address,
                custody_bump: old(self).instance->Some_0.custody_bump,
                custody_balance: (old(self).instance->Some_0.custody_balance
                    - amount * cfg.token_decimals) as u64,
            }),
            r is Ok ==> *final(buyer_lamports) == *old(buyer_lamports) - amount * cfg.lamports_per_token
                && *final(admin_lamports) == *old(admin_lamports) + amount * cfg.lamports_per_token
                && *final(buyer_tokens) == *old(buyer_tokens) + amount * cfg.token_decimals,
            r is Ok ==> final(self).wf(*cfg),
            old(self).custody_canonical(*cfg) ==> final(self).custody_canonical(*cfg),
    {
        let inst = self.instance.unwrap();
        if !verify_custody(&inst.custody_address, &cfg.mint, bump, &cfg.program) {
            return Err(ErrorCode::DerivationMismatch);
        }
        let token_base = match checked_scale(amount, cfg.token_decimals) {
            Ok(v) => v,
            Err(e) => {
                return Err(e);
            },
        };
        let payment = match checked_scale(amount, cfg.lamports_per_token) {
            Ok(v) => v,
            Err(e) => {
                return Err(e);
            },
        };
        if *buyer_lamports < payment {
            return Err(ErrorCode::InsufficientFunds);
        }
        let new_admin_lamports = match checked_add(*admin_lamports, payment) {
            Ok(v) => v,
            Err(e) => {
                return Err(e);
            },
        };
        if inst.custody_balance < token_base {
            return Err(ErrorCode::InsufficientTokens);
        }
        let new_buyer_tokens = match checked_add(*buyer_tokens, token_base) {
            Ok(v) => v,
            Err(e) => {
                return Err(e);
            },
        };
        proof {
            let t = inst.record.total_tokens as int;
            let s = inst.record.tokens_sold as int;
            let a = amount as int;
            let d = cfg.token_decimals as int;
            assert(a <= t - s) by (nonlinear_arith)
                requires
                    a * d <= (t - s) * d,
                    d >= 1,
                    t - s >= 0,
                    a >= 0,
            ;
            assert((t - (s + a)) * d == (t - s) * d - a * d) by (nonlinear_arith);
        }
        let new_sold = match checked_add(inst.record.tokens_sold, amount) {
            Ok(v) => v,
            Err(e) => {
                return Err(e);
            },
        };
        *buyer_lamports = *buyer_lamports - payment;
        *admin_lamports = new_admin_lamports;
        *buyer_tokens = new_buyer_tokens;
        self.instance = Some(SaleInstance {
            record: SaleLedgerRecord {
                admin: inst.record.admin,
                total_tokens: inst.record.total_tokens,
                tokens_sold: new_sold,
            },
            custody_address: inst.custody_address,
            custody_bump: inst.custody_bump,
            custody_balance: inst.custody_balance - token_base,
        });
        Ok(())
    }
}

/// The sale invariant, stated on its own: in every well-formed initialized
/// state the sale has never sold more than was deposited, and the custody
/// account holds exactly the unsold inventory in base units. Each operation
/// ensures `wf` of the state it leaves behind, so this holds after every
/// operation of every valid sequence.
pub proof fn lemma_sale_invariant(sale: Sale, cfg: SaleConfig)
    requires
        sale.wf(cfg),
        sale.is_initialized(),
    ensures
        sale.instance->Some_0.record.tokens_sold <= sale.instance->Some_0.record.total_tokens,
        sale.instance->Some_0.custody_balance
            == sale.instance->Some_0.record.available() * cfg.token_decimals,
{
}

} // verus!
