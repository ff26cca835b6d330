//! Exchange between the ledger's native value and an internal point
//! balance, at a fixed ratio, backed by a reserve that only the bridge's
//! administrator may fill or drain.
use vstd::prelude::*;
use crate::address::Address;
use crate::transfer::{Balances, TransferError, credited, debited};

verus! {

/// Points credited for each unit of native value.
pub const POKECOINS_PER_LAMPORT: u64 = 1000;

/// The bridge's reserve and its running totals.
#[derive(Clone, Copy, Debug, PartialEq, Eq)]
pub struct Bridge {
    /// The only account allowed to deposit or withdraw reserves.
    pub admin: Address,
    pub total_sol_deposited: u64,
    pub total_sol_withdrawn: u64,
    /// The value the bridge holds.
    pub reserve_lamports: u64,
}

/// Why a bridge operation was refused. A refused operation changes nothing.
#[derive(Clone, Copy, Debug, PartialEq, Eq, Structural)]
pub enum ErrorCode {
    InsufficientPokecoins,
    InsufficientSolReserves,
    Unauthorized,
    InsufficientFunds,
    BalanceOverflow,
}

/// The bridge error for a failed movement of value.
pub open spec fn transfer_error(e: TransferError) -> ErrorCode {
    match e {
        TransferError::InsufficientFunds => ErrorCode::InsufficientFunds,
        TransferError::BalanceOverflow => ErrorCode::BalanceOverflow,
    }
}

fn from_transfer_error(e: TransferError) -> (r: ErrorCode)
    ensures
        r == transfer_error(e),
{
    match e {
        TransferError::InsufficientFunds => ErrorCode::InsufficientFunds,
        TransferError::BalanceOverflow => ErrorCode::BalanceOverflow,
    }
}

/// Value moved into the reserve in exchange for points.
/// Value moved into the reserve in exchange for points.
#[derive(Clone, Copy, Debug, PartialEq, Eq)]
pub struct PokecoinsPurchased {
    pub buyer: Address,
    pub sol_amount: u64,
    pub pokecoins_amount: u64,
}

/// Points were exchanged for value from the reserve.
/// Points were exchanged for value from the reserve.
#[derive(Clone, Copy, Debug, PartialEq, Eq)]
pub struct PokecoinsSold {
    pub seller: Address,
    pub pokecoins_amount: u64,
    pub sol_amount: u64,
}

/// The administrator added to the reserve.
/// The administrator added to the reserve.
#[derive(Clone, Copy, Debug, PartialEq, Eq)]
pub struct ReservesDeposited {
    pub admin: Address,
    pub amount: u64,
}

/// The administrator took from the reserve.
/// The administrator took from the reserve.
#[derive(Clone, Copy, Debug, PartialEq, Eq)]
pub struct ReservesWithdrawn {
    pub admin: Address,
    pub amount: u64,
}

impl Bridge {
    /// The reserve is what came in less what went out.
    pub open spec fn wf(&self) -> bool {
        self.reserve_lamports + self.total_sol_withdrawn == self.total_sol_deposited
    }

    /// An empty bridge administered by `admin`.
    pub fn new(admin: Address) -> (r: Bridge)
        ensures
            r.wf(),
            r == (Bridge {
                admin,
                total_sol_deposited: 0,
                total_sol_withdrawn: 0,
                reserve_lamports: 0,
            }),
    {
        Bridge { admin, total_sol_deposited: 0, total_sol_withdrawn: 0, reserve_lamports: 0 }
    }

    /// The outcome of `buy_pokecoins`.
    pub open spec fn buy_pokecoins_result(&self, bank: &Balances, buyer: Address, sol_amount: u64) -> Result<
        PokecoinsPurchased,
        ErrorCode,
    > {
        if sol_amount * POKECOINS_PER_LAMPORT > u64::MAX {
            Err(ErrorCode::BalanceOverflow)
        } else if bank.lamports(buyer) < sol_amount {
            Err(ErrorCode::InsufficientFunds)
        } else if self.total_sol_deposited + sol_amount > u64::MAX {
            Err(ErrorCode::BalanceOverflow)
        } else {
            Ok(
                PokecoinsPurchased {
                    buyer,
                    sol_amount,
                    pokecoins_amount: (sol_amount * POKECOINS_PER_LAMPORT) as u64,
                },
            )
        }
    }

    /// Takes `sol_amount` from `buyer` into the reserve; the result tells how
    /// many points to credit.
    pub fn buy_pokecoins(&mut self, bank: &mut Balances, buyer: Address, sol_amount: u64) -> (r:
        Result<PokecoinsPurchased, ErrorCode>)
        requires
            old(self).wf(),
            old(bank).wf(),
        ensures
            final(self).wf(),
            final(bank).wf(),
            r == old(self).buy_pokecoins_result(old(bank), buyer, sol_amount),
            r is Ok ==> {
                &&& *final(self) == (Bridge {
                    total_sol_deposited: (old(self).total_sol_deposited + sol_amount) as u64,
                    reserve_lamports: (old(self).reserve_lamports + sol_amount) as u64,
                    ..*old(self)
                })
                &&& final(bank)@ == debited(old(bank)@, buyer, sol_amount)
            },
            r is Err ==> *final(self) == *old(self) && final(bank)@ == old(bank)@,
    {
        let pokecoins_amount = match sol_amount.checked_mul(POKECOINS_PER_LAMPORT) {
            Some(p) => p,
            None => {
                return Err(ErrorCode::BalanceOverflow);
            },
        };
        if bank.balance_of(&buyer) < sol_amount {
            return Err(ErrorCode::InsufficientFunds);
        }
        if self.total_sol_deposited > u64::MAX - sol_amount {
            return Err(ErrorCode::BalanceOverflow);
        }
        let mut reserve = self.reserve_lamports;
        match bank.pay_in(&buyer, &mut reserve, sol_amount) {
            Ok(()) => {},
            Err(e) => {
                return Err(from_transfer_error(e));
            },
        }
        self.reserve_lamports = reserve;
        self.total_sol_deposited = self.total_sol_deposited + sol_amount;
        Ok(PokecoinsPurchased { buyer, sol_amount, pokecoins_amount })
    }

    /// The outcome of `sell_pokecoins`.
    pub open spec fn sell_pokecoins_result(
        &self,
        bank: &Balances,
        seller: Address,
        pokecoins_amount: u64,
    ) -> Result<PokecoinsSold, ErrorCode> {
        let sol_amount = pokecoins_amount / POKECOINS_PER_LAMPORT;
        if sol_amount == 0 {
            Err(ErrorCode::InsufficientPokecoins)
        } else if self.reserve_lamports < sol_amount {
            Err(ErrorCode::InsufficientSolReserves)
        } else if bank.lamports(seller) + sol_amount > u64::MAX {
            Err(ErrorCode::BalanceOverflow)
        } else {
            Ok(PokecoinsSold { seller, pokecoins_amount, sol_amount: sol_amount as u64 })
        }
    }

    /// Pays `seller` one unit of value from the reserve for every whole
    /// thousand points given up; the remainder is not paid for.
    pub fn sell_pokecoins(&mut self, bank: &mut Balances, seller: Address, pokecoins_amount: u64) -> (r:
        Result<PokecoinsSold, ErrorCode>)
        requires
            old(self).wf(),
            old(bank).wf(),
        ensures
            final(self).wf(),
            final(bank).wf(),
            r == old(self).sell_pokecoins_result(old(bank), seller, pokecoins_amount),
            r matches Ok(sold) ==> {
                &&& *final(self) == (Bridge {
                    total_sol_withdrawn: (old(self).total_sol_withdrawn + sold.sol_amount) as u64,
                    reserve_lamports: (old(self).reserve_lamports - sold.sol_amount) as u64,
                    ..*old(self)
                })
                &&& final(bank)@ == credited(old(bank)@, seller, sold.sol_amount)
            },
            r is Err ==> *final(self) == *old(self) && final(bank)@ == old(bank)@,
    {
        let sol_amount = pokecoins_amount / POKECOINS_PER_LAMPORT;
        if sol_amount == 0 {
            return Err(ErrorCode::InsufficientPokecoins);
        }
        if self.reserve_lamports < sol_amount {
            return Err(ErrorCode::InsufficientSolReserves);
        }
        let mut reserve = self.reserve_lamports;
        match bank.pay_out(&mut reserve, &seller, sol_amount) {
            Ok(()) => {},
            Err(e) => {
                return Err(from_transfer_error(e));
            },
        }
        self.reserve_lamports = reserve;
        self.total_sol_withdrawn = self.total_sol_withdrawn + sol_amount;
        Ok(PokecoinsSold { seller, pokecoins_amount, sol_amount })
    }

    /// The outcome of `deposit_reserves`.
    pub open spec fn deposit_reserves_result(&self, bank: &Balances, admin: Address, amount: u64) -> Result<
        ReservesDeposited,
        ErrorCode,
    > {
        if admin != self.admin {
            Err(ErrorCode::Unauthorized)
        } else if bank.lamports(admin) < amount {
            Err(ErrorCode::InsufficientFunds)
        } else if self.total_sol_deposited + amount > u64::MAX {
            Err(ErrorCode::BalanceOverflow)
        } else {
            Ok(ReservesDeposited { admin, amount })
        }
    }

    /// Moves `amount` from the administrator into the reserve.
    pub fn deposit_reserves(&mut self, bank: &mut Balances, admin: Address, amount: u64) -> (r:
        Result<ReservesDeposited, ErrorCode>)
        requires
            old(self).wf(),
            old(bank).wf(),
        ensures
            final(self).wf(),
            final(bank).wf(),
            r == old(self).deposit_reserves_result(old(bank), admin, amount),
            r is Ok ==> {
                &&& *final(self) == (Bridge {
                    total_sol_deposited: (old(self).total_sol_deposited + amount) as u64,
                    reserve_lamports: (old(self).reserve_lamports + amount) as u64,
                    ..*old(self)
                })
                &&& final(bank)@ == debited(old(bank)@, admin, amount)
            },
            r is Err ==> *final(self) == *old(self) && final(bank)@ == old(bank)@,
    {
        if admin != self.admin {
            return Err(ErrorCode::Unauthorized);
        }
        if bank.balance_of(&admin) < amount {
            return Err(ErrorCode::InsufficientFunds);
        }
        if self.total_sol_deposited > u64::MAX - amount {
            return Err(ErrorCode::BalanceOverflow);
        }
        let mut reserve = self.reserve_lamports;
        match bank.pay_in(&admin, &mut reserve, amount) {
            Ok(()) => {},
            Err(e) => {
                return Err(from_transfer_error(e));
            },
        }
        self.reserve_lamports = reserve;
        self.total_sol_deposited = self.total_sol_deposited + amount;
        Ok(ReservesDeposited { admin, amount })
    }

    /// The outcome of `withdraw_reserves`.
    pub open spec fn withdraw_reserves_result(&self, bank: &Balances, admin: Address, amount: u64) -> Result<
        ReservesWithdrawn,
        ErrorCode,
    > {
        if admin != self.admin {
            Err(ErrorCode::Unauthorized)
        } else if self.reserve_lamports < amount {
            Err(ErrorCode::InsufficientSolReserves)
        } else if bank.lamports(admin) + amount > u64::MAX {
            Err(ErrorCode::BalanceOverflow)
        } else {
            Ok(ReservesWithdrawn { admin, amount })
        }
    }

    /// Moves `amount` from the reserve to the administrator.
    pub fn withdraw_reserves(&mut self, bank: &mut Balances, admin: Address, amount: u64) -> (r:
        Result<ReservesWithdrawn, ErrorCode>)
        requires
            old(self).wf(),
            old(bank).wf(),
        ensures
            final(self).wf(),
            final(bank).wf(),
            r == old(self).withdraw_reserves_result(old(bank), admin, amount),
            r is Ok ==> {
                &&& *final(self) == (Bridge {
                    total_sol_withdrawn: (old(self).total_sol_withdrawn + amount) as u64,
                    reserve_lamports: (old(self).reserve_lamports - amount) as u64,
                    ..*old(self)
                })
                &&& final(bank)@ == credited(old(bank)@, admin, amount)
            },
            r is Err ==> *final(self) == *old(self) && final(bank)@ == old(bank)@,
    {
        if admin != self.admin {
            return Err(ErrorCode::Unauthorized);
        }
        if self.reserve_lamports < amount {
            return Err(ErrorCode::InsufficientSolReserves);
        }
        let mut reserve = self.reserve_lamports;
        match bank.pay_out(&mut reserve, &admin, amount) {
            Ok(()) => {},
            Err(e) => {
                return Err(from_transfer_error(e));
            },
        }
        self.reserve_lamports = reserve;
        self.total_sol_withdrawn = self.total_sol_withdrawn + amount;
        Ok(ReservesWithdrawn { admin, amount })
    }
}

} // verus!
