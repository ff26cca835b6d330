//! Escrow for a wager between two players: each stakes the same amount into
//! the lobby's vault, and the winner takes the pot less a protocol fee.
use vstd::prelude::*;
use crate::address::Address;
use crate::store::KeyedStore;
use crate::transfer::{Balances, TransferError, balance_in, credited, debited};

verus! {

/// Protocol fee, in basis points of the pot.
pub const PROTOCOL_FEE_BPS: u64 = 250;

/// Basis points in a whole.
pub const BPS_DENOMINATOR: u64 = 10000;

/// Where a lobby stands: `Open -> Full -> InProgress -> Resolved`, or
/// `Open`/`Full -> Cancelled`.
#[derive(Clone, Copy, Debug, PartialEq, Eq, Structural)]
pub enum LobbyStatus {
    Open,
    Full,
    InProgress,
    Resolved,
    Cancelled,
}

/// A wagering lobby.
#[derive(Clone, Debug, PartialEq, Eq)]
pub struct Lobby {
    pub creator: Address,
    pub lobby_id: String,
    pub wager_lamports: u64,
    pub status: LobbyStatus,
    pub opponent: Option<Address>,
    pub winner: Option<Address>,
    /// Commitment to the off-ledger match record, kept for audit.
    pub transcript_hash: Option<[u8; 32]>,
}

/// The value a lobby holds in custody.
#[derive(Clone, Debug, PartialEq, Eq)]
pub struct Vault {
    pub lobby_id: String,
    pub total_deposited: u64,
}

/// Why an escrow operation was refused. A refused operation changes nothing.
#[derive(Clone, Copy, Debug, PartialEq, Eq, Structural)]
pub enum ErrorCode {
    DuplicateLobby,
    LobbyNotFound,
    LobbyNotOpen,
    LobbyNotFull,
    LobbyNotInProgress,
    CannotJoinOwnLobby,
    NoOpponent,
    InvalidWinner,
    CannotCancelLobby,
    InsufficientFunds,
    BalanceOverflow,
}

/// The escrow error for a failed movement of value.
pub open spec fn transfer_error(e: TransferError) -> ErrorCode {
    match e {
        TransferError::InsufficientFunds => ErrorCode::InsufficientFunds,
        TransferError::BalanceOverflow => ErrorCode::BalanceOverflow,
    }
}

fn from_transfer_error(e: TransferError) -> (r: ErrorCode)
    ensures
        r == transfer_error(e),
{
    match e {
        TransferError::InsufficientFunds => ErrorCode::InsufficientFunds,
        TransferError::BalanceOverflow => ErrorCode::BalanceOverflow,
    }
}

/// A lobby was opened with its creator's stake.
/// A lobby was opened with its creator's stake.
#[derive(Clone, Debug, PartialEq, Eq)]
pub struct LobbyCreated {
    pub lobby_id: String,
    pub creator: Address,
    pub wager_lamports: u64,
}

/// An opponent took the second seat of a lobby.
/// An opponent took the second seat of a lobby.
#[derive(Clone, Debug, PartialEq, Eq)]
pub struct LobbyJoined {
    pub lobby_id: String,
    pub opponent: Address,
}

/// The match of a full lobby started.
/// The match of a full lobby started.
#[derive(Clone, Debug, PartialEq, Eq)]
pub struct LobbyLocked {
    pub lobby_id: String,
}

/// A match was settled: the winner's share and the fee paid out.
/// A match was settled: the winner's share and the fee paid out.
#[derive(Clone, Debug, PartialEq, Eq)]
pub struct MatchResolved {
    pub lobby_id: String,
    pub winner: Address,
    pub winnings: u64,
    pub protocol_fee: u64,
}

/// A lobby was called off and its stakes refunded.
/// A lobby was called off and its stakes refunded.
#[derive(Clone, Debug, PartialEq, Eq)]
pub struct LobbyCancelled {
    pub lobby_id: String,
}

/// A notification written on every successful transition.
#[derive(Clone, Debug, PartialEq, Eq)]
pub enum EscrowEvent {
    LobbyCreated(LobbyCreated),
    LobbyJoined(LobbyJoined),
    LobbyLocked(LobbyLocked),
    MatchResolved(MatchResolved),
    LobbyCancelled(LobbyCancelled),
}

/// The protocol fee taken from a pot of `total`: 2.5%, rounded down.
pub open spec fn fee_of(total: u64) -> u64 {
    (total as int * PROTOCOL_FEE_BPS as int / BPS_DENOMINATOR as int) as u64
}

/// What a lobby's vault holds at each stage: one stake until an opponent
/// joins, two until the match is settled, none afterwards.
pub open spec fn held_amount(lobby: Lobby) -> int {
    match lobby.status {
        LobbyStatus::Open => lobby.wager_lamports as int,
        LobbyStatus::Full | LobbyStatus::InProgress => 2 * lobby.wager_lamports,
        LobbyStatus::Resolved | LobbyStatus::Cancelled => 0,
    }
}

/// How a lobby stored under `id` and its vault agree with each other.
pub open spec fn lobby_consistent(id: Seq<char>, lobby: Lobby, vault: Vault) -> bool {
    &&& lobby.lobby_id@ == id
    &&& vault.lobby_id@ == id
    &&& vault.total_deposited == held_amount(lobby)
    &&& (lobby.status == LobbyStatus::Open ==> lobby.opponent is None)
    &&& (lobby.status == LobbyStatus::Full || lobby.status == LobbyStatus::InProgress
        || lobby.status == LobbyStatus::Resolved) ==> lobby.opponent is Some
    &&& (lobby.opponent matches Some(o) ==> o != lobby.creator)
    &&& (lobby.winner is Some <==> lobby.status == LobbyStatus::Resolved)
    &&& (lobby.transcript_hash is Some <==> lobby.status == LobbyStatus::Resolved)
    &&& (lobby.winner matches Some(w) ==> w == lobby.creator || lobby.opponent == Some(w))
}

/// The protocol fee taken from a pot of `total`, computed without overflow.
pub fn protocol_fee(total: u64) -> (r: u64)
    ensures
        r == fee_of(total),
        r <= total,
{
    let wide = (total as u128) * (PROTOCOL_FEE_BPS as u128) / (BPS_DENOMINATOR as u128);
    assert(wide <= total) by (nonlinear_arith)
        requires
            wide == total as int * 250 / 10000,
    ;
    wide as u64
}

/// Every lobby with its vault, the protocol's fee account, and the log of
/// transitions.
pub struct EscrowLedger {
    lobbies: KeyedStore<Lobby>,
    vaults: KeyedStore<Vault>,
    fee_account: Address,
    events: Vec<EscrowEvent>,
}

impl EscrowLedger {
    /// The lobbies, by identifier.
    pub closed spec fn lobbies(&self) -> Map<Seq<char>, Lobby> {
        self.lobbies@
    }

    /// The vaults, by the identifier of their lobby.
    pub closed spec fn vaults(&self) -> Map<Seq<char>, Vault> {
        self.vaults@
    }

    /// The account that receives protocol fees.
    pub closed spec fn fee_account(&self) -> Address {
        self.fee_account
    }

    /// The transitions so far, oldest first.
    pub closed spec fn events(&self) -> Seq<EscrowEvent> {
        self.events@
    }

    /// The tables behind the ledger are well formed.
    pub closed spec fn stores_wf(&self) -> bool {
        self.lobbies.wf() && self.vaults.wf()
    }

    /// Every lobby has a vault that agrees with it.
    pub open spec fn wf(&self) -> bool {
        &&& self.stores_wf()
        &&& self.lobbies().dom() == self.vaults().dom()
        &&& forall|id: Seq<char>|
            #[trigger] self.lobbies().contains_key(id) ==> lobby_consistent(
                id,
                self.lobbies()[id],
                self.vaults()[id],
            )
    }

    /// A ledger with no lobbies, paying fees to `fee_account`.
    pub fn new(fee_account: Address) -> (r: EscrowLedger)
        ensures
            r.wf(),
            r.lobbies() == Map::<Seq<char>, Lobby>::empty(),
            r.vaults() == Map::<Seq<char>, Vault>::empty(),
            r.fee_account() == fee_account,
            r.events() == Seq::<EscrowEvent>::empty(),
    {
        EscrowLedger {
            lobbies: KeyedStore::new(),
            vaults: KeyedStore::new(),
            fee_account,
            events: Vec::new(),
        }
    }

    /// The lobby stored under `lobby_id`, if any.
    pub fn lobby(&self, lobby_id: &String) -> (r: Option<&Lobby>)
        requires
            self.wf(),
        ensures
            match r {
                Some(l) => self.lobbies().contains_key(lobby_id@) && *l == self.lobbies()[lobby_id@],
                None => !self.lobbies().contains_key(lobby_id@),
            },
    {
        self.lobbies.get(lobby_id)
    }

    /// The vault of the lobby stored under `lobby_id`, if any.
    pub fn vault(&self, lobby_id: &String) -> (r: Option<&Vault>)
        requires
            self.wf(),
        ensures
            match r {
                Some(v) => self.vaults().contains_key(lobby_id@) && *v == self.vaults()[lobby_id@],
                None => !self.vaults().contains_key(lobby_id@),
            },
    {
        self.vaults.get(lobby_id)
    }

    /// The account that receives protocol fees.
    pub fn fee_account_address(&self) -> (r: Address)
        ensures
            r == self.fee_account(),
    {
        self.fee_account
    }

    /// The transitions so far, oldest first.
    pub fn event_log(&self) -> (r: &Vec<EscrowEvent>)
        ensures
            r@ == self.events(),
    {
        &self.events
    }

    /// The outcome of `create_lobby`.
    pub open spec fn create_lobby_result(
        &self,
        bank: &Balances,
        lobby_id: Seq<char>,
        wager_lamports: u64,
        creator: Address,
    ) -> Result<(), ErrorCode> {
        if self.lobbies().contains_key(lobby_id) {
            Err(ErrorCode::DuplicateLobby)
        } else if bank.lamports(creator) < wager_lamports {
            Err(ErrorCode::InsufficientFunds)
        } else {
            Ok(())
        }
    }

    /// Opens a lobby under `lobby_id`, moving the creator's wager into its
    /// new vault.
    pub fn create_lobby(
        &mut self,
        bank: &mut Balances,
        lobby_id: String,
        wager_lamports: u64,
        creator: Address,
    ) -> (r: Result<(), ErrorCode>)
        requires
            old(self).wf(),
            old(bank).wf(),
        ensures
            final(self).wf(),
            final(bank).wf(),
            r == old(self).create_lobby_result(old(bank), lobby_id@, wager_lamports, creator),
            r is Ok ==> {
                &&& final(self).lobbies() == old(self).lobbies().insert(
                    lobby_id@,
                    (Lobby {
                        creator,
                        lobby_id,
                        wager_lamports,
                        status: LobbyStatus::Open,
                        opponent: None,
                        winner: None,
                        transcript_hash: None,
                    }),
                )
                &&& final(self).vaults() == old(self).vaults().insert(
                    lobby_id@,
                    (Vault { lobby_id, total_deposited: wager_lamports }),
                )
                &&& final(bank)@ == debited(old(bank)@, creator, wager_lamports)
                &&& final(self).events() == old(self).events().push(
                    EscrowEvent::LobbyCreated(
                        (LobbyCreated { lobby_id, creator, wager_lamports }),
                    ),
                )
            },
            r is Err ==> *final(self) == *old(self) && final(bank)@ == old(bank)@,
            final(self).fee_account() == old(self).fee_account(),
    {
        if self.lobbies.contains(&lobby_id) {
            return Err(ErrorCode::DuplicateLobby);
        }
        let mut total_deposited: u64 = 0;
        match bank.pay_in(&creator, &mut total_deposited, wager_lamports) {
            Ok(()) => {},
            Err(e) => {
                return Err(from_transfer_error(e));
            },
        }
        let lobby = Lobby {
            creator,
            lobby_id: lobby_id.clone(),
            wager_lamports,
            status: LobbyStatus::Open,
            opponent: None,
            winner: None,
            transcript_hash: None,
        };
        let vault = Vault { lobby_id: lobby_id.clone(), total_deposited };
        let event = LobbyCreated { lobby_id: lobby_id.clone(), creator, wager_lamports };
        self.lobbies.insert(lobby_id.clone(), lobby);
        self.vaults.insert(lobby_id, vault);
        self.events.push(EscrowEvent::LobbyCreated(event));
        Ok(())
    }

    /// The outcome of `join_lobby`.
    pub open spec fn join_lobby_result(
        &self,
        bank: &Balances,
        lobby_id: Seq<char>,
        opponent: Address,
    ) -> Result<(), ErrorCode> {
        if !self.lobbies().contains_key(lobby_id) {
            Err(ErrorCode::LobbyNotFound)
        } else if self.lobbies()[lobby_id].status != LobbyStatus::Open {
            Err(ErrorCode::LobbyNotOpen)
        } else if opponent == self.lobbies()[lobby_id].creator {
            Err(ErrorCode::CannotJoinOwnLobby)
        } else if bank.lamports(opponent) < self.lobbies()[lobby_id].wager_lamports {
            Err(ErrorCode::InsufficientFunds)
        } else if self.vaults()[lobby_id].total_deposited + self.lobbies()[lobby_id].wager_lamports
            > u64::MAX {
            Err(ErrorCode::BalanceOverflow)
        } else {
            Ok(())
        }
    }

    /// Takes the second seat of an open lobby, moving the opponent's wager
    /// into the vault.
    pub fn join_lobby(&mut self, bank: &mut Balances, lobby_id: &String, opponent: Address) -> (r:
        Result<(), ErrorCode>)
        requires
            old(self).wf(),
            old(bank).wf(),
        ensures
            final(self).wf(),
            final(bank).wf(),
            r == old(self).join_lobby_result(old(bank), lobby_id@, opponent),
            r is Ok ==> {
                let before = old(self).lobbies()[lobby_id@];
                &&& final(self).lobbies() == old(self).lobbies().insert(
                    lobby_id@,
                    (Lobby { status: LobbyStatus::Full, opponent: Some(opponent), ..before }),
                )
                &&& final(self).vaults()[lobby_id@].total_deposited == 2 * before.wager_lamports
                &&& final(self).vaults().dom() == old(self).vaults().dom()
                &&& forall|id: Seq<char>|
                    id != lobby_id@ ==> #[trigger] final(self).vaults()[id] == old(self).vaults()[id]
                &&& final(bank)@ == debited(old(bank)@, opponent, before.wager_lamports)
                &&& final(self).events() == old(self).events().push(
                    EscrowEvent::LobbyJoined((LobbyJoined { lobby_id: before.lobby_id, opponent })),
                )
            },
            r is Err ==> *final(self) == *old(self) && final(bank)@ == old(bank)@,
            final(self).fee_account() == old(self).fee_account(),
    {
        let lobby = match self.lobbies.get(lobby_id) {
            Some(l) => l,
            None => {
                return Err(ErrorCode::LobbyNotFound);
            },
        };
        if lobby.status != LobbyStatus::Open {
            return Err(ErrorCode::LobbyNotOpen);
        }
        if lobby.creator == opponent {
            return Err(ErrorCode::CannotJoinOwnLobby);
        }
        let vault = match self.vaults.get(lobby_id) {
            Some(v) => v,
            None => {
                return Err(ErrorCode::LobbyNotFound);
            },
        };
        let mut total_deposited = vault.total_deposited;
        match bank.pay_in(&opponent, &mut total_deposited, lobby.wager_lamports) {
            Ok(()) => {},
            Err(e) => {
                return Err(from_transfer_error(e));
            },
        }
        let joined = Lobby {
            creator: lobby.creator,
            lobby_id: lobby.lobby_id.clone(),
            wager_lamports: lobby.wager_lamports,
            status: LobbyStatus::Full,
            opponent: Some(opponent),
            winner: lobby.winner,
            transcript_hash: lobby.transcript_hash,
        };
        let new_vault = Vault { lobby_id: vault.lobby_id.clone(), total_deposited };
        let event = LobbyJoined { lobby_id: lobby.lobby_id.clone(), opponent };
        self.lobbies.insert(lobby_id.clone(), joined);
        self.vaults.insert(lobby_id.clone(), new_vault);
        self.events.push(EscrowEvent::LobbyJoined(event));
        Ok(())
    }

    /// The outcome of `lock_lobby`.
    pub open spec fn lock_lobby_result(&self, lobby_id: Seq<char>) -> Result<(), ErrorCode> {
        if !self.lobbies().contains_key(lobby_id) {
            Err(ErrorCode::LobbyNotFound)
        } else if self.lobbies()[lobby_id].status != LobbyStatus::Full {
            Err(ErrorCode::LobbyNotFull)
        } else if self.lobbies()[lobby_id].opponent is None {
            Err(ErrorCode::NoOpponent)
        } else {
            Ok(())
        }
    }

    /// Starts the match of a full lobby. Any caller may do so.
    pub fn lock_lobby(&mut self, lobby_id: &String) -> (r: Result<(), ErrorCode>)
        requires
            old(self).wf(),
        ensures
            final(self).wf(),
            r == old(self).lock_lobby_result(lobby_id@),
            r is Ok ==> {
                let before = old(self).lobbies()[lobby_id@];
                &&& final(self).lobbies() == old(self).lobbies().insert(
                    lobby_id@,
                    (Lobby { status: LobbyStatus::InProgress, ..before }),
                )
                &&& final(self).vaults() == old(self).vaults()
                &&& final(self).events() == old(self).events().push(
                    EscrowEvent::LobbyLocked((LobbyLocked { lobby_id: before.lobby_id })),
                )
            },
            r is Err ==> *final(self) == *old(self),
            final(self).fee_account() == old(self).fee_account(),
    {
        let lobby = match self.lobbies.get(lobby_id) {
            Some(l) => l,
            None => {
                return Err(ErrorCode::LobbyNotFound);
            },
        };
        if lobby.status != LobbyStatus::Full {
            return Err(ErrorCode::LobbyNotFull);
        }
        if lobby.opponent.is_none() {
            return Err(ErrorCode::NoOpponent);
        }
        let locked = Lobby {
            creator: lobby.creator,
            lobby_id: lobby.lobby_id.clone(),
            wager_lamports: lobby.wager_lamports,
            status: LobbyStatus::InProgress,
            opponent: lobby.opponent,
            winner: lobby.winner,
            transcript_hash: lobby.transcript_hash,
        };
        assert(lobby_consistent(lobby_id@, *lobby, self.vaults@[lobby_id@]));
        assert(lobby_consistent(lobby_id@, locked, self.vaults@[lobby_id@]));
        let event = LobbyLocked { lobby_id: lobby.lobby_id.clone() };
        self.lobbies.insert(lobby_id.clone(), locked);
        self.events.push(EscrowEvent::LobbyLocked(event));
        assert(self.lobbies@.dom() =~= self.vaults@.dom());
        Ok(())
    }

    /// Whether paying `winnings` to `winner` and then `fee` to `fee_account`
    /// would push either balance past the largest representable amount.
    pub open spec fn payout_overflows(
        bank: Map<Address, u64>,
        winner: Address,
        winnings: u64,
        fee_account: Address,
        fee: u64,
    ) -> bool {
        ||| balance_in(bank, winner) + winnings > u64::MAX
        ||| balance_in(credited(bank, winner, winnings), fee_account) + fee
            > u64::MAX
    }

    /// The outcome of `resolve_match`.
    pub open spec fn resolve_match_result(
        &self,
        bank: &Balances,
        lobby_id: Seq<char>,
        winner: Address,
    ) -> Result<(), ErrorCode> {
        if !self.lobbies().contains_key(lobby_id) {
            Err(ErrorCode::LobbyNotFound)
        } else if self.lobbies()[lobby_id].status != LobbyStatus::InProgress {
            Err(ErrorCode::LobbyNotInProgress)
        } else if winner != self.lobbies()[lobby_id].creator && self.lobbies()[lobby_id].opponent
            != Some(winner) {
            Err(ErrorCode::InvalidWinner)
        } else {
            let total = self.vaults()[lobby_id].total_deposited;
            if Self::payout_overflows(
                bank@,
                winner,
                (total - fee_of(total)) as u64,
                self.fee_account(),
                fee_of(total),
            ) {
                Err(ErrorCode::BalanceOverflow)
            } else {
                Ok(())
            }
        }
    }

    /// Settles a match in progress: the winner receives the pot less the
    /// protocol fee, and the fee account receives the fee.
    pub fn resolve_match(
        &mut self,
        bank: &mut Balances,
        lobby_id: &String,
        winner: Address,
        transcript_hash: [u8; 32],
    ) -> (r: Result<(), ErrorCode>)
        requires
            old(self).wf(),
            old(bank).wf(),
        ensures
            final(self).wf(),
            final(bank).wf(),
            r == old(self).resolve_match_result(old(bank), lobby_id@, winner),
            r is Ok ==> {
                let before = old(self).lobbies()[lobby_id@];
                let total = old(self).vaults()[lobby_id@].total_deposited;
                let fee = fee_of(total);
                let winnings = (total - fee) as u64;
                &&& final(self).lobbies() == old(self).lobbies().insert(
                    lobby_id@,
                    (Lobby {
                        status: LobbyStatus::Resolved,
                        winner: Some(winner),
                        transcript_hash: Some(transcript_hash),
                        ..before
                    }),
                )
                &&& final(self).vaults()[lobby_id@].total_deposited == 0
                &&& final(self).vaults().dom() == old(self).vaults().dom()
                &&& forall|id: Seq<char>|
                    id != lobby_id@ ==> #[trigger] final(self).vaults()[id] == old(self).vaults()[id]
                &&& winnings + fee == total
                &&& final(bank)@ == credited(
                    credited(old(bank)@, winner, winnings),
                    old(self).fee_account(),
                    fee,
                )
                &&& final(self).events() == old(self).events().push(
                    EscrowEvent::MatchResolved(
                        (MatchResolved {
                            lobby_id: before.lobby_id,
                            winner,
                            winnings,
                            protocol_fee: fee,
                        }),
                    ),
                )
            },
            r is Err ==> *final(self) == *old(self) && final(bank)@ == old(bank)@,
            final(self).fee_account() == old(self).fee_account(),
    {
        let lobby = match self.lobbies.get(lobby_id) {
            Some(l) => l,
            None => {
                return Err(ErrorCode::LobbyNotFound);
            },
        };
        if lobby.status != LobbyStatus::InProgress {
            return Err(ErrorCode::LobbyNotInProgress);
        }
        let opponent = match lobby.opponent {
            Some(o) => o,
            None => {
                return Err(ErrorCode::NoOpponent);
            },
        };
        if winner != lobby.creator && winner != opponent {
            return Err(ErrorCode::InvalidWinner);
        }
        let vault = match self.vaults.get(lobby_id) {
            Some(v) => v,
            None => {
                return Err(ErrorCode::LobbyNotFound);
            },
        };
        let total = vault.total_deposited;
        let fee = protocol_fee(total);
        let winnings = total - fee;

        let winner_balance = bank.balance_of(&winner);
        if winner_balance > u64::MAX - winnings {
            return Err(ErrorCode::BalanceOverflow);
        }
        let fee_balance = if self.fee_account == winner {
            winner_balance + winnings
        } else {
            bank.balance_of(&self.fee_account)
        };
        if fee_balance > u64::MAX - fee {
            return Err(ErrorCode::BalanceOverflow);
        }

        let mut held = total;
        let paid_winner = bank.pay_out(&mut held, &winner, winnings);
        assert(paid_winner is Ok);
        let paid_fee = bank.pay_out(&mut held, &self.fee_account, fee);
        assert(paid_fee is Ok);

        let resolved = Lobby {
            creator: lobby.creator,
            lobby_id: lobby.lobby_id.clone(),
            wager_lamports: lobby.wager_lamports,
            status: LobbyStatus::Resolved,
            opponent: lobby.opponent,
            winner: Some(winner),
            transcript_hash: Some(transcript_hash),
        };
        let new_vault = Vault { lobby_id: vault.lobby_id.clone(), total_deposited: held };
        let event = MatchResolved {
            lobby_id: lobby.lobby_id.clone(),
            winner,
            winnings,
            protocol_fee: fee,
        };
        self.lobbies.insert(lobby_id.clone(), resolved);
        self.vaults.insert(lobby_id.clone(), new_vault);
        self.events.push(EscrowEvent::MatchResolved(event));
        Ok(())
    }

    /// `bank` after every stake in `lobby` has gone back to its owner: the
    /// creator's, and the opponent's if one joined.
    pub open spec fn refunded(bank: Map<Address, u64>, lobby: Lobby) -> Map<Address, u64> {
        let after_creator = credited(bank, lobby.creator, lobby.wager_lamports);
        match lobby.opponent {
            Some(o) => credited(after_creator, o, lobby.wager_lamports),
            None => after_creator,
        }
    }

    /// Whether refunding the stakes of `lobby` would push a balance past the
    /// largest representable amount.
    pub open spec fn refund_overflows(bank: Map<Address, u64>, lobby: Lobby) -> bool {
        ||| balance_in(bank, lobby.creator) + lobby.wager_lamports > u64::MAX
        ||| lobby.opponent matches Some(o) && balance_in(
            credited(bank, lobby.creator, lobby.wager_lamports),
            o,
        ) + lobby.wager_lamports > u64::MAX
    }

    /// The outcome of `cancel_lobby`.
    pub open spec fn cancel_lobby_result(&self, bank: &Balances, lobby_id: Seq<char>) -> Result<
        (),
        ErrorCode,
    > {
        if !self.lobbies().contains_key(lobby_id) {
            Err(ErrorCode::LobbyNotFound)
        } else if self.lobbies()[lobby_id].status != LobbyStatus::Open
            && self.lobbies()[lobby_id].status != LobbyStatus::Full {
            Err(ErrorCode::CannotCancelLobby)
        } else if Self::refund_overflows(bank@, self.lobbies()[lobby_id]) {
            Err(ErrorCode::BalanceOverflow)
        } else {
            Ok(())
        }
    }

    /// Calls off a lobby whose match has not started, refunding every stake.
    pub fn cancel_lobby(&mut self, bank: &mut Balances, lobby_id: &String) -> (r: Result<
        (),
        ErrorCode,
    >)
        requires
            old(self).wf(),
            old(bank).wf(),
        ensures
            final(self).wf(),
            final(bank).wf(),
            r == old(self).cancel_lobby_result(old(bank), lobby_id@),
            r is Ok ==> {
                let before = old(self).lobbies()[lobby_id@];
                &&& final(self).lobbies() == old(self).lobbies().insert(
                    lobby_id@,
                    (Lobby { status: LobbyStatus::Cancelled, ..before }),
                )
                &&& final(self).vaults()[lobby_id@].total_deposited == 0
                &&& final(self).vaults().dom() == old(self).vaults().dom()
                &&& forall|id: Seq<char>|
                    id != lobby_id@ ==> #[trigger] final(self).vaults()[id] == old(self).vaults()[id]
                &&& final(bank)@ == Self::refunded(old(bank)@, before)
                &&& final(self).events() == old(self).events().push(
                    EscrowEvent::LobbyCancelled((LobbyCancelled { lobby_id: before.lobby_id })),
                )
            },
            r is Err ==> *final(self) == *old(self) && final(bank)@ == old(bank)@,
            final(self).fee_account() == old(self).fee_account(),
    {
        let lobby = match self.lobbies.get(lobby_id) {
            Some(l) => l,
            None => {
                return Err(ErrorCode::LobbyNotFound);
            },
        };
        if lobby.status != LobbyStatus::Open && lobby.status != LobbyStatus::Full {
            return Err(ErrorCode::CannotCancelLobby);
        }
        let vault = match self.vaults.get(lobby_id) {
            Some(v) => v,
            None => {
                return Err(ErrorCode::LobbyNotFound);
            },
        };
        let wager = lobby.wager_lamports;
        let creator_balance = bank.balance_of(&lobby.creator);
        if creator_balance > u64::MAX - wager {
            return Err(ErrorCode::BalanceOverflow);
        }
        if let Some(opponent) = lobby.opponent {
            let opponent_balance = if opponent == lobby.creator {
                creator_balance + wager
            } else {
                bank.balance_of(&opponent)
            };
            if opponent_balance > u64::MAX - wager {
                return Err(ErrorCode::BalanceOverflow);
            }
        }
        assert(lobby_consistent(lobby_id@, *lobby, *vault));

        let mut held = vault.total_deposited;
        let paid_creator = bank.pay_out(&mut held, &lobby.creator, wager);
        assert(paid_creator is Ok);
        if let Some(opponent) = lobby.opponent {
            let paid_opponent = bank.pay_out(&mut held, &opponent, wager);
            assert(paid_opponent is Ok);
        }

        let cancelled = Lobby {
            creator: lobby.creator,
            lobby_id: lobby.lobby_id.clone(),
            wager_lamports: wager,
            status: LobbyStatus::Cancelled,
            opponent: lobby.opponent,
            winner: lobby.winner,
            transcript_hash: lobby.transcript_hash,
        };
        let new_vault = Vault { lobby_id: vault.lobby_id.clone(), total_deposited: held };
        let event = LobbyCancelled { lobby_id: lobby.lobby_id.clone() };
        self.lobbies.insert(lobby_id.clone(), cancelled);
        self.vaults.insert(lobby_id.clone(), new_vault);
        self.events.push(EscrowEvent::LobbyCancelled(event));
        Ok(())
    }
}

/// A lobby's vault holds exactly the stakes paid in and not yet paid out:
/// one wager while open, two once an opponent has joined, and nothing once
/// the match is resolved or the lobby cancelled.
pub proof fn lemma_vault_holds_stakes(ledger: &EscrowLedger, lobby_id: Seq<char>)
    requires
        ledger.wf(),
        ledger.lobbies().contains_key(lobby_id),
    ensures
        ledger.vaults().contains_key(lobby_id),
        ledger.lobbies()[lobby_id].status == LobbyStatus::Open
            ==> ledger.vaults()[lobby_id].total_deposited == ledger.lobbies()[lobby_id].wager_lamports,
        ledger.lobbies()[lobby_id].status == LobbyStatus::Full
            || ledger.lobbies()[lobby_id].status == LobbyStatus::InProgress
            ==> ledger.vaults()[lobby_id].total_deposited == 2 * ledger.lobbies()[lobby_id].wager_lamports,
        ledger.lobbies()[lobby_id].status == LobbyStatus::Resolved
            || ledger.lobbies()[lobby_id].status == LobbyStatus::Cancelled
            ==> ledger.vaults()[lobby_id].total_deposited == 0,
{
}

/// The pot is split exactly: winnings and fee add up to the whole.
pub proof fn lemma_fee_split_exact(total: u64)
    ensures
        fee_of(total) <= total,
        (total - fee_of(total)) + fee_of(total) == total,
{
    assert(total as int * 250 / 10000 <= total) by (nonlinear_arith);
}

/// The creator of an open lobby cannot join it.
pub proof fn lemma_join_own_lobby_refused(ledger: &EscrowLedger, bank: &Balances, lobby_id: Seq<char>)
    requires
        ledger.lobbies().contains_key(lobby_id),
        ledger.lobbies()[lobby_id].status == LobbyStatus::Open,
    ensures
        ledger.join_lobby_result(bank, lobby_id, ledger.lobbies()[lobby_id].creator) == Err::<
            (),
            ErrorCode,
        >(ErrorCode::CannotJoinOwnLobby),
{
}

/// Cancelling gives back each stake to whoever paid it and to nobody else:
/// the creator alone when no opponent joined, else the creator and the
/// opponent one wager each.
pub proof fn lemma_cancel_refunds_stakes(bank: Map<Address, u64>, lobby: Lobby, a: Address)
    requires
        lobby.opponent matches Some(o) ==> o != lobby.creator,
        !EscrowLedger::refund_overflows(bank, lobby),
    ensures
        balance_in(EscrowLedger::refunded(bank, lobby), a) == balance_in(bank, a) + if a
            == lobby.creator || lobby.opponent == Some(a) {
            lobby.wager_lamports as int
        } else {
            0
        },
{
}

} // verus!
