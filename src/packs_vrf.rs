//! Card packs: bought at a fixed price, opened once with externally supplied
//! randomness, and claimed once.
use vstd::prelude::*;
use crate::address::Address;
use crate::rewards::{CardReward, generate_pack_rewards, pack_cards};
use crate::store::KeyedStore;
use crate::transfer::{Balances, TransferError, debited};

verus! {

/// Price of one pack, in the ledger's smallest unit.
pub const PACK_PRICE_LAMPORTS: u64 = 100_000_000;

/// Where a pack stands: `Purchased -> VrfRequested -> Opened`, strictly forward.
#[derive(Clone, Copy, Debug, PartialEq, Eq, Structural)]
pub enum PackStatus {
    Purchased,
    VrfRequested,
    Opened,
}

/// Position of a status in the forward order.
pub open spec fn status_rank(s: PackStatus) -> int {
    match s {
        PackStatus::Purchased => 0,
        PackStatus::VrfRequested => 1,
        PackStatus::Opened => 2,
    }
}

/// A purchased pack.
#[derive(Clone, Debug, PartialEq, Eq)]
pub struct Pack {
    pub buyer: Address,
    pub pack_id: String,
    pub price_lamports: u64,
    pub status: PackStatus,
    pub vrf_request_id: Option<String>,
    pub rewards: Option<Vec<CardReward>>,
    /// When the pack was opened, in seconds since the Unix epoch.
    pub opened_at: Option<i64>,
    pub claimed: bool,
}

/// A pack, with its strings and reward list as sequences.
pub struct PackView {
    pub buyer: Address,
    pub pack_id: Seq<char>,
    pub price_lamports: u64,
    pub status: PackStatus,
    pub vrf_request_id: Option<Seq<char>>,
    pub rewards: Option<Seq<CardReward>>,
    pub opened_at: Option<i64>,
    pub claimed: bool,
}

impl View for Pack {
    type V = PackView;

    open spec fn view(&self) -> PackView {
        PackView {
            buyer: self.buyer,
            pack_id: self.pack_id@,
            price_lamports: self.price_lamports,
            status: self.status,
            vrf_request_id: match self.vrf_request_id {
                Some(s) => Some(s@),
                None => None,
            },
            rewards: match self.rewards {
                Some(v) => Some(v@),
                None => None,
            },
            opened_at: self.opened_at,
            claimed: self.claimed,
        }
    }
}

/// The revenue collected from every pack sold.
#[derive(Clone, Copy, Debug, PartialEq, Eq, Structural)]
pub struct PackVault {
    pub total_revenue: u64,
}

/// Why a pack operation was refused. A refused operation changes nothing.
#[derive(Clone, Copy, Debug, PartialEq, Eq, Structural)]
pub enum ErrorCode {
    DuplicatePack,
    PackNotFound,
    PackNotPurchased,
    VrfNotRequested,
    NoVrfRequest,
    PackNotOpened,
    NoRewards,
    AlreadyClaimed,
    InsufficientFunds,
    BalanceOverflow,
}

/// The pack error for a failed movement of value.
pub open spec fn transfer_error(e: TransferError) -> ErrorCode {
    match e {
        TransferError::InsufficientFunds => ErrorCode::InsufficientFunds,
        TransferError::BalanceOverflow => ErrorCode::BalanceOverflow,
    }
}

fn from_transfer_error(e: TransferError) -> (r: ErrorCode)
    ensures
        r == transfer_error(e),
{
    match e {
        TransferError::InsufficientFunds => ErrorCode::InsufficientFunds,
        TransferError::BalanceOverflow => ErrorCode::BalanceOverflow,
    }
}

/// A pack was sold.
/// A pack was sold.
#[derive(Clone, Debug, PartialEq, Eq)]
pub struct PackPurchased {
    pub pack_id: String,
    pub buyer: Address,
    pub price_lamports: u64,
}

/// Randomness was asked for to open a pack.
/// Randomness was asked for to open a pack.
#[derive(Clone, Debug, PartialEq, Eq)]
pub struct VrfRequested {
    pub pack_id: String,
    pub vrf_request_id: String,
}

/// A pack was opened, with the cards it awarded.
/// A pack was opened, with the cards it awarded.
#[derive(Clone, Debug, PartialEq, Eq)]
pub struct PackOpened {
    pub pack_id: String,
    pub buyer: Address,
    pub rewards: Vec<CardReward>,
}

/// The rewards of a pack were claimed.
/// The rewards of a pack were claimed.
#[derive(Clone, Debug, PartialEq, Eq)]
pub struct RewardsClaimed {
    pub pack_id: String,
    pub buyer: Address,
}

/// A notification written on every successful transition.
#[derive(Clone, Debug, PartialEq, Eq)]
pub enum PackEvent {
    PackPurchased(PackPurchased),
    VrfRequested(VrfRequested),
    PackOpened(PackOpened),
    RewardsClaimed(RewardsClaimed),
}

/// How the fields of a pack stored under `id` agree with its status.
pub open spec fn pack_consistent(id: Seq<char>, p: PackView) -> bool {
    &&& p.pack_id == id
    &&& p.price_lamports == PACK_PRICE_LAMPORTS
    &&& (p.status == PackStatus::Purchased ==> p.vrf_request_id is None)
    &&& (p.status != PackStatus::Purchased ==> p.vrf_request_id is Some)
    &&& (p.rewards is Some <==> p.status == PackStatus::Opened)
    &&& (p.opened_at is Some <==> p.status == PackStatus::Opened)
    &&& (p.claimed ==> p.status == PackStatus::Opened)
}

/// Pack `after` is pack `before` moved forward: same pack, status no
/// earlier, and a claim never undone.
pub open spec fn pack_advances(before: PackView, after: PackView) -> bool {
    &&& after.buyer == before.buyer
    &&& after.pack_id == before.pack_id
    &&& after.price_lamports == before.price_lamports
    &&& status_rank(before.status) <= status_rank(after.status)
    &&& (before.claimed ==> after.claimed)
    &&& (before.status == PackStatus::Opened ==> after.rewards == before.rewards
        && after.opened_at == before.opened_at)
}

/// Every pack of `before` is still in `after`, moved forward.
pub open spec fn packs_advance(
    before: Map<Seq<char>, PackView>,
    after: Map<Seq<char>, PackView>,
) -> bool {
    forall|id: Seq<char>|
        #[trigger] before.contains_key(id) ==> after.contains_key(id) && pack_advances(
            before[id],
            after[id],
        )
}

fn copy_request_id(o: &Option<String>) -> (r: Option<String>)
    ensures
        r == *o,
{
    match o {
        Some(s) => Some(s.clone()),
        None => None,
    }
}

fn copy_rewards(o: &Option<Vec<CardReward>>) -> (r: Option<Vec<CardReward>>)
    ensures
        r is Some <==> o is Some,
        r matches Some(v) ==> v@ == o->Some_0@,
{
    match o {
        Some(v) => {
            let c = v.clone();
            assert(c@ =~= v@);
            Some(c)
        },
        None => None,
    }
}

/// Every pack, the shared revenue vault, and the log of transitions.
pub struct PackLedger {
    packs: KeyedStore<Pack>,
    vault: PackVault,
    events: Vec<PackEvent>,
}

impl PackLedger {
    /// The packs, by identifier.
    pub closed spec fn packs(&self) -> Map<Seq<char>, PackView> {
        self.packs@.map_values(|p: Pack| p@)
    }

    /// The revenue vault.
    pub closed spec fn vault(&self) -> PackVault {
        self.vault
    }

    /// The transitions so far, oldest first.
    pub closed spec fn events(&self) -> Seq<PackEvent> {
        self.events@
    }

    /// The table behind the ledger is well formed.
    pub closed spec fn store_wf(&self) -> bool {
        self.packs.wf()
    }

    /// Every pack agrees with its status.
    pub open spec fn wf(&self) -> bool {
        &&& self.store_wf()
        &&& forall|id: Seq<char>|
            #[trigger] self.packs().contains_key(id) ==> pack_consistent(id, self.packs()[id])
    }

    /// A ledger with no packs and no revenue.
    pub fn new() -> (r: PackLedger)
        ensures
            r.wf(),
            r.packs() == Map::<Seq<char>, PackView>::empty(),
            r.vault().total_revenue == 0,
            r.events() == Seq::<PackEvent>::empty(),
    {
        let r = PackLedger {
            packs: KeyedStore::new(),
            vault: PackVault { total_revenue: 0 },
            events: Vec::new(),
        };
        assert(r.packs() =~= Map::<Seq<char>, PackView>::empty());
        r
    }

    /// The pack stored under `pack_id`, if any.
    pub fn pack(&self, pack_id: &String) -> (r: Option<&Pack>)
        requires
            self.wf(),
        ensures
            match r {
                Some(p) => self.packs().contains_key(pack_id@) && p@ == self.packs()[pack_id@],
                None => !self.packs().contains_key(pack_id@),
            },
    {
        self.packs.get(pack_id)
    }

    /// The revenue vault.
    pub fn revenue(&self) -> (r: PackVault)
        ensures
            r == self.vault(),
    {
        self.vault
    }

    /// The transitions so far, oldest first.
    pub fn event_log(&self) -> (r: &Vec<PackEvent>)
        ensures
            r@ == self.events(),
    {
        &self.events
    }

    /// The outcome of `buy_pack`.
    pub open spec fn buy_pack_result(&self, bank: &Balances, pack_id: Seq<char>, buyer: Address) -> Result<
        (),
        ErrorCode,
    > {
        if self.packs().contains_key(pack_id) {
            Err(ErrorCode::DuplicatePack)
        } else if bank.lamports(buyer) < PACK_PRICE_LAMPORTS {
            Err(ErrorCode::InsufficientFunds)
        } else if self.vault().total_revenue + PACK_PRICE_LAMPORTS > u64::MAX {
            Err(ErrorCode::BalanceOverflow)
        } else {
            Ok(())
        }
    }

    /// Sells a pack under `pack_id` to `buyer`, moving the price into the
    /// revenue vault.
    pub fn buy_pack(&mut self, bank: &mut Balances, pack_id: String, buyer: Address) -> (r: Result<
        (),
        ErrorCode,
    >)
        requires
            old(self).wf(),
            old(bank).wf(),
        ensures
            final(self).wf(),
            final(bank).wf(),
            r == old(self).buy_pack_result(old(bank), pack_id@, buyer),
            r is Ok ==> {
                &&& final(self).packs() == old(self).packs().insert(
                    pack_id@,
                    (PackView {
                        buyer,
                        pack_id: pack_id@,
                        price_lamports: PACK_PRICE_LAMPORTS,
                        status: PackStatus::Purchased,
                        vrf_request_id: None,
                        rewards: None,
                        opened_at: None,
                        claimed: false,
                    }),
                )
                &&& final(self).vault().total_revenue == old(self).vault().total_revenue
                    + PACK_PRICE_LAMPORTS
                &&& final(bank)@ == debited(old(bank)@, buyer, PACK_PRICE_LAMPORTS)
                &&& final(self).events() == old(self).events().push(
                    PackEvent::PackPurchased(
                        (PackPurchased { pack_id, buyer, price_lamports: PACK_PRICE_LAMPORTS }),
                    ),
                )
            },
            r is Err ==> *final(self) == *old(self) && final(bank)@ == old(bank)@,
            packs_advance(old(self).packs(), final(self).packs()),
            old(self).vault().total_revenue <= final(self).vault().total_revenue,
    {
        if self.packs.contains(&pack_id) {
            return Err(ErrorCode::DuplicatePack);
        }
        let mut total_revenue = self.vault.total_revenue;
        match bank.pay_in(&buyer, &mut total_revenue, PACK_PRICE_LAMPORTS) {
            Ok(()) => {},
            Err(e) => {
                return Err(from_transfer_error(e));
            },
        }
        let pack = Pack {
            buyer,
            pack_id: pack_id.clone(),
            price_lamports: PACK_PRICE_LAMPORTS,
            status: PackStatus::Purchased,
            vrf_request_id: None,
            rewards: None,
            opened_at: None,
            claimed: false,
        };
        let event = PackPurchased {
            pack_id: pack_id.clone(),
            buyer,
            price_lamports: PACK_PRICE_LAMPORTS,
        };
        let ghost before = self.packs();
        self.packs.insert(pack_id, pack);
        self.vault = PackVault { total_revenue };
        self.events.push(PackEvent::PackPurchased(event));
        assert(self.packs() =~= before.insert(pack@.pack_id, pack@));
        Ok(())
    }

    /// The outcome of `request_vrf`.
    pub open spec fn request_vrf_result(&self, pack_id: Seq<char>) -> Result<(), ErrorCode> {
        if !self.packs().contains_key(pack_id) {
            Err(ErrorCode::PackNotFound)
        } else if self.packs()[pack_id].status != PackStatus::Purchased {
            Err(ErrorCode::PackNotPurchased)
        } else {
            Ok(())
        }
    }

    /// Records that randomness was asked for under `vrf_request_id`.
    pub fn request_vrf(&mut self, pack_id: &String, vrf_request_id: String) -> (r: Result<
        (),
        ErrorCode,
    >)
        requires
            old(self).wf(),
        ensures
            final(self).wf(),
            r == old(self).request_vrf_result(pack_id@),
            r is Ok ==> {
                let before = old(self).packs()[pack_id@];
                &&& final(self).packs() == old(self).packs().insert(
                    pack_id@,
                    (PackView {
                        status: PackStatus::VrfRequested,
                        vrf_request_id: Some(vrf_request_id@),
                        ..before
                    }),
                )
                &&& final(self).vault() == old(self).vault()
                &&& final(self).events().drop_last() == old(self).events()
                &&& final(self).events().last() matches PackEvent::VrfRequested(e) && e.pack_id@
                    == pack_id@ && e.vrf_request_id@ == vrf_request_id@
            },
            r is Err ==> *final(self) == *old(self),
            packs_advance(old(self).packs(), final(self).packs()),
    {
        let pack = match self.packs.get(pack_id) {
            Some(p) => p,
            None => {
                return Err(ErrorCode::PackNotFound);
            },
        };
        if pack.status != PackStatus::Purchased {
            return Err(ErrorCode::PackNotPurchased);
        }
        let requested = Pack {
            buyer: pack.buyer,
            pack_id: pack.pack_id.clone(),
            price_lamports: pack.price_lamports,
            status: PackStatus::VrfRequested,
            vrf_request_id: Some(vrf_request_id.clone()),
            rewards: None,
            opened_at: pack.opened_at,
            claimed: pack.claimed,
        };
        let event = VrfRequested { pack_id: pack.pack_id.clone(), vrf_request_id };
        let ghost before = self.packs();
        assert(before.contains_key(pack_id@));
        self.packs.insert(pack_id.clone(), requested);
        self.events.push(PackEvent::VrfRequested(event));
        assert(self.packs() =~= before.insert(pack_id@, requested@));
        assert(self.events@.drop_last() =~= old(self).events@);
        Ok(())
    }

    /// The outcome of `fulfill_vrf`.
    pub open spec fn fulfill_vrf_result(&self, pack_id: Seq<char>) -> Result<(), ErrorCode> {
        if !self.packs().contains_key(pack_id) {
            Err(ErrorCode::PackNotFound)
        } else if self.packs()[pack_id].status != PackStatus::VrfRequested {
            Err(ErrorCode::VrfNotRequested)
        } else if self.packs()[pack_id].vrf_request_id is None {
            Err(ErrorCode::NoVrfRequest)
        } else {
            Ok(())
        }
    }

    /// Opens a pack with the randomness delivered for its request, at time
    /// `now`: the only place where randomness is consumed.
    pub fn fulfill_vrf(&mut self, pack_id: &String, randomness: [u8; 32], now: i64) -> (r: Result<
        (),
        ErrorCode,
    >)
        requires
            old(self).wf(),
        ensures
            final(self).wf(),
            r == old(self).fulfill_vrf_result(pack_id@),
            r is Ok ==> {
                let before = old(self).packs()[pack_id@];
                &&& final(self).packs() == old(self).packs().insert(
                    pack_id@,
                    (PackView {
                        status: PackStatus::Opened,
                        rewards: Some(pack_cards(randomness@)),
                        opened_at: Some(now),
                        ..before
                    }),
                )
                &&& final(self).vault() == old(self).vault()
                &&& final(self).events().drop_last() == old(self).events()
                &&& final(self).events().last() matches PackEvent::PackOpened(e) && e.pack_id@
                    == pack_id@ && e.buyer == before.buyer && e.rewards@ == pack_cards(
                    randomness@,
                )
            },
            r is Err ==> *final(self) == *old(self),
            packs_advance(old(self).packs(), final(self).packs()),
    {
        let pack = match self.packs.get(pack_id) {
            Some(p) => p,
            None => {
                return Err(ErrorCode::PackNotFound);
            },
        };
        if pack.status != PackStatus::VrfRequested {
            return Err(ErrorCode::VrfNotRequested);
        }
        if pack.vrf_request_id.is_none() {
            return Err(ErrorCode::NoVrfRequest);
        }
        let rewards = generate_pack_rewards(randomness);
        let announced = rewards.clone();
        assert(announced@ =~= rewards@);
        let opened = Pack {
            buyer: pack.buyer,
            pack_id: pack.pack_id.clone(),
            price_lamports: pack.price_lamports,
            status: PackStatus::Opened,
            vrf_request_id: copy_request_id(&pack.vrf_request_id),
            rewards: Some(rewards),
            opened_at: Some(now),
            claimed: pack.claimed,
        };
        let event = PackOpened { pack_id: pack.pack_id.clone(), buyer: pack.buyer, rewards: announced };
        let ghost before = self.packs();
        assert(before.contains_key(pack_id@));
        self.packs.insert(pack_id.clone(), opened);
        self.events.push(PackEvent::PackOpened(event));
        assert(self.packs() =~= before.insert(pack_id@, opened@));
        assert(self.events@.drop_last() =~= old(self).events@);
        Ok(())
    }

    /// The outcome of `claim_rewards`.
    pub open spec fn claim_rewards_result(&self, pack_id: Seq<char>) -> Result<(), ErrorCode> {
        if !self.packs().contains_key(pack_id) {
            Err(ErrorCode::PackNotFound)
        } else if self.packs()[pack_id].status != PackStatus::Opened {
            Err(ErrorCode::PackNotOpened)
        } else if self.packs()[pack_id].rewards is None {
            Err(ErrorCode::NoRewards)
        } else if self.packs()[pack_id].claimed {
            Err(ErrorCode::AlreadyClaimed)
        } else {
            Ok(())
        }
    }

    /// Marks the rewards of an opened pack as claimed, once.
    pub fn claim_rewards(&mut self, pack_id: &String) -> (r: Result<(), ErrorCode>)
        requires
            old(self).wf(),
        ensures
            final(self).wf(),
            r == old(self).claim_rewards_result(pack_id@),
            r is Ok ==> {
                let before = old(self).packs()[pack_id@];
                &&& final(self).packs() == old(self).packs().insert(
                    pack_id@,
                    (PackView { claimed: true, ..before }),
                )
                &&& final(self).vault() == old(self).vault()
                &&& final(self).events().drop_last() == old(self).events()
                &&& final(self).events().last() matches PackEvent::RewardsClaimed(e) && e.pack_id@
                    == pack_id@ && e.buyer == before.buyer
            },
            r is Err ==> *final(self) == *old(self),
            packs_advance(old(self).packs(), final(self).packs()),
    {
        let pack = match self.packs.get(pack_id) {
            Some(p) => p,
            None => {
                return Err(ErrorCode::PackNotFound);
            },
        };
        if pack.status != PackStatus::Opened {
            return Err(ErrorCode::PackNotOpened);
        }
        if pack.rewards.is_none() {
            return Err(ErrorCode::NoRewards);
        }
        if pack.claimed {
            return Err(ErrorCode::AlreadyClaimed);
        }
        let claimed = Pack {
            buyer: pack.buyer,
            pack_id: pack.pack_id.clone(),
            price_lamports: pack.price_lamports,
            status: pack.status,
            vrf_request_id: copy_request_id(&pack.vrf_request_id),
            rewards: copy_rewards(&pack.rewards),
            opened_at: pack.opened_at,
            claimed: true,
        };
        let event = RewardsClaimed { pack_id: pack.pack_id.clone(), buyer: pack.buyer };
        let ghost before = self.packs();
        assert(before.contains_key(pack_id@));
        self.packs.insert(pack_id.clone(), claimed);
        self.events.push(PackEvent::RewardsClaimed(event));
        assert(self.packs() =~= before.insert(pack_id@, claimed@));
        assert(self.events@.drop_last() =~= old(self).events@);
        Ok(())
    }
}

/// Moving forward composes: over any run of operations, every pack's status
/// only rises, a claim is never undone, and an opened pack keeps its rewards.
pub proof fn lemma_packs_advance_transitive(
    a: Map<Seq<char>, PackView>,
    b: Map<Seq<char>, PackView>,
    c: Map<Seq<char>, PackView>,
)
    requires
        packs_advance(a, b),
        packs_advance(b, c),
    ensures
        packs_advance(a, c),
{
    assert forall|id: Seq<char>| #[trigger] a.contains_key(id) implies c.contains_key(id)
        && pack_advances(a[id], c[id]) by {
        assert(b.contains_key(id));
    }
}

/// The rewards of a pack can be claimed once only: a claimed pack refuses
/// another claim.
pub proof fn lemma_claim_at_most_once(ledger: &PackLedger, pack_id: Seq<char>)
    requires
        ledger.wf(),
        ledger.packs().contains_key(pack_id),
        ledger.packs()[pack_id].claimed,
    ensures
        ledger.claim_rewards_result(pack_id) == Err::<(), ErrorCode>(ErrorCode::AlreadyClaimed),
{
}

/// Randomness is consumed at most once per pack: once opened, a pack refuses
/// to be fulfilled again, and a refused operation changes nothing.
pub proof fn lemma_fulfill_at_most_once(ledger: &PackLedger, pack_id: Seq<char>)
    requires
        ledger.packs().contains_key(pack_id),
        ledger.packs()[pack_id].status == PackStatus::Opened,
    ensures
        ledger.fulfill_vrf_result(pack_id) == Err::<(), ErrorCode>(ErrorCode::VrfNotRequested),
{
}

/// A pack that has not been opened yet refuses a claim as not opened.
pub proof fn lemma_claim_before_open_refused(ledger: &PackLedger, pack_id: Seq<char>)
    requires
        ledger.packs().contains_key(pack_id),
        ledger.packs()[pack_id].status != PackStatus::Opened,
    ensures
        ledger.claim_rewards_result(pack_id) == Err::<(), ErrorCode>(ErrorCode::PackNotOpened),
{
}

} // verus!
