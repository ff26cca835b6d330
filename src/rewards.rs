//! Turning a 32-byte randomness buffer into the cards of one pack.
use vstd::prelude::*;

verus! {

/// Number of cards in every pack.
pub const CARDS_PER_PACK: usize = 5;

/// Number of species a card can show.
pub const SPECIES_COUNT: u64 = 151;

/// Rarity tiers, ordered from most to least common.
#[derive(Clone, Copy, Debug, PartialEq, Eq, Structural)]
pub enum Rarity {
    Common,
    Rare,
    Legendary,
}

/// One card awarded by a pack.
#[derive(Clone, Copy, Debug, PartialEq, Eq, Structural)]
pub struct CardReward {
    /// Species index, in `1..=SPECIES_COUNT`.
    pub dex_number: u16,
    pub rarity: Rarity,
    pub is_shiny: bool,
    pub level: u8,
}

/// The little-endian 32-bit value of the four bytes of `seed` at `off`.
pub open spec fn word_le(seed: Seq<u8>, off: int) -> u64 {
    (seed[off] as int + 256 * seed[off + 1] as int + 65536 * seed[off + 2] as int
        + 16777216 * seed[off + 3] as int) as u64
}

/// One step of the linear-congruential generator, modulo 2^64.
pub open spec fn lcg_step(v: u64) -> u64 {
    ((v as int * 1103515245 + 12345) % 0x1_0000_0000_0000_0000) as u64
}

/// `seed` with the four bytes at `off` replaced by the low four bytes of `v`,
/// least significant first.
pub open spec fn store_word_le(seed: Seq<u8>, off: int, v: u64) -> Seq<u8> {
    seed.update(off, (v % 256) as u8)
        .update(off + 1, ((v / 256) % 256) as u8)
        .update(off + 2, ((v / 65536) % 256) as u8)
        .update(off + 3, ((v / 16777216) % 256) as u8)
}

/// Rarity drawn from a generator value: 2 in 100 Legendary, 18 in 100 Rare.
pub open spec fn rarity_of(v: u64) -> Rarity {
    if v % 100 < 2 {
        Rarity::Legendary
    } else if v % 100 < 20 {
        Rarity::Rare
    } else {
        Rarity::Common
    }
}

/// The card that a generator value stands for.
pub open spec fn card_of(v: u64) -> CardReward {
    CardReward {
        dex_number: (v % 151 + 1) as u16,
        rarity: rarity_of(v),
        is_shiny: v % 128 == 0,
        level: 1,
    }
}

/// The card drawn at position `i` from the randomness `seed`.
pub open spec fn card_at(seed: Seq<u8>, i: int) -> CardReward {
    card_of(lcg_step(word_le(seed, 4 * i)))
}

/// The cards of a pack opened with `randomness`.
pub open spec fn pack_cards(randomness: Seq<u8>) -> Seq<CardReward> {
    Seq::new(CARDS_PER_PACK as nat, |i: int| card_at(randomness, i))
}

/// Draws the card at position `index`, and writes the generator's new value
/// back into the seed.
pub fn generate_single_card(rng_seed: &mut [u8; 32], index: usize) -> (r: CardReward)
    requires
        index < 8,
    ensures
        r == card_at(old(rng_seed)@, index as int),
        1 <= r.dex_number <= SPECIES_COUNT,
        final(rng_seed)@ == store_word_le(
            old(rng_seed)@,
            4 * index as int,
            lcg_step(word_le(old(rng_seed)@, 4 * index as int)),
        ),
{
    let off: usize = index * 4;
    let b0 = rng_seed[off] as u64;
    let b1 = rng_seed[off + 1] as u64;
    let b2 = rng_seed[off + 2] as u64;
    let b3 = rng_seed[off + 3] as u64;
    let mut value: u64 = b0 + 256 * b1 + 65536 * b2 + 16777216 * b3;
    let ghost v0 = value;
    assert(v0 < 0x1_0000_0000);
    assert(v0 as int * 1103515245 + 12345 < 0x1_0000_0000_0000_0000) by (nonlinear_arith)
        requires
            v0 < 0x1_0000_0000,
    ;

    value = value.wrapping_mul(1103515245).wrapping_add(12345);
    assert(value == lcg_step(v0));

    rng_seed[off] = (value % 256) as u8;
    rng_seed[off + 1] = ((value / 256) % 256) as u8;
    rng_seed[off + 2] = ((value / 65536) % 256) as u8;
    rng_seed[off + 3] = ((value / 16777216) % 256) as u8;

    let rarity_roll = value % 100;
    let rarity = if rarity_roll < 2 {
        Rarity::Legendary
    } else if rarity_roll < 20 {
        Rarity::Rare
    } else {
        Rarity::Common
    };

    let shiny_roll = value % 128;
    let is_shiny = shiny_roll == 0;

    let pokemon_roll = value % SPECIES_COUNT;
    let dex_number = (pokemon_roll + 1) as u16;

    CardReward { dex_number, rarity, is_shiny, level: 1 }
}

/// Derives the cards of a pack from 32 bytes of randomness.
pub fn generate_pack_rewards(randomness: [u8; 32]) -> (r: Vec<CardReward>)
    ensures
        r@ == pack_cards(randomness@),
{
    let mut rewards: Vec<CardReward> = Vec::new();
    let mut rng_seed = randomness;
    let mut i: usize = 0;
    while i < CARDS_PER_PACK
        invariant
            i <= CARDS_PER_PACK,
            rewards@.len() == i,
            forall|j: int| 0 <= j < i ==> rewards@[j] == card_at(randomness@, j),
            forall|k: int| 4 * i <= k < 32 ==> rng_seed@[k] == randomness@[k],
        decreases CARDS_PER_PACK - i,
    {
        let card_reward = generate_single_card(&mut rng_seed, i);
        rewards.push(card_reward);
        i = i + 1;
    }
    assert(rewards@ =~= pack_cards(randomness@));
    rewards
}

/// Every card shows a species index between 1 and `SPECIES_COUNT`, at level 1.
pub proof fn lemma_card_species_in_range(v: u64)
    ensures
        1 <= card_of(v).dex_number <= SPECIES_COUNT,
        card_of(v).level == 1,
{
}

/// Where every four-byte group read by the derivation is zero, each of the
/// cards is the common, non-shiny species 115: the generator yields 12345,
/// whose rolls are 45 for rarity, 57 for shininess and 114 for species.
pub proof fn lemma_zero_randomness_cards(randomness: Seq<u8>)
    requires
        randomness.len() == 32,
        forall|i: int| 0 <= i < CARDS_PER_PACK ==> #[trigger] word_le(randomness, 4 * i) == 0,
    ensures
        forall|i: int|
            0 <= i < CARDS_PER_PACK ==> #[trigger] pack_cards(randomness)[i] == (CardReward {
                dex_number: 115,
                rarity: Rarity::Common,
                is_shiny: false,
                level: 1,
            }),
{
    assert(lcg_step(0) == 12345);
    assert(12345u64 % 100 == 45);
    assert(12345u64 % 128 == 57);
    assert(12345u64 % 151 == 114);
}

/// The generator's value after one step from a 32-bit word is a multiple of
/// five, so the rarity roll is one of 0, 5, .., 95: in 1 of these 20 cases
/// the card is Legendary and in 3 of them Rare.
pub proof fn lemma_rarity_roll_multiple_of_five(v: u64)
    requires
        v < 0x1_0000_0000,
    ensures
        lcg_step(v) % 5 == 0,
        lcg_step(v) % 100 % 5 == 0,
{
    assert(v as int * 1103515245 + 12345 < 0x1_0000_0000_0000_0000) by (nonlinear_arith)
        requires
            v < 0x1_0000_0000,
    ;
    assert((v as int * 1103515245 + 12345) % 5 == 0) by (nonlinear_arith);
}

} // verus!
