use poke_ledgers::rewards::{generate_pack_rewards, generate_single_card, CardReward, Rarity};

#[test]
fn zero_randomness_gives_five_identical_cards() {
    let cards = generate_pack_rewards([0u8; 32]);
    let expected = CardReward { dex_number: 115, rarity: Rarity::Common, is_shiny: false, level: 1 };
    assert_eq!(cards, vec![expected; 5]);
}

#[test]
fn single_card_from_known_word() {
    let mut seed = [0u8; 32];
    seed[0] = 1;
    let card = generate_single_card(&mut seed, 0);
    assert_eq!(
        card,
        CardReward { dex_number: 112, rarity: Rarity::Common, is_shiny: false, level: 1 }
    );
    assert_eq!(&seed[0..4], &[166, 126, 198, 65]);
    assert!(seed[4..].iter().all(|b| *b == 0));
}

#[test]
fn single_card_reads_little_endian_word_at_its_offset() {
    let mut seed = [0u8; 32];
    seed[8] = 1;
    seed[9] = 2;
    seed[10] = 3;
    seed[11] = 4;
    let card = generate_single_card(&mut seed, 2);
    assert_eq!(
        card,
        CardReward { dex_number: 115, rarity: Rarity::Common, is_shiny: false, level: 1 }
    );
    assert_eq!(&seed[8..12], &[166, 88, 170, 109]);
    assert!(seed[0..8].iter().all(|b| *b == 0));
}

#[test]
fn rarity_roll_of_twenty_is_common() {
    let mut seed = [0u8; 32];
    for b in seed[12..16].iter_mut() {
        *b = 0xff;
    }
    let card = generate_single_card(&mut seed, 3);
    assert_eq!(
        card,
        CardReward { dex_number: 106, rarity: Rarity::Common, is_shiny: false, level: 1 }
    );
    assert_eq!(&seed[12..16], &[204, 225, 57, 190]);
}

#[test]
fn pack_cards_follow_their_own_words() {
    let mut randomness = [0u8; 32];
    randomness[0] = 1;
    randomness[8] = 1;
    randomness[9] = 2;
    randomness[10] = 3;
    randomness[11] = 4;
    randomness[12..16].copy_from_slice(&[0xff; 4]);
    let cards = generate_pack_rewards(randomness);
    let common = |dex| CardReward { dex_number: dex, rarity: Rarity::Common, is_shiny: false, level: 1 };
    assert_eq!(cards[0], common(112));
    assert_eq!(cards[1], common(115));
    assert_eq!(cards[2], common(115));
    assert_eq!(cards[3], common(106));
    assert_eq!(cards[4], common(115));
}

#[test]
fn legendary_and_rare_cards_occur() {
    // Each small word against the rules written out, until every tier has shown up.
    let mut seen_legendary = false;
    let mut seen_rare = false;
    for v in 0u32..200 {
        let mut seed = [0u8; 32];
        seed[0..4].copy_from_slice(&v.to_le_bytes());
        let card = generate_single_card(&mut seed, 0);
        let v1 = (v as u64) * 1103515245 + 12345;
        let roll = v1 % 100;
        let expected = if roll < 2 {
            Rarity::Legendary
        } else if roll < 20 {
            Rarity::Rare
        } else {
            Rarity::Common
        };
        assert_eq!(card.rarity, expected);
        assert_eq!(card.dex_number as u64, v1 % 151 + 1);
        assert_eq!(card.is_shiny, v1 % 128 == 0);
        seen_legendary |= card.rarity == Rarity::Legendary;
        seen_rare |= card.rarity == Rarity::Rare;
    }
    assert!(seen_legendary && seen_rare);
}

#[test]
fn derivation_is_deterministic() {
    let mut randomness = [0u8; 32];
    for (i, b) in randomness.iter_mut().enumerate() {
        *b = (i as u8).wrapping_mul(37).wrapping_add(11);
    }
    assert_eq!(generate_pack_rewards(randomness), generate_pack_rewards(randomness));
}

struct SplitMix(u64);

impl SplitMix {
    fn next(&mut self) -> u64 {
        self.0 = self.0.wrapping_add(0x9e3779b97f4a7c15);
        let mut z = self.0;
        z = (z ^ (z >> 30)).wrapping_mul(0xbf58476d1ce4e5b9);
        z = (z ^ (z >> 27)).wrapping_mul(0x94d049bb133111eb);
        z ^ (z >> 31)
    }
}

#[test]
fn species_in_range_and_tiers_at_their_rates() {
    let mut rng = SplitMix(42);
    let mut total = 0u64;
    let mut legendary = 0u64;
    let mut rare = 0u64;
    let mut shiny = 0u64;
    let mut common = 0u64;
    let mut shiny_common = 0u64;
    for _ in 0..40_000 {
        let mut randomness = [0u8; 32];
        for chunk in randomness.chunks_mut(8) {
            chunk.copy_from_slice(&rng.next().to_le_bytes());
        }
        for card in generate_pack_rewards(randomness) {
            assert!(card.dex_number >= 1 && card.dex_number <= 151);
            assert_eq!(card.level, 1);
            total += 1;
            match card.rarity {
                Rarity::Legendary => legendary += 1,
                Rarity::Rare => rare += 1,
                Rarity::Common => common += 1,
            }
            if card.is_shiny {
                shiny += 1;
                if card.rarity == Rarity::Common {
                    shiny_common += 1;
                }
            }
        }
    }
    let rate = |n: u64| n as f64 / total as f64;
    // Every generator value is a multiple of five, so the rarity roll is one
    // of 0, 5, .., 95: Legendary takes 1 in 20 of them and Rare 3 in 20.
    assert!((rate(legendary) - 0.05).abs() < 0.004);
    assert!((rate(rare) - 0.15).abs() < 0.01);
    assert!((rate(common) - 0.80).abs() < 0.01);
    assert!((rate(shiny) - 1.0 / 128.0).abs() < 0.002);
    let shiny_among_common = shiny_common as f64 / common as f64;
    assert!((shiny_among_common - 1.0 / 128.0).abs() < 0.002);
}
