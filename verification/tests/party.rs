use rustic_yellow::save_state::party::{
    party_from_boxed, BaseStats, PartyPokemon, BASE_DATA_SIZE, BASE_STATS,
};
use rustic_yellow::save_state::pc_box::BoxedPokemon;
use rustic_yellow::save_state::poke_string::PokeString;
use rustic_yellow::save_state::species::PokemonSpecies;
use rustic_yellow::save_state::DeterminantValues;

#[test]
fn test_from_boxed_pokemon() {
    let ot_name = PokeString::from_bytes(&[0x80, 0x50], 2);

    assert_eq!(
        PartyPokemon::from_boxed(
            BoxedPokemon {
                species: PokemonSpecies::Haunter,
                hp: 0,
                level: 33,
                status: 0,
                type1: 8,
                type2: 3,
                catch_rate: 90,
                moves: [92, 95, 101, 102],
                ot_id: 35244,
                exp: 38268,
                hp_exp: 7502,
                attack_exp: 2973,
                defense_exp: 5593,
                speed_exp: 8007,
                special_exp: 7849,
                dvs: DeterminantValues::from_bytes([(7 << 4) | 13, (10 << 4) | 2]),
                pp: [8, 19, 64, 10],
                ot_name: ot_name.clone(),
                nickname: None,
            },
            BaseStats { hp: 45, attack: 50, defense: 45, speed: 95, special: 115, growth_rate: 3 },
        ),
        PartyPokemon {
            species: PokemonSpecies::Haunter,
            hp: 0,
            box_level: 33,
            status: 0,
            type1: 8,
            type2: 3,
            catch_rate: 90,
            moves: [92, 95, 101, 102],
            ot_id: 35244,
            exp: 38268,
            hp_exp: 7502,
            attack_exp: 2973,
            defense_exp: 5593,
            speed_exp: 8007,
            special_exp: 7849,
            dvs: DeterminantValues::from_bytes([(7 << 4) | 13, (10 << 4) | 2]),
            pp: [8, 19, 64, 10],
            level: 35,
            max_hp: 92,
            attack: 49,
            defense: 51,
            speed: 86,
            special: 94,
            ot_name: ot_name.clone(),
            nickname: None,
        }
    );

    assert_eq!(
        PartyPokemon::from_boxed(
            BoxedPokemon {
                species: PokemonSpecies::Venonat,
                hp: 0,
                level: 17,
                status: 0,
                type1: 7,
                type2: 3,
                catch_rate: 190,
                moves: [33, 50, 48, 0],
                ot_id: 35244,
                exp: 5295,
                hp_exp: 126,
                attack_exp: 157,
                defense_exp: 110,
                speed_exp: 161,
                special_exp: 104,
                dvs: DeterminantValues::from_bytes([(4 << 4) | 15, (13 << 4) | 5]),
                pp: [33, 20, 20, 0],
                ot_name: ot_name.clone(),
                nickname: None,
            },
            BaseStats { hp: 60, attack: 55, defense: 50, speed: 45, special: 40, growth_rate: 0 },
        ),
        PartyPokemon {
            species: PokemonSpecies::Venonat,
            hp: 0,
            box_level: 17,
            status: 0,
            type1: 7,
            type2: 3,
            catch_rate: 190,
            moves: [33, 50, 48, 0],
            ot_id: 35244,
            exp: 5295,
            hp_exp: 126,
            attack_exp: 157,
            defense_exp: 110,
            speed_exp: 161,
            special_exp: 104,
            dvs: DeterminantValues::from_bytes([(4 << 4) | 15, (13 << 4) | 5]),
            pp: [33, 20, 20, 0],
            level: 17,
            max_hp: 50,
            attack: 25,
            defense: 27,
            speed: 25,
            special: 20,
            ot_name: ot_name.clone(),
            nickname: None,
        }
    );

    assert_eq!(
        PartyPokemon::from_boxed(
            BoxedPokemon {
                species: PokemonSpecies::Kadabra,
                hp: 0,
                level: 49,
                status: 0,
                type1: 24,
                type2: 24,
                catch_rate: 200,
                moves: [94, 148, 25, 60],
                ot_id: 35244,
                exp: 118745,
                hp_exp: 17041,
                attack_exp: 14599,
                defense_exp: 14701,
                speed_exp: 14418,
                special_exp: 13767,
                dvs: DeterminantValues::from_bytes([(7 << 4) | 11, (9 << 4) | 9]),
                pp: [10, 20, 4, 20],
                ot_name: ot_name.clone(),
                nickname: None,
            },
            BaseStats { hp: 40, attack: 35, defense: 30, speed: 105, special: 120, growth_rate: 3 },
        ),
        PartyPokemon {
            species: PokemonSpecies::Kadabra,
            hp: 0,
            box_level: 49,
            status: 0,
            type1: 24,
            type2: 24,
            catch_rate: 200,
            moves: [94, 148, 25, 60],
            ot_id: 35244,
            exp: 118745,
            hp_exp: 17041,
            attack_exp: 14599,
            defense_exp: 14701,
            speed_exp: 14418,
            special_exp: 13767,
            dvs: DeterminantValues::from_bytes([(7 << 4) | 11, (9 << 4) | 9]),
            pp: [10, 20, 4, 20],
            level: 50,
            max_hp: 131,
            attack: 62,
            defense: 61,
            speed: 134,
            special: 148,
            ot_name: ot_name.clone(),
            nickname: None,
        }
    );

    assert_eq!(
        PartyPokemon::from_boxed(
            BoxedPokemon {
                species: PokemonSpecies::Nidoqueen,
                hp: 156,
                level: 0,
                status: 0,
                type1: 3,
                type2: 4,
                catch_rate: 235,
                moves: [57, 34, 38, 70],
                ot_id: 35244,
                exp: 100845,
                hp_exp: 12370,
                attack_exp: 15256,
                defense_exp: 13881,
                speed_exp: 14838,
                special_exp: 12393,
                dvs: DeterminantValues::from_bytes([(4 << 4) | 10, (7 << 4) | 12]),
                pp: [15, 15, 15, 15],
                ot_name: ot_name.clone(),
                nickname: None,
            },
            BaseStats { hp: 90, attack: 82, defense: 87, speed: 76, special: 75, growth_rate: 3 },
        ),
        PartyPokemon {
            species: PokemonSpecies::Nidoqueen,
            hp: 156,
            box_level: 0,
            status: 0,
            type1: 3,
            type2: 4,
            catch_rate: 235,
            moves: [57, 34, 38, 70],
            ot_id: 35244,
            exp: 100845,
            hp_exp: 12370,
            attack_exp: 15256,
            defense_exp: 13881,
            speed_exp: 14838,
            special_exp: 12393,
            dvs: DeterminantValues::from_bytes([(4 << 4) | 10, (7 << 4) | 12]),
            pp: [15, 15, 15, 15],
            level: 47,
            max_hp: 156,
            attack: 100,
            defense: 109,
            speed: 97,
            special: 99,
            ot_name: ot_name.clone(),
            nickname: None,
        }
    );

    assert_eq!(
        PartyPokemon::from_boxed(
            BoxedPokemon {
                species: PokemonSpecies::Charizard,
                hp: 92,
                level: 25,
                status: 0,
                type1: 20,
                type2: 2,
                catch_rate: 45,
                moves: [130, 15, 53, 19],
                ot_id: 35244,
                exp: 105177,
                hp_exp: 13504,
                attack_exp: 19099,
                defense_exp: 11840,
                speed_exp: 14029,
                special_exp: 12773,
                dvs: DeterminantValues::from_bytes([(11 << 4) | 9, (13 << 4) | 11]),
                pp: [15, 30, 15, 15],
                ot_name: ot_name.clone(),
                nickname: None,
            },
            BaseStats { hp: 78, attack: 84, defense: 78, speed: 100, special: 85, growth_rate: 3 },
        ),
        PartyPokemon {
            species: PokemonSpecies::Charizard,
            hp: 92,
            box_level: 25,
            status: 0,
            type1: 20,
            type2: 2,
            catch_rate: 45,
            moves: [130, 15, 53, 19],
            ot_id: 35244,
            exp: 105177,
            hp_exp: 13504,
            attack_exp: 19099,
            defense_exp: 11840,
            speed_exp: 14029,
            special_exp: 12773,
            dvs: DeterminantValues::from_bytes([(11 << 4) | 9, (13 << 4) | 11]),
            pp: [15, 30, 15, 15],
            level: 48,
            max_hp: 161,
            attack: 112,
            defense: 101,
            speed: 127,
            special: 110,
            ot_name: ot_name.clone(),
            nickname: None,
        }
    );
}

#[test]
fn party_from_boxed_reads_the_base_stats_of_the_species_from_the_rom() {
    let haunter = BoxedPokemon {
        species: PokemonSpecies::Haunter,
        hp: 0,
        level: 33,
        status: 0,
        type1: 8,
        type2: 3,
        catch_rate: 90,
        moves: [92, 95, 101, 102],
        ot_id: 35244,
        exp: 38268,
        hp_exp: 7502,
        attack_exp: 2973,
        defense_exp: 5593,
        speed_exp: 8007,
        special_exp: 7849,
        dvs: DeterminantValues::from_bytes([(7 << 4) | 13, (10 << 4) | 2]),
        pp: [8, 19, 64, 10],
        ot_name: PokeString::from_bytes(&[0x80, 0x50], 2),
        nickname: None,
    };
    let mut rom = vec![0u8; BASE_STATS + BASE_DATA_SIZE * 151];
    // Haunter is number 93 of the Pokédex.
    let start = BASE_STATS + BASE_DATA_SIZE * 92;
    rom[start + 1..start + 6].copy_from_slice(&[45, 50, 45, 95, 115]);
    rom[start + 19] = 3;
    let base = BaseStats { hp: 45, attack: 50, defense: 45, speed: 95, special: 115, growth_rate: 3 };
    assert_eq!(BaseStats::from_rom(&rom, PokemonSpecies::Haunter), base);
    let expected = PartyPokemon::from_boxed(haunter.clone(), base);
    assert_eq!(party_from_boxed(&rom, haunter), expected);
    assert_eq!(expected.level, 35);
}
