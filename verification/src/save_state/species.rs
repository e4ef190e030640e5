use vstd::prelude::*;

use super::poke_string::PokeString;

verus! {

/// The 151 Pokémon species, named as in the Pokédex.
#[derive(Debug, Clone, Copy, PartialEq, Eq, Structural, Hash, PartialOrd, Ord)]
pub enum PokemonSpecies {
    Bulbasaur,
    Ivysaur,
    Venusaur,
    Charmander,
    Charmeleon,
    Charizard,
    Squirtle,
    Wartortle,
    Blastoise,
    Caterpie,
    Metapod,
    Butterfree,
    Weedle,
    Kakuna,
    Beedrill,
    Pidgey,
    Pidgeotto,
    Pidgeot,
    Rattata,
    Raticate,
    Spearow,
    Fearow,
    Ekans,
    Arbok,
    Pikachu,
    Raichu,
    Sandshrew,
    Sandslash,
    NidoranF,
    Nidorina,
    Nidoqueen,
    NidoranM,
    Nidorino,
    Nidoking,
    Clefairy,
    Clefable,
    Vulpix,
    Ninetales,
    Jigglypuff,
    Wigglytuff,
    Zubat,
    Golbat,
    Oddish,
    Gloom,
    Vileplume,
    Paras,
    Parasect,
    Venonat,
    Venomoth,
    Diglett,
    Dugtrio,
    Meowth,
    Persian,
    Psyduck,
    Golduck,
    Mankey,
    Primeape,
    Growlithe,
    Arcanine,
    Poliwag,
    Poliwhirl,
    Poliwrath,
    Abra,
    Kadabra,
    Alakazam,
    Machop,
    Machoke,
    Machamp,
    Bellsprout,
    Weepinbell,
    Victreebel,
    Tentacool,
    Tentacruel,
    Geodude,
    Graveler,
    Golem,
    Ponyta,
    Rapidash,
    Slowpoke,
    Slowbro,
    Magnemite,
    Magneton,
    Farfetchd,
    Doduo,
    Dodrio,
    Seel,
    Dewgong,
    Grimer,
    Muk,
    Shellder,
    Cloyster,
    Gastly,
    Haunter,
    Gengar,
    Onix,
    Drowzee,
    Hypno,
    Krabby,
    Kingler,
    Voltorb,
    Electrode,
    Exeggcute,
    Exeggutor,
    Cubone,
    Marowak,
    Hitmonlee,
    Hitmonchan,
    Lickitung,
    Koffing,
    Weezing,
    Rhyhorn,
    Rhydon,
    Chansey,
    Tangela,
    Kangaskhan,
    Horsea,
    Seadra,
    Goldeen,
    Seaking,
    Staryu,
    Starmie,
    MrMime,
    Scyther,
    Jynx,
    Electabuzz,
    Magmar,
    Pinsir,
    Tauros,
    Magikarp,
    Gyarados,
    Lapras,
    Ditto,
    Eevee,
    Vaporeon,
    Jolteon,
    Flareon,
    Porygon,
    Omanyte,
    Omastar,
    Kabuto,
    Kabutops,
    Aerodactyl,
    Snorlax,
    Articuno,
    Zapdos,
    Moltres,
    Dratini,
    Dragonair,
    Dragonite,
    Mewtwo,
    Mew,
}

/// The species' number in the game's internal species order.
pub open spec fn species_index(s: PokemonSpecies) -> u8 {
    match s {
        PokemonSpecies::Rhydon => 1u8,
        PokemonSpecies::Kangaskhan => 2u8,
        PokemonSpecies::NidoranM => 3u8,
        PokemonSpecies::Clefairy => 4u8,
        PokemonSpecies::Spearow => 5u8,
        PokemonSpecies::Voltorb => 6u8,
        PokemonSpecies::Nidoking => 7u8,
        PokemonSpecies::Slowbro => 8u8,
        PokemonSpecies::Ivysaur => 9u8,
        PokemonSpecies::Exeggutor => 10u8,
        PokemonSpecies::Lickitung => 11u8,
        PokemonSpecies::Exeggcute => 12u8,
        PokemonSpecies::Grimer => 13u8,
        PokemonSpecies::Gengar => 14u8,
        PokemonSpecies::NidoranF => 15u8,
        PokemonSpecies::Nidoqueen => 16u8,
        PokemonSpecies::Cubone => 17u8,
        PokemonSpecies::Rhyhorn => 18u8,
        PokemonSpecies::Lapras => 19u8,
        PokemonSpecies::Arcanine => 20u8,
        PokemonSpecies::Mew => 21u8,
        PokemonSpecies::Gyarados => 22u8,
        PokemonSpecies::Shellder => 23u8,
        PokemonSpecies::Tentacool => 24u8,
        PokemonSpecies::Gastly => 25u8,
        PokemonSpecies::Scyther => 26u8,
        PokemonSpecies::Staryu => 27u8,
        PokemonSpecies::Blastoise => 28u8,
        PokemonSpecies::Pinsir => 29u8,
        PokemonSpecies::Tangela => 30u8,
        PokemonSpecies::Growlithe => 33u8,
        PokemonSpecies::Onix => 34u8,
        PokemonSpecies::Fearow => 35u8,
        PokemonSpecies::Pidgey => 36u8,
        PokemonSpecies::Slowpoke => 37u8,
        PokemonSpecies::Kadabra => 38u8,
        PokemonSpecies::Graveler => 39u8,
        PokemonSpecies::Chansey => 40u8,
        PokemonSpecies::Machoke => 41u8,
        PokemonSpecies::MrMime => 42u8,
        PokemonSpecies::Hitmonlee => 43u8,
        PokemonSpecies::Hitmonchan => 44u8,
        PokemonSpecies::Arbok => 45u8,
        PokemonSpecies::Parasect => 46u8,
        PokemonSpecies::Psyduck => 47u8,
        PokemonSpecies::Drowzee => 48u8,
        PokemonSpecies::Golem => 49u8,
        PokemonSpecies::Magmar => 51u8,
        PokemonSpecies::Electabuzz => 53u8,
        PokemonSpecies::Magneton => 54u8,
        PokemonSpecies::Koffing => 55u8,
        PokemonSpecies::Mankey => 57u8,
        PokemonSpecies::Seel => 58u8,
        PokemonSpecies::Diglett => 59u8,
        PokemonSpecies::Tauros => 60u8,
        PokemonSpecies::Farfetchd => 64u8,
        PokemonSpecies::Venonat => 65u8,
        PokemonSpecies::Dragonite => 66u8,
        PokemonSpecies::Doduo => 70u8,
        PokemonSpecies::Poliwag => 71u8,
        PokemonSpecies::Jynx => 72u8,
        PokemonSpecies::Moltres => 73u8,
        PokemonSpecies::Articuno => 74u8,
        PokemonSpecies::Zapdos => 75u8,
        PokemonSpecies::Ditto => 76u8,
        PokemonSpecies::Meowth => 77u8,
        PokemonSpecies::Krabby => 78u8,
        PokemonSpecies::Vulpix => 82u8,
        PokemonSpecies::Ninetales => 83u8,
        PokemonSpecies::Pikachu => 84u8,
        PokemonSpecies::Raichu => 85u8,
        PokemonSpecies::Dratini => 88u8,
        PokemonSpecies::Dragonair => 89u8,
        PokemonSpecies::Kabuto => 90u8,
        PokemonSpecies::Kabutops => 91u8,
        PokemonSpecies::Horsea => 92u8,
        PokemonSpecies::Seadra => 93u8,
        PokemonSpecies::Sandshrew => 96u8,
        PokemonSpecies::Sandslash => 97u8,
        PokemonSpecies::Omanyte => 98u8,
        PokemonSpecies::Omastar => 99u8,
        PokemonSpecies::Jigglypuff => 100u8,
        PokemonSpecies::Wigglytuff => 101u8,
        PokemonSpecies::Eevee => 102u8,
        PokemonSpecies::Flareon => 103u8,
        PokemonSpecies::Jolteon => 104u8,
        PokemonSpecies::Vaporeon => 105u8,
        PokemonSpecies::Machop => 106u8,
        PokemonSpecies::Zubat => 107u8,
        PokemonSpecies::Ekans => 108u8,
        PokemonSpecies::Paras => 109u8,
        PokemonSpecies::Poliwhirl => 110u8,
        PokemonSpecies::Poliwrath => 111u8,
        PokemonSpecies::Weedle => 112u8,
        PokemonSpecies::Kakuna => 113u8,
        PokemonSpecies::Beedrill => 114u8,
        PokemonSpecies::Dodrio => 116u8,
        PokemonSpecies::Primeape => 117u8,
        PokemonSpecies::Dugtrio => 118u8,
        PokemonSpecies::Venomoth => 119u8,
        PokemonSpecies::Dewgong => 120u8,
        PokemonSpecies::Caterpie => 123u8,
        PokemonSpecies::Metapod => 124u8,
        PokemonSpecies::Butterfree => 125u8,
        PokemonSpecies::Machamp => 126u8,
        PokemonSpecies::Golduck => 128u8,
        PokemonSpecies::Hypno => 129u8,
        PokemonSpecies::Golbat => 130u8,
        PokemonSpecies::Mewtwo => 131u8,
        PokemonSpecies::Snorlax => 132u8,
        PokemonSpecies::Magikarp => 133u8,
        PokemonSpecies::Muk => 136u8,
        PokemonSpecies::Kingler => 138u8,
        PokemonSpecies::Cloyster => 139u8,
        PokemonSpecies::Electrode => 141u8,
        PokemonSpecies::Clefable => 142u8,
        PokemonSpecies::Weezing => 143u8,
        PokemonSpecies::Persian => 144u8,
        PokemonSpecies::Marowak => 145u8,
        PokemonSpecies::Haunter => 147u8,
        PokemonSpecies::Abra => 148u8,
        PokemonSpecies::Alakazam => 149u8,
        PokemonSpecies::Pidgeotto => 150u8,
        PokemonSpecies::Pidgeot => 151u8,
        PokemonSpecies::Starmie => 152u8,
        PokemonSpecies::Bulbasaur => 153u8,
        PokemonSpecies::Venusaur => 154u8,
        PokemonSpecies::Tentacruel => 155u8,
        PokemonSpecies::Goldeen => 157u8,
        PokemonSpecies::Seaking => 158u8,
        PokemonSpecies::Ponyta => 163u8,
        PokemonSpecies::Rapidash => 164u8,
        PokemonSpecies::Rattata => 165u8,
        PokemonSpecies::Raticate => 166u8,
        PokemonSpecies::Nidorino => 167u8,
        PokemonSpecies::Nidorina => 168u8,
        PokemonSpecies::Geodude => 169u8,
        PokemonSpecies::Porygon => 170u8,
        PokemonSpecies::Aerodactyl => 171u8,
        PokemonSpecies::Magnemite => 173u8,
        PokemonSpecies::Charmander => 176u8,
        PokemonSpecies::Squirtle => 177u8,
        PokemonSpecies::Charmeleon => 178u8,
        PokemonSpecies::Wartortle => 179u8,
        PokemonSpecies::Charizard => 180u8,
        PokemonSpecies::Oddish => 185u8,
        PokemonSpecies::Gloom => 186u8,
        PokemonSpecies::Vileplume => 187u8,
        PokemonSpecies::Bellsprout => 188u8,
        PokemonSpecies::Weepinbell => 189u8,
        PokemonSpecies::Victreebel => 190u8,
    }
}

/// The species' Pokédex number.
pub open spec fn species_dex_number(s: PokemonSpecies) -> u8 {
    match s {
        PokemonSpecies::Bulbasaur => 1u8,
        PokemonSpecies::Ivysaur => 2u8,
        PokemonSpecies::Venusaur => 3u8,
        PokemonSpecies::Charmander => 4u8,
        PokemonSpecies::Charmeleon => 5u8,
        PokemonSpecies::Charizard => 6u8,
        PokemonSpecies::Squirtle => 7u8,
        PokemonSpecies::Wartortle => 8u8,
        PokemonSpecies::Blastoise => 9u8,
        PokemonSpecies::Caterpie => 10u8,
        PokemonSpecies::Metapod => 11u8,
        PokemonSpecies::Butterfree => 12u8,
        PokemonSpecies::Weedle => 13u8,
        PokemonSpecies::Kakuna => 14u8,
        PokemonSpecies::Beedrill => 15u8,
        PokemonSpecies::Pidgey => 16u8,
        PokemonSpecies::Pidgeotto => 17u8,
        PokemonSpecies::Pidgeot => 18u8,
        PokemonSpecies::Rattata => 19u8,
        PokemonSpecies::Raticate => 20u8,
        PokemonSpecies::Spearow => 21u8,
        PokemonSpecies::Fearow => 22u8,
        PokemonSpecies::Ekans => 23u8,
        PokemonSpecies::Arbok => 24u8,
        PokemonSpecies::Pikachu => 25u8,
        PokemonSpecies::Raichu => 26u8,
        PokemonSpecies::Sandshrew => 27u8,
        PokemonSpecies::Sandslash => 28u8,
        PokemonSpecies::NidoranF => 29u8,
        PokemonSpecies::Nidorina => 30u8,
        PokemonSpecies::Nidoqueen => 31u8,
        PokemonSpecies::NidoranM => 32u8,
        PokemonSpecies::Nidorino => 33u8,
        PokemonSpecies::Nidoking => 34u8,
        PokemonSpecies::Clefairy => 35u8,
        PokemonSpecies::Clefable => 36u8,
        PokemonSpecies::Vulpix => 37u8,
        PokemonSpecies::Ninetales => 38u8,
        PokemonSpecies::Jigglypuff => 39u8,
        PokemonSpecies::Wigglytuff => 40u8,
        PokemonSpecies::Zubat => 41u8,
        PokemonSpecies::Golbat => 42u8,
        PokemonSpecies::Oddish => 43u8,
        PokemonSpecies::Gloom => 44u8,
        PokemonSpecies::Vileplume => 45u8,
        PokemonSpecies::Paras => 46u8,
        PokemonSpecies::Parasect => 47u8,
        PokemonSpecies::Venonat => 48u8,
        PokemonSpecies::Venomoth => 49u8,
        PokemonSpecies::Diglett => 50u8,
        PokemonSpecies::Dugtrio => 51u8,
        PokemonSpecies::Meowth => 52u8,
        PokemonSpecies::Persian => 53u8,
        PokemonSpecies::Psyduck => 54u8,
        PokemonSpecies::Golduck => 55u8,
        PokemonSpecies::Mankey => 56u8,
        PokemonSpecies::Primeape => 57u8,
        PokemonSpecies::Growlithe => 58u8,
        PokemonSpecies::Arcanine => 59u8,
        PokemonSpecies::Poliwag => 60u8,
        PokemonSpecies::Poliwhirl => 61u8,
        PokemonSpecies::Poliwrath => 62u8,
        PokemonSpecies::Abra => 63u8,
        PokemonSpecies::Kadabra => 64u8,
        PokemonSpecies::Alakazam => 65u8,
        PokemonSpecies::Machop => 66u8,
        PokemonSpecies::Machoke => 67u8,
        PokemonSpecies::Machamp => 68u8,
        PokemonSpecies::Bellsprout => 69u8,
        PokemonSpecies::Weepinbell => 70u8,
        PokemonSpecies::Victreebel => 71u8,
        PokemonSpecies::Tentacool => 72u8,
        PokemonSpecies::Tentacruel => 73u8,
        PokemonSpecies::Geodude => 74u8,
        PokemonSpecies::Graveler => 75u8,
        PokemonSpecies::Golem => 76u8,
        PokemonSpecies::Ponyta => 77u8,
        PokemonSpecies::Rapidash => 78u8,
        PokemonSpecies::Slowpoke => 79u8,
        PokemonSpecies::Slowbro => 80u8,
        PokemonSpecies::Magnemite => 81u8,
        PokemonSpecies::Magneton => 82u8,
        PokemonSpecies::Farfetchd => 83u8,
        PokemonSpecies::Doduo => 84u8,
        PokemonSpecies::Dodrio => 85u8,
        PokemonSpecies::Seel => 86u8,
        PokemonSpecies::Dewgong => 87u8,
        PokemonSpecies::Grimer => 88u8,
        PokemonSpecies::Muk => 89u8,
        PokemonSpecies::Shellder => 90u8,
        PokemonSpecies::Cloyster => 91u8,
        PokemonSpecies::Gastly => 92u8,
        PokemonSpecies::Haunter => 93u8,
        PokemonSpecies::Gengar => 94u8,
        PokemonSpecies::Onix => 95u8,
        PokemonSpecies::Drowzee => 96u8,
        PokemonSpecies::Hypno => 97u8,
        PokemonSpecies::Krabby => 98u8,
        PokemonSpecies::Kingler => 99u8,
        PokemonSpecies::Voltorb => 100u8,
        PokemonSpecies::Electrode => 101u8,
        PokemonSpecies::Exeggcute => 102u8,
        PokemonSpecies::Exeggutor => 103u8,
        PokemonSpecies::Cubone => 104u8,
        PokemonSpecies::Marowak => 105u8,
        PokemonSpecies::Hitmonlee => 106u8,
        PokemonSpecies::Hitmonchan => 107u8,
        PokemonSpecies::Lickitung => 108u8,
        PokemonSpecies::Koffing => 109u8,
        PokemonSpecies::Weezing => 110u8,
        PokemonSpecies::Rhyhorn => 111u8,
        PokemonSpecies::Rhydon => 112u8,
        PokemonSpecies::Chansey => 113u8,
        PokemonSpecies::Tangela => 114u8,
        PokemonSpecies::Kangaskhan => 115u8,
        PokemonSpecies::Horsea => 116u8,
        PokemonSpecies::Seadra => 117u8,
        PokemonSpecies::Goldeen => 118u8,
        PokemonSpecies::Seaking => 119u8,
        PokemonSpecies::Staryu => 120u8,
        PokemonSpecies::Starmie => 121u8,
        PokemonSpecies::MrMime => 122u8,
        PokemonSpecies::Scyther => 123u8,
        PokemonSpecies::Jynx => 124u8,
        PokemonSpecies::Electabuzz => 125u8,
        PokemonSpecies::Magmar => 126u8,
        PokemonSpecies::Pinsir => 127u8,
        PokemonSpecies::Tauros => 128u8,
        PokemonSpecies::Magikarp => 129u8,
        PokemonSpecies::Gyarados => 130u8,
        PokemonSpecies::Lapras => 131u8,
        PokemonSpecies::Ditto => 132u8,
        PokemonSpecies::Eevee => 133u8,
        PokemonSpecies::Vaporeon => 134u8,
        PokemonSpecies::Jolteon => 135u8,
        PokemonSpecies::Flareon => 136u8,
        PokemonSpecies::Porygon => 137u8,
        PokemonSpecies::Omanyte => 138u8,
        PokemonSpecies::Omastar => 139u8,
        PokemonSpecies::Kabuto => 140u8,
        PokemonSpecies::Kabutops => 141u8,
        PokemonSpecies::Aerodactyl => 142u8,
        PokemonSpecies::Snorlax => 143u8,
        PokemonSpecies::Articuno => 144u8,
        PokemonSpecies::Zapdos => 145u8,
        PokemonSpecies::Moltres => 146u8,
        PokemonSpecies::Dratini => 147u8,
        PokemonSpecies::Dragonair => 148u8,
        PokemonSpecies::Dragonite => 149u8,
        PokemonSpecies::Mewtwo => 150u8,
        PokemonSpecies::Mew => 151u8,
    }
}

/// The species with the given internal index, if there is one.
pub open spec fn species_from_index(index: u8) -> Option<PokemonSpecies> {
    match index {
        1u8 => Some(PokemonSpecies::Rhydon),
        2u8 => Some(PokemonSpecies::Kangaskhan),
        3u8 => Some(PokemonSpecies::NidoranM),
        4u8 => Some(PokemonSpecies::Clefairy),
        5u8 => Some(PokemonSpecies::Spearow),
        6u8 => Some(PokemonSpecies::Voltorb),
        7u8 => Some(PokemonSpecies::Nidoking),
        8u8 => Some(PokemonSpecies::Slowbro),
        9u8 => Some(PokemonSpecies::Ivysaur),
        10u8 => Some(PokemonSpecies::Exeggutor),
        11u8 => Some(PokemonSpecies::Lickitung),
        12u8 => Some(PokemonSpecies::Exeggcute),
        13u8 => Some(PokemonSpecies::Grimer),
        14u8 => Some(PokemonSpecies::Gengar),
        15u8 => Some(PokemonSpecies::NidoranF),
        16u8 => Some(PokemonSpecies::Nidoqueen),
        17u8 => Some(PokemonSpecies::Cubone),
        18u8 => Some(PokemonSpecies::Rhyhorn),
        19u8 => Some(PokemonSpecies::Lapras),
        20u8 => Some(PokemonSpecies::Arcanine),
        21u8 => Some(PokemonSpecies::Mew),
        22u8 => Some(PokemonSpecies::Gyarados),
        23u8 => Some(PokemonSpecies::Shellder),
        24u8 => Some(PokemonSpecies::Tentacool),
        25u8 => Some(PokemonSpecies::Gastly),
        26u8 => Some(PokemonSpecies::Scyther),
        27u8 => Some(PokemonSpecies::Staryu),
        28u8 => Some(PokemonSpecies::Blastoise),
        29u8 => Some(PokemonSpecies::Pinsir),
        30u8 => Some(PokemonSpecies::Tangela),
        33u8 => Some(PokemonSpecies::Growlithe),
        34u8 => Some(PokemonSpecies::Onix),
        35u8 => Some(PokemonSpecies::Fearow),
        36u8 => Some(PokemonSpecies::Pidgey),
        37u8 => Some(PokemonSpecies::Slowpoke),
        38u8 => Some(PokemonSpecies::Kadabra),
        39u8 => Some(PokemonSpecies::Graveler),
        40u8 => Some(PokemonSpecies::Chansey),
        41u8 => Some(PokemonSpecies::Machoke),
        42u8 => Some(PokemonSpecies::MrMime),
        43u8 => Some(PokemonSpecies::Hitmonlee),
        44u8 => Some(PokemonSpecies::Hitmonchan),
        45u8 => Some(PokemonSpecies::Arbok),
        46u8 => Some(PokemonSpecies::Parasect),
        47u8 => Some(PokemonSpecies::Psyduck),
        48u8 => Some(PokemonSpecies::Drowzee),
        49u8 => Some(PokemonSpecies::Golem),
        51u8 => Some(PokemonSpecies::Magmar),
        53u8 => Some(PokemonSpecies::Electabuzz),
        54u8 => Some(PokemonSpecies::Magneton),
        55u8 => Some(PokemonSpecies::Koffing),
        57u8 => Some(PokemonSpecies::Mankey),
        58u8 => Some(PokemonSpecies::Seel),
        59u8 => Some(PokemonSpecies::Diglett),
        60u8 => Some(PokemonSpecies::Tauros),
        64u8 => Some(PokemonSpecies::Farfetchd),
        65u8 => Some(PokemonSpecies::Venonat),
        66u8 => Some(PokemonSpecies::Dragonite),
        70u8 => Some(PokemonSpecies::Doduo),
        71u8 => Some(PokemonSpecies::Poliwag),
        72u8 => Some(PokemonSpecies::Jynx),
        73u8 => Some(PokemonSpecies::Moltres),
        74u8 => Some(PokemonSpecies::Articuno),
        75u8 => Some(PokemonSpecies::Zapdos),
        76u8 => Some(PokemonSpecies::Ditto),
        77u8 => Some(PokemonSpecies::Meowth),
        78u8 => Some(PokemonSpecies::Krabby),
        82u8 => Some(PokemonSpecies::Vulpix),
        83u8 => Some(PokemonSpecies::Ninetales),
        84u8 => Some(PokemonSpecies::Pikachu),
        85u8 => Some(PokemonSpecies::Raichu),
        88u8 => Some(PokemonSpecies::Dratini),
        89u8 => Some(PokemonSpecies::Dragonair),
        90u8 => Some(PokemonSpecies::Kabuto),
        91u8 => Some(PokemonSpecies::Kabutops),
        92u8 => Some(PokemonSpecies::Horsea),
        93u8 => Some(PokemonSpecies::Seadra),
        96u8 => Some(PokemonSpecies::Sandshrew),
        97u8 => Some(PokemonSpecies::Sandslash),
        98u8 => Some(PokemonSpecies::Omanyte),
        99u8 => Some(PokemonSpecies::Omastar),
        100u8 => Some(PokemonSpecies::Jigglypuff),
        101u8 => Some(PokemonSpecies::Wigglytuff),
        102u8 => Some(PokemonSpecies::Eevee),
        103u8 => Some(PokemonSpecies::Flareon),
        104u8 => Some(PokemonSpecies::Jolteon),
        105u8 => Some(PokemonSpecies::Vaporeon),
        106u8 => Some(PokemonSpecies::Machop),
        107u8 => Some(PokemonSpecies::Zubat),
        108u8 => Some(PokemonSpecies::Ekans),
        109u8 => Some(PokemonSpecies::Paras),
        110u8 => Some(PokemonSpecies::Poliwhirl),
        111u8 => Some(PokemonSpecies::Poliwrath),
        112u8 => Some(PokemonSpecies::Weedle),
        113u8 => Some(PokemonSpecies::Kakuna),
        114u8 => Some(PokemonSpecies::Beedrill),
        116u8 => Some(PokemonSpecies::Dodrio),
        117u8 => Some(PokemonSpecies::Primeape),
        118u8 => Some(PokemonSpecies::Dugtrio),
        119u8 => Some(PokemonSpecies::Venomoth),
        120u8 => Some(PokemonSpecies::Dewgong),
        123u8 => Some(PokemonSpecies::Caterpie),
        124u8 => Some(PokemonSpecies::Metapod),
        125u8 => Some(PokemonSpecies::Butterfree),
        126u8 => Some(PokemonSpecies::Machamp),
        128u8 => Some(PokemonSpecies::Golduck),
        129u8 => Some(PokemonSpecies::Hypno),
        130u8 => Some(PokemonSpecies::Golbat),
        131u8 => Some(PokemonSpecies::Mewtwo),
        132u8 => Some(PokemonSpecies::Snorlax),
        133u8 => Some(PokemonSpecies::Magikarp),
        136u8 => Some(PokemonSpecies::Muk),
        138u8 => Some(PokemonSpecies::Kingler),
        139u8 => Some(PokemonSpecies::Cloyster),
        141u8 => Some(PokemonSpecies::Electrode),
        142u8 => Some(PokemonSpecies::Clefable),
        143u8 => Some(PokemonSpecies::Weezing),
        144u8 => Some(PokemonSpecies::Persian),
        145u8 => Some(PokemonSpecies::Marowak),
        147u8 => Some(PokemonSpecies::Haunter),
        148u8 => Some(PokemonSpecies::Abra),
        149u8 => Some(PokemonSpecies::Alakazam),
        150u8 => Some(PokemonSpecies::Pidgeotto),
        151u8 => Some(PokemonSpecies::Pidgeot),
        152u8 => Some(PokemonSpecies::Starmie),
        153u8 => Some(PokemonSpecies::Bulbasaur),
        154u8 => Some(PokemonSpecies::Venusaur),
        155u8 => Some(PokemonSpecies::Tentacruel),
        157u8 => Some(PokemonSpecies::Goldeen),
        158u8 => Some(PokemonSpecies::Seaking),
        163u8 => Some(PokemonSpecies::Ponyta),
        164u8 => Some(PokemonSpecies::Rapidash),
        165u8 => Some(PokemonSpecies::Rattata),
        166u8 => Some(PokemonSpecies::Raticate),
        167u8 => Some(PokemonSpecies::Nidorino),
        168u8 => Some(PokemonSpecies::Nidorina),
        169u8 => Some(PokemonSpecies::Geodude),
        170u8 => Some(PokemonSpecies::Porygon),
        171u8 => Some(PokemonSpecies::Aerodactyl),
        173u8 => Some(PokemonSpecies::Magnemite),
        176u8 => Some(PokemonSpecies::Charmander),
        177u8 => Some(PokemonSpecies::Squirtle),
        178u8 => Some(PokemonSpecies::Charmeleon),
        179u8 => Some(PokemonSpecies::Wartortle),
        180u8 => Some(PokemonSpecies::Charizard),
        185u8 => Some(PokemonSpecies::Oddish),
        186u8 => Some(PokemonSpecies::Gloom),
        187u8 => Some(PokemonSpecies::Vileplume),
        188u8 => Some(PokemonSpecies::Bellsprout),
        189u8 => Some(PokemonSpecies::Weepinbell),
        190u8 => Some(PokemonSpecies::Victreebel),
        _ => None,
    }
}

/// Every species is found again from its internal index.
pub proof fn lemma_species_from_index_of_index(s: PokemonSpecies)
    ensures
        species_from_index(species_index(s)) == Some(s),
{
}

/// The species' default name, in the game's character encoding.
pub open spec fn species_name(s: PokemonSpecies) -> Seq<u8> {
    match s {
        PokemonSpecies::Bulbasaur => seq![0x81u8, 0x94u8, 0x8bu8, 0x81u8, 0x80u8, 0x92u8, 0x80u8, 0x94u8, 0x91u8],
        PokemonSpecies::Ivysaur => seq![0x88u8, 0x95u8, 0x98u8, 0x92u8, 0x80u8, 0x94u8, 0x91u8],
        PokemonSpecies::Venusaur => seq![0x95u8, 0x84u8, 0x8du8, 0x94u8, 0x92u8, 0x80u8, 0x94u8, 0x91u8],
        PokemonSpecies::Charmander => seq![0x82u8, 0x87u8, 0x80u8, 0x91u8, 0x8cu8, 0x80u8, 0x8du8, 0x83u8, 0x84u8, 0x91u8],
        PokemonSpecies::Charmeleon => seq![0x82u8, 0x87u8, 0x80u8, 0x91u8, 0x8cu8, 0x84u8, 0x8bu8, 0x84u8, 0x8eu8, 0x8du8],
        PokemonSpecies::Charizard => seq![0x82u8, 0x87u8, 0x80u8, 0x91u8, 0x88u8, 0x99u8, 0x80u8, 0x91u8, 0x83u8],
        PokemonSpecies::Squirtle => seq![0x92u8, 0x90u8, 0x94u8, 0x88u8, 0x91u8, 0x93u8, 0x8bu8, 0x84u8],
        PokemonSpecies::Wartortle => seq![0x96u8, 0x80u8, 0x91u8, 0x93u8, 0x8eu8, 0x91u8, 0x93u8, 0x8bu8, 0x84u8],
        PokemonSpecies::Blastoise => seq![0x81u8, 0x8bu8, 0x80u8, 0x92u8, 0x93u8, 0x8eu8, 0x88u8, 0x92u8, 0x84u8],
        PokemonSpecies::Caterpie => seq![0x82u8, 0x80u8, 0x93u8, 0x84u8, 0x91u8, 0x8fu8, 0x88u8, 0x84u8],
        PokemonSpecies::Metapod => seq![0x8cu8, 0x84u8, 0x93u8, 0x80u8, 0x8fu8, 0x8eu8, 0x83u8],
        PokemonSpecies::Butterfree => seq![0x81u8, 0x94u8, 0x93u8, 0x93u8, 0x84u8, 0x91u8, 0x85u8, 0x91u8, 0x84u8, 0x84u8],
        PokemonSpecies::Weedle => seq![0x96u8, 0x84u8, 0x84u8, 0x83u8, 0x8bu8, 0x84u8],
        PokemonSpecies::Kakuna => seq![0x8au8, 0x80u8, 0x8au8, 0x94u8, 0x8du8, 0x80u8],
        PokemonSpecies::Beedrill => seq![0x81u8, 0x84u8, 0x84u8, 0x83u8, 0x91u8, 0x88u8, 0x8bu8, 0x8bu8],
        PokemonSpecies::Pidgey => seq![0x8fu8, 0x88u8, 0x83u8, 0x86u8, 0x84u8, 0x98u8],
        PokemonSpecies::Pidgeotto => seq![0x8fu8, 0x88u8, 0x83u8, 0x86u8, 0x84u8, 0x8eu8, 0x93u8, 0x93u8, 0x8eu8],
        PokemonSpecies::Pidgeot => seq![0x8fu8, 0x88u8, 0x83u8, 0x86u8, 0x84u8, 0x8eu8, 0x93u8],
        PokemonSpecies::Rattata => seq![0x91u8, 0x80u8, 0x93u8, 0x93u8, 0x80u8, 0x93u8, 0x80u8],
        PokemonSpecies::Raticate => seq![0x91u8, 0x80u8, 0x93u8, 0x88u8, 0x82u8, 0x80u8, 0x93u8, 0x84u8],
        PokemonSpecies::Spearow => seq![0x92u8, 0x8fu8, 0x84u8, 0x80u8, 0x91u8, 0x8eu8, 0x96u8],
        PokemonSpecies::Fearow => seq![0x85u8, 0x84u8, 0x80u8, 0x91u8, 0x8eu8, 0x96u8],
        PokemonSpecies::Ekans => seq![0x84u8, 0x8au8, 0x80u8, 0x8du8, 0x92u8],
        PokemonSpecies::Arbok => seq![0x80u8, 0x91u8, 0x81u8, 0x8eu8, 0x8au8],
        PokemonSpecies::Pikachu => seq![0x8fu8, 0x88u8, 0x8au8, 0x80u8, 0x82u8, 0x87u8, 0x94u8],
        PokemonSpecies::Raichu => seq![0x91u8, 0x80u8, 0x88u8, 0x82u8, 0x87u8, 0x94u8],
        PokemonSpecies::Sandshrew => seq![0x92u8, 0x80u8, 0x8du8, 0x83u8, 0x92u8, 0x87u8, 0x91u8, 0x84u8, 0x96u8],
        PokemonSpecies::Sandslash => seq![0x92u8, 0x80u8, 0x8du8, 0x83u8, 0x92u8, 0x8bu8, 0x80u8, 0x92u8, 0x87u8],
        PokemonSpecies::NidoranF => seq![0x8du8, 0x88u8, 0x83u8, 0x8eu8, 0x91u8, 0x80u8, 0x8du8, 0xf5u8],
        PokemonSpecies::Nidorina => seq![0x8du8, 0x88u8, 0x83u8, 0x8eu8, 0x91u8, 0x88u8, 0x8du8, 0x80u8],
        PokemonSpecies::Nidoqueen => seq![0x8du8, 0x88u8, 0x83u8, 0x8eu8, 0x90u8, 0x94u8, 0x84u8, 0x84u8, 0x8du8],
        PokemonSpecies::NidoranM => seq![0x8du8, 0x88u8, 0x83u8, 0x8eu8, 0x91u8, 0x80u8, 0x8du8, 0xefu8],
        PokemonSpecies::Nidorino => seq![0x8du8, 0x88u8, 0x83u8, 0x8eu8, 0x91u8, 0x88u8, 0x8du8, 0x8eu8],
        PokemonSpecies::Nidoking => seq![0x8du8, 0x88u8, 0x83u8, 0x8eu8, 0x8au8, 0x88u8, 0x8du8, 0x86u8],
        PokemonSpecies::Clefairy => seq![0x82u8, 0x8bu8, 0x84u8, 0x85u8, 0x80u8, 0x88u8, 0x91u8, 0x98u8],
        PokemonSpecies::Clefable => seq![0x82u8, 0x8bu8, 0x84u8, 0x85u8, 0x80u8, 0x81u8, 0x8bu8, 0x84u8],
        PokemonSpecies::Vulpix => seq![0x95u8, 0x94u8, 0x8bu8, 0x8fu8, 0x88u8, 0x97u8],
        PokemonSpecies::Ninetales => seq![0x8du8, 0x88u8, 0x8du8, 0x84u8, 0x93u8, 0x80u8, 0x8bu8, 0x84u8, 0x92u8],
        PokemonSpecies::Jigglypuff => seq![0x89u8, 0x88u8, 0x86u8, 0x86u8, 0x8bu8, 0x98u8, 0x8fu8, 0x94u8, 0x85u8, 0x85u8],
        PokemonSpecies::Wigglytuff => seq![0x96u8, 0x88u8, 0x86u8, 0x86u8, 0x8bu8, 0x98u8, 0x93u8, 0x94u8, 0x85u8, 0x85u8],
        PokemonSpecies::Zubat => seq![0x99u8, 0x94u8, 0x81u8, 0x80u8, 0x93u8],
        PokemonSpecies::Golbat => seq![0x86u8, 0x8eu8, 0x8bu8, 0x81u8, 0x80u8, 0x93u8],
        PokemonSpecies::Oddish => seq![0x8eu8, 0x83u8, 0x83u8, 0x88u8, 0x92u8, 0x87u8],
        PokemonSpecies::Gloom => seq![0x86u8, 0x8bu8, 0x8eu8, 0x8eu8, 0x8cu8],
        PokemonSpecies::Vileplume => seq![0x95u8, 0x88u8, 0x8bu8, 0x84u8, 0x8fu8, 0x8bu8, 0x94u8, 0x8cu8, 0x84u8],
        PokemonSpecies::Paras => seq![0x8fu8, 0x80u8, 0x91u8, 0x80u8, 0x92u8],
        PokemonSpecies::Parasect => seq![0x8fu8, 0x80u8, 0x91u8, 0x80u8, 0x92u8, 0x84u8, 0x82u8, 0x93u8],
        PokemonSpecies::Venonat => seq![0x95u8, 0x84u8, 0x8du8, 0x8eu8, 0x8du8, 0x80u8, 0x93u8],
        PokemonSpecies::Venomoth => seq![0x95u8, 0x84u8, 0x8du8, 0x8eu8, 0x8cu8, 0x8eu8, 0x93u8, 0x87u8],
        PokemonSpecies::Diglett => seq![0x83u8, 0x88u8, 0x86u8, 0x8bu8, 0x84u8, 0x93u8, 0x93u8],
        PokemonSpecies::Dugtrio => seq![0x83u8, 0x94u8, 0x86u8, 0x93u8, 0x91u8, 0x88u8, 0x8eu8],
        PokemonSpecies::Meowth => seq![0x8cu8, 0x84u8, 0x8eu8, 0x96u8, 0x93u8, 0x87u8],
        PokemonSpecies::Persian => seq![0x8fu8, 0x84u8, 0x91u8, 0x92u8, 0x88u8, 0x80u8, 0x8du8],
        PokemonSpecies::Psyduck => seq![0x8fu8, 0x92u8, 0x98u8, 0x83u8, 0x94u8, 0x82u8, 0x8au8],
        PokemonSpecies::Golduck => seq![0x86u8, 0x8eu8, 0x8bu8, 0x83u8, 0x94u8, 0x82u8, 0x8au8],
        PokemonSpecies::Mankey => seq![0x8cu8, 0x80u8, 0x8du8, 0x8au8, 0x84u8, 0x98u8],
        PokemonSpecies::Primeape => seq![0x8fu8, 0x91u8, 0x88u8, 0x8cu8, 0x84u8, 0x80u8, 0x8fu8, 0x84u8],
        PokemonSpecies::Growlithe => seq![0x86u8, 0x91u8, 0x8eu8, 0x96u8, 0x8bu8, 0x88u8, 0x93u8, 0x87u8, 0x84u8],
        PokemonSpecies::Arcanine => seq![0x80u8, 0x91u8, 0x82u8, 0x80u8, 0x8du8, 0x88u8, 0x8du8, 0x84u8],
        PokemonSpecies::Poliwag => seq![0x8fu8, 0x8eu8, 0x8bu8, 0x88u8, 0x96u8, 0x80u8, 0x86u8],
        PokemonSpecies::Poliwhirl => seq![0x8fu8, 0x8eu8, 0x8bu8, 0x88u8, 0x96u8, 0x87u8, 0x88u8, 0x91u8, 0x8bu8],
        PokemonSpecies::Poliwrath => seq![0x8fu8, 0x8eu8, 0x8bu8, 0x88u8, 0x96u8, 0x91u8, 0x80u8, 0x93u8, 0x87u8],
        PokemonSpecies::Abra => seq![0x80u8, 0x81u8, 0x91u8, 0x80u8],
        PokemonSpecies::Kadabra => seq![0x8au8, 0x80u8, 0x83u8, 0x80u8, 0x81u8, 0x91u8, 0x80u8],
        PokemonSpecies::Alakazam => seq![0x80u8, 0x8bu8, 0x80u8, 0x8au8, 0x80u8, 0x99u8, 0x80u8, 0x8cu8],
        PokemonSpecies::Machop => seq![0x8cu8, 0x80u8, 0x82u8, 0x87u8, 0x8eu8, 0x8fu8],
        PokemonSpecies::Machoke => seq![0x8cu8, 0x80u8, 0x82u8, 0x87u8, 0x8eu8, 0x8au8, 0x84u8],
        PokemonSpecies::Machamp => seq![0x8cu8, 0x80u8, 0x82u8, 0x87u8, 0x80u8, 0x8cu8, 0x8fu8],
        PokemonSpecies::Bellsprout => seq![0x81u8, 0x84u8, 0x8bu8, 0x8bu8, 0x92u8, 0x8fu8, 0x91u8, 0x8eu8, 0x94u8, 0x93u8],
        PokemonSpecies::Weepinbell => seq![0x96u8, 0x84u8, 0x84u8, 0x8fu8, 0x88u8, 0x8du8, 0x81u8, 0x84u8, 0x8bu8, 0x8bu8],
        PokemonSpecies::Victreebel => seq![0x95u8, 0x88u8, 0x82u8, 0x93u8, 0x91u8, 0x84u8, 0x84u8, 0x81u8, 0x84u8, 0x8bu8],
        PokemonSpecies::Tentacool => seq![0x93u8, 0x84u8, 0x8du8, 0x93u8, 0x80u8, 0x82u8, 0x8eu8, 0x8eu8, 0x8bu8],
        PokemonSpecies::Tentacruel => seq![0x93u8, 0x84u8, 0x8du8, 0x93u8, 0x80u8, 0x82u8, 0x91u8, 0x94u8, 0x84u8, 0x8bu8],
        PokemonSpecies::Geodude => seq![0x86u8, 0x84u8, 0x8eu8, 0x83u8, 0x94u8, 0x83u8, 0x84u8],
        PokemonSpecies::Graveler => seq![0x86u8, 0x91u8, 0x80u8, 0x95u8, 0x84u8, 0x8bu8, 0x84u8, 0x91u8],
        PokemonSpecies::Golem => seq![0x86u8, 0x8eu8, 0x8bu8, 0x84u8, 0x8cu8],
        PokemonSpecies::Ponyta => seq![0x8fu8, 0x8eu8, 0x8du8, 0x98u8, 0x93u8, 0x80u8],
        PokemonSpecies::Rapidash => seq![0x91u8, 0x80u8, 0x8fu8, 0x88u8, 0x83u8, 0x80u8, 0x92u8, 0x87u8],
        PokemonSpecies::Slowpoke => seq![0x92u8, 0x8bu8, 0x8eu8, 0x96u8, 0x8fu8, 0x8eu8, 0x8au8, 0x84u8],
        PokemonSpecies::Slowbro => seq![0x92u8, 0x8bu8, 0x8eu8, 0x96u8, 0x81u8, 0x91u8, 0x8eu8],
        PokemonSpecies::Magnemite => seq![0x8cu8, 0x80u8, 0x86u8, 0x8du8, 0x84u8, 0x8cu8, 0x88u8, 0x93u8, 0x84u8],
        PokemonSpecies::Magneton => seq![0x8cu8, 0x80u8, 0x86u8, 0x8du8, 0x84u8, 0x93u8, 0x8eu8, 0x8du8],
        PokemonSpecies::Farfetchd => seq![0x85u8, 0x80u8, 0x91u8, 0x85u8, 0x84u8, 0x93u8, 0x82u8, 0x87u8, 0xe0u8, 0x83u8],
        PokemonSpecies::Doduo => seq![0x83u8, 0x8eu8, 0x83u8, 0x94u8, 0x8eu8],
        PokemonSpecies::Dodrio => seq![0x83u8, 0x8eu8, 0x83u8, 0x91u8, 0x88u8, 0x8eu8],
        PokemonSpecies::Seel => seq![0x92u8, 0x84u8, 0x84u8, 0x8bu8],
        PokemonSpecies::Dewgong => seq![0x83u8, 0x84u8, 0x96u8, 0x86u8, 0x8eu8, 0x8du8, 0x86u8],
        PokemonSpecies::Grimer => seq![0x86u8, 0x91u8, 0x88u8, 0x8cu8, 0x84u8, 0x91u8],
        PokemonSpecies::Muk => seq![0x8cu8, 0x94u8, 0x8au8],
        PokemonSpecies::Shellder => seq![0x92u8, 0x87u8, 0x84u8, 0x8bu8, 0x8bu8, 0x83u8, 0x84u8, 0x91u8],
        PokemonSpecies::Cloyster => seq![0x82u8, 0x8bu8, 0x8eu8, 0x98u8, 0x92u8, 0x93u8, 0x84u8, 0x91u8],
        PokemonSpecies::Gastly => seq![0x86u8, 0x80u8, 0x92u8, 0x93u8, 0x8bu8, 0x98u8],
        PokemonSpecies::Haunter => seq![0x87u8, 0x80u8, 0x94u8, 0x8du8, 0x93u8, 0x84u8, 0x91u8],
        PokemonSpecies::Gengar => seq![0x86u8, 0x84u8, 0x8du8, 0x86u8, 0x80u8, 0x91u8],
        PokemonSpecies::Onix => seq![0x8eu8, 0x8du8, 0x88u8, 0x97u8],
        PokemonSpecies::Drowzee => seq![0x83u8, 0x91u8, 0x8eu8, 0x96u8, 0x99u8, 0x84u8, 0x84u8],
        PokemonSpecies::Hypno => seq![0x87u8, 0x98u8, 0x8fu8, 0x8du8, 0x8eu8],
        PokemonSpecies::Krabby => seq![0x8au8, 0x91u8, 0x80u8, 0x81u8, 0x81u8, 0x98u8],
        PokemonSpecies::Kingler => seq![0x8au8, 0x88u8, 0x8du8, 0x86u8, 0x8bu8, 0x84u8, 0x91u8],
        PokemonSpecies::Voltorb => seq![0x95u8, 0x8eu8, 0x8bu8, 0x93u8, 0x8eu8, 0x91u8, 0x81u8],
        PokemonSpecies::Electrode => seq![0x84u8, 0x8bu8, 0x84u8, 0x82u8, 0x93u8, 0x91u8, 0x8eu8, 0x83u8, 0x84u8],
        PokemonSpecies::Exeggcute => seq![0x84u8, 0x97u8, 0x84u8, 0x86u8, 0x86u8, 0x82u8, 0x94u8, 0x93u8, 0x84u8],
        PokemonSpecies::Exeggutor => seq![0x84u8, 0x97u8, 0x84u8, 0x86u8, 0x86u8, 0x94u8, 0x93u8, 0x8eu8, 0x91u8],
        PokemonSpecies::Cubone => seq![0x82u8, 0x94u8, 0x81u8, 0x8eu8, 0x8du8, 0x84u8],
        PokemonSpecies::Marowak => seq![0x8cu8, 0x80u8, 0x91u8, 0x8eu8, 0x96u8, 0x80u8, 0x8au8],
        PokemonSpecies::Hitmonlee => seq![0x87u8, 0x88u8, 0x93u8, 0x8cu8, 0x8eu8, 0x8du8, 0x8bu8, 0x84u8, 0x84u8],
        PokemonSpecies::Hitmonchan => seq![0x87u8, 0x88u8, 0x93u8, 0x8cu8, 0x8eu8, 0x8du8, 0x82u8, 0x87u8, 0x80u8, 0x8du8],
        PokemonSpecies::Lickitung => seq![0x8bu8, 0x88u8, 0x82u8, 0x8au8, 0x88u8, 0x93u8, 0x94u8, 0x8du8, 0x86u8],
        PokemonSpecies::Koffing => seq![0x8au8, 0x8eu8, 0x85u8, 0x85u8, 0x88u8, 0x8du8, 0x86u8],
        PokemonSpecies::Weezing => seq![0x96u8, 0x84u8, 0x84u8, 0x99u8, 0x88u8, 0x8du8, 0x86u8],
        PokemonSpecies::Rhyhorn => seq![0x91u8, 0x87u8, 0x98u8, 0x87u8, 0x8eu8, 0x91u8, 0x8du8],
        PokemonSpecies::Rhydon => seq![0x91u8, 0x87u8, 0x98u8, 0x83u8, 0x8eu8, 0x8du8],
        PokemonSpecies::Chansey => seq![0x82u8, 0x87u8, 0x80u8, 0x8du8, 0x92u8, 0x84u8, 0x98u8],
        PokemonSpecies::Tangela => seq![0x93u8, 0x80u8, 0x8du8, 0x86u8, 0x84u8, 0x8bu8, 0x80u8],
        PokemonSpecies::Kangaskhan => seq![0x8au8, 0x80u8, 0x8du8, 0x86u8, 0x80u8, 0x92u8, 0x8au8, 0x87u8, 0x80u8, 0x8du8],
        PokemonSpecies::Horsea => seq![0x87u8, 0x8eu8, 0x91u8, 0x92u8, 0x84u8, 0x80u8],
        PokemonSpecies::Seadra => seq![0x92u8, 0x84u8, 0x80u8, 0x83u8, 0x91u8, 0x80u8],
        PokemonSpecies::Goldeen => seq![0x86u8, 0x8eu8, 0x8bu8, 0x83u8, 0x84u8, 0x84u8, 0x8du8],
        PokemonSpecies::Seaking => seq![0x92u8, 0x84u8, 0x80u8, 0x8au8, 0x88u8, 0x8du8, 0x86u8],
        PokemonSpecies::Staryu => seq![0x92u8, 0x93u8, 0x80u8, 0x91u8, 0x98u8, 0x94u8],
        PokemonSpecies::Starmie => seq![0x92u8, 0x93u8, 0x80u8, 0x91u8, 0x8cu8, 0x88u8, 0x84u8],
        PokemonSpecies::MrMime => seq![0x8cu8, 0x91u8, 0xe8u8, 0x8cu8, 0x88u8, 0x8cu8, 0x84u8],
        PokemonSpecies::Scyther => seq![0x92u8, 0x82u8, 0x98u8, 0x93u8, 0x87u8, 0x84u8, 0x91u8],
        PokemonSpecies::Jynx => seq![0x89u8, 0x98u8, 0x8du8, 0x97u8],
        PokemonSpecies::Electabuzz => seq![0x84u8, 0x8bu8, 0x84u8, 0x82u8, 0x93u8, 0x80u8, 0x81u8, 0x94u8, 0x99u8, 0x99u8],
        PokemonSpecies::Magmar => seq![0x8cu8, 0x80u8, 0x86u8, 0x8cu8, 0x80u8, 0x91u8],
        PokemonSpecies::Pinsir => seq![0x8fu8, 0x88u8, 0x8du8, 0x92u8, 0x88u8, 0x91u8],
        PokemonSpecies::Tauros => seq![0x93u8, 0x80u8, 0x94u8, 0x91u8, 0x8eu8, 0x92u8],
        PokemonSpecies::Magikarp => seq![0x8cu8, 0x80u8, 0x86u8, 0x88u8, 0x8au8, 0x80u8, 0x91u8, 0x8fu8],
        PokemonSpecies::Gyarados => seq![0x86u8, 0x98u8, 0x80u8, 0x91u8, 0x80u8, 0x83u8, 0x8eu8, 0x92u8],
        PokemonSpecies::Lapras => seq![0x8bu8, 0x80u8, 0x8fu8, 0x91u8, 0x80u8, 0x92u8],
        PokemonSpecies::Ditto => seq![0x83u8, 0x88u8, 0x93u8, 0x93u8, 0x8eu8],
        PokemonSpecies::Eevee => seq![0x84u8, 0x84u8, 0x95u8, 0x84u8, 0x84u8],
        PokemonSpecies::Vaporeon => seq![0x95u8, 0x80u8, 0x8fu8, 0x8eu8, 0x91u8, 0x84u8, 0x8eu8, 0x8du8],
        PokemonSpecies::Jolteon => seq![0x89u8, 0x8eu8, 0x8bu8, 0x93u8, 0x84u8, 0x8eu8, 0x8du8],
        PokemonSpecies::Flareon => seq![0x85u8, 0x8bu8, 0x80u8, 0x91u8, 0x84u8, 0x8eu8, 0x8du8],
        PokemonSpecies::Porygon => seq![0x8fu8, 0x8eu8, 0x91u8, 0x98u8, 0x86u8, 0x8eu8, 0x8du8],
        PokemonSpecies::Omanyte => seq![0x8eu8, 0x8cu8, 0x80u8, 0x8du8, 0x98u8, 0x93u8, 0x84u8],
        PokemonSpecies::Omastar => seq![0x8eu8, 0x8cu8, 0x80u8, 0x92u8, 0x93u8, 0x80u8, 0x91u8],
        PokemonSpecies::Kabuto => seq![0x8au8, 0x80u8, 0x81u8, 0x94u8, 0x93u8, 0x8eu8],
        PokemonSpecies::Kabutops => seq![0x8au8, 0x80u8, 0x81u8, 0x94u8, 0x93u8, 0x8eu8, 0x8fu8, 0x92u8],
        PokemonSpecies::Aerodactyl => seq![0x80u8, 0x84u8, 0x91u8, 0x8eu8, 0x83u8, 0x80u8, 0x82u8, 0x93u8, 0x98u8, 0x8bu8],
        PokemonSpecies::Snorlax => seq![0x92u8, 0x8du8, 0x8eu8, 0x91u8, 0x8bu8, 0x80u8, 0x97u8],
        PokemonSpecies::Articuno => seq![0x80u8, 0x91u8, 0x93u8, 0x88u8, 0x82u8, 0x94u8, 0x8du8, 0x8eu8],
        PokemonSpecies::Zapdos => seq![0x99u8, 0x80u8, 0x8fu8, 0x83u8, 0x8eu8, 0x92u8],
        PokemonSpecies::Moltres => seq![0x8cu8, 0x8eu8, 0x8bu8, 0x93u8, 0x91u8, 0x84u8, 0x92u8],
        PokemonSpecies::Dratini => seq![0x83u8, 0x91u8, 0x80u8, 0x93u8, 0x88u8, 0x8du8, 0x88u8],
        PokemonSpecies::Dragonair => seq![0x83u8, 0x91u8, 0x80u8, 0x86u8, 0x8eu8, 0x8du8, 0x80u8, 0x88u8, 0x91u8],
        PokemonSpecies::Dragonite => seq![0x83u8, 0x91u8, 0x80u8, 0x86u8, 0x8eu8, 0x8du8, 0x88u8, 0x93u8, 0x84u8],
        PokemonSpecies::Mewtwo => seq![0x8cu8, 0x84u8, 0x96u8, 0x93u8, 0x96u8, 0x8eu8],
        PokemonSpecies::Mew => seq![0x8cu8, 0x84u8, 0x96u8],
    }
}

impl PokemonSpecies {
    /// The species with the given internal index, if there is one.
    pub fn from_index(index: u8) -> (res: Option<PokemonSpecies>)
        ensures
            res == species_from_index(index),
    {
        match index {
            1 => Some(PokemonSpecies::Rhydon),
            2 => Some(PokemonSpecies::Kangaskhan),
            3 => Some(PokemonSpecies::NidoranM),
            4 => Some(PokemonSpecies::Clefairy),
            5 => Some(PokemonSpecies::Spearow),
            6 => Some(PokemonSpecies::Voltorb),
            7 => Some(PokemonSpecies::Nidoking),
            8 => Some(PokemonSpecies::Slowbro),
            9 => Some(PokemonSpecies::Ivysaur),
            10 => Some(PokemonSpecies::Exeggutor),
            11 => Some(PokemonSpecies::Lickitung),
            12 => Some(PokemonSpecies::Exeggcute),
            13 => Some(PokemonSpecies::Grimer),
            14 => Some(PokemonSpecies::Gengar),
            15 => Some(PokemonSpecies::NidoranF),
            16 => Some(PokemonSpecies::Nidoqueen),
            17 => Some(PokemonSpecies::Cubone),
            18 => Some(PokemonSpecies::Rhyhorn),
            19 => Some(PokemonSpecies::Lapras),
            20 => Some(PokemonSpecies::Arcanine),
            21 => Some(PokemonSpecies::Mew),
            22 => Some(PokemonSpecies::Gyarados),
            23 => Some(PokemonSpecies::Shellder),
            24 => Some(PokemonSpecies::Tentacool),
            25 => Some(PokemonSpecies::Gastly),
            26 => Some(PokemonSpecies::Scyther),
            27 => Some(PokemonSpecies::Staryu),
            28 => Some(PokemonSpecies::Blastoise),
            29 => Some(PokemonSpecies::Pinsir),
            30 => Some(PokemonSpecies::Tangela),
            33 => Some(PokemonSpecies::Growlithe),
            34 => Some(PokemonSpecies::Onix),
            35 => Some(PokemonSpecies::Fearow),
            36 => Some(PokemonSpecies::Pidgey),
            37 => Some(PokemonSpecies::Slowpoke),
            38 => Some(PokemonSpecies::Kadabra),
            39 => Some(PokemonSpecies::Graveler),
            40 => Some(PokemonSpecies::Chansey),
            41 => Some(PokemonSpecies::Machoke),
            42 => Some(PokemonSpecies::MrMime),
            43 => Some(PokemonSpecies::Hitmonlee),
            44 => Some(PokemonSpecies::Hitmonchan),
            45 => Some(PokemonSpecies::Arbok),
            46 => Some(PokemonSpecies::Parasect),
            47 => Some(PokemonSpecies::Psyduck),
            48 => Some(PokemonSpecies::Drowzee),
            49 => Some(PokemonSpecies::Golem),
            51 => Some(PokemonSpecies::Magmar),
            53 => Some(PokemonSpecies::Electabuzz),
            54 => Some(PokemonSpecies::Magneton),
            55 => Some(PokemonSpecies::Koffing),
            57 => Some(PokemonSpecies::Mankey),
            58 => Some(PokemonSpecies::Seel),
            59 => Some(PokemonSpecies::Diglett),
            60 => Some(PokemonSpecies::Tauros),
            64 => Some(PokemonSpecies::Farfetchd),
            65 => Some(PokemonSpecies::Venonat),
            66 => Some(PokemonSpecies::Dragonite),
            70 => Some(PokemonSpecies::Doduo),
            71 => Some(PokemonSpecies::Poliwag),
            72 => Some(PokemonSpecies::Jynx),
            73 => Some(PokemonSpecies::Moltres),
            74 => Some(PokemonSpecies::Articuno),
            75 => Some(PokemonSpecies::Zapdos),
            76 => Some(PokemonSpecies::Ditto),
            77 => Some(PokemonSpecies::Meowth),
            78 => Some(PokemonSpecies::Krabby),
            82 => Some(PokemonSpecies::Vulpix),
            83 => Some(PokemonSpecies::Ninetales),
            84 => Some(PokemonSpecies::Pikachu),
            85 => Some(PokemonSpecies::Raichu),
            88 => Some(PokemonSpecies::Dratini),
            89 => Some(PokemonSpecies::Dragonair),
            90 => Some(PokemonSpecies::Kabuto),
            91 => Some(PokemonSpecies::Kabutops),
            92 => Some(PokemonSpecies::Horsea),
            93 => Some(PokemonSpecies::Seadra),
            96 => Some(PokemonSpecies::Sandshrew),
            97 => Some(PokemonSpecies::Sandslash),
            98 => Some(PokemonSpecies::Omanyte),
            99 => Some(PokemonSpecies::Omastar),
            100 => Some(PokemonSpecies::Jigglypuff),
            101 => Some(PokemonSpecies::Wigglytuff),
            102 => Some(PokemonSpecies::Eevee),
            103 => Some(PokemonSpecies::Flareon),
            104 => Some(PokemonSpecies::Jolteon),
            105 => Some(PokemonSpecies::Vaporeon),
            106 => Some(PokemonSpecies::Machop),
            107 => Some(PokemonSpecies::Zubat),
            108 => Some(PokemonSpecies::Ekans),
            109 => Some(PokemonSpecies::Paras),
            110 => Some(PokemonSpecies::Poliwhirl),
            111 => Some(PokemonSpecies::Poliwrath),
            112 => Some(PokemonSpecies::Weedle),
            113 => Some(PokemonSpecies::Kakuna),
            114 => Some(PokemonSpecies::Beedrill),
            116 => Some(PokemonSpecies::Dodrio),
            117 => Some(PokemonSpecies::Primeape),
            118 => Some(PokemonSpecies::Dugtrio),
            119 => Some(PokemonSpecies::Venomoth),
            120 => Some(PokemonSpecies::Dewgong),
            123 => Some(PokemonSpecies::Caterpie),
            124 => Some(PokemonSpecies::Metapod),
            125 => Some(PokemonSpecies::Butterfree),
            126 => Some(PokemonSpecies::Machamp),
            128 => Some(PokemonSpecies::Golduck),
            129 => Some(PokemonSpecies::Hypno),
            130 => Some(PokemonSpecies::Golbat),
            131 => Some(PokemonSpecies::Mewtwo),
            132 => Some(PokemonSpecies::Snorlax),
            133 => Some(PokemonSpecies::Magikarp),
            136 => Some(PokemonSpecies::Muk),
            138 => Some(PokemonSpecies::Kingler),
            139 => Some(PokemonSpecies::Cloyster),
            141 => Some(PokemonSpecies::Electrode),
            142 => Some(PokemonSpecies::Clefable),
            143 => Some(PokemonSpecies::Weezing),
            144 => Some(PokemonSpecies::Persian),
            145 => Some(PokemonSpecies::Marowak),
            147 => Some(PokemonSpecies::Haunter),
            148 => Some(PokemonSpecies::Abra),
            149 => Some(PokemonSpecies::Alakazam),
            150 => Some(PokemonSpecies::Pidgeotto),
            151 => Some(PokemonSpecies::Pidgeot),
            152 => Some(PokemonSpecies::Starmie),
            153 => Some(PokemonSpecies::Bulbasaur),
            154 => Some(PokemonSpecies::Venusaur),
            155 => Some(PokemonSpecies::Tentacruel),
            157 => Some(PokemonSpecies::Goldeen),
            158 => Some(PokemonSpecies::Seaking),
            163 => Some(PokemonSpecies::Ponyta),
            164 => Some(PokemonSpecies::Rapidash),
            165 => Some(PokemonSpecies::Rattata),
            166 => Some(PokemonSpecies::Raticate),
            167 => Some(PokemonSpecies::Nidorino),
            168 => Some(PokemonSpecies::Nidorina),
            169 => Some(PokemonSpecies::Geodude),
            170 => Some(PokemonSpecies::Porygon),
            171 => Some(PokemonSpecies::Aerodactyl),
            173 => Some(PokemonSpecies::Magnemite),
            176 => Some(PokemonSpecies::Charmander),
            177 => Some(PokemonSpecies::Squirtle),
            178 => Some(PokemonSpecies::Charmeleon),
            179 => Some(PokemonSpecies::Wartortle),
            180 => Some(PokemonSpecies::Charizard),
            185 => Some(PokemonSpecies::Oddish),
            186 => Some(PokemonSpecies::Gloom),
            187 => Some(PokemonSpecies::Vileplume),
            188 => Some(PokemonSpecies::Bellsprout),
            189 => Some(PokemonSpecies::Weepinbell),
            190 => Some(PokemonSpecies::Victreebel),
            _ => None,
        }
    }

    /// The species' number in the game's internal species order.
    pub fn into_index(self) -> (res: u8)
        ensures
            res == species_index(self),
    {
        match self {
            PokemonSpecies::Rhydon => 1,
            PokemonSpecies::Kangaskhan => 2,
            PokemonSpecies::NidoranM => 3,
            PokemonSpecies::Clefairy => 4,
            PokemonSpecies::Spearow => 5,
            PokemonSpecies::Voltorb => 6,
            PokemonSpecies::Nidoking => 7,
            PokemonSpecies::Slowbro => 8,
            PokemonSpecies::Ivysaur => 9,
            PokemonSpecies::Exeggutor => 10,
            PokemonSpecies::Lickitung => 11,
            PokemonSpecies::Exeggcute => 12,
            PokemonSpecies::Grimer => 13,
            PokemonSpecies::Gengar => 14,
            PokemonSpecies::NidoranF => 15,
            PokemonSpecies::Nidoqueen => 16,
            PokemonSpecies::Cubone => 17,
            PokemonSpecies::Rhyhorn => 18,
            PokemonSpecies::Lapras => 19,
            PokemonSpecies::Arcanine => 20,
            PokemonSpecies::Mew => 21,
            PokemonSpecies::Gyarados => 22,
            PokemonSpecies::Shellder => 23,
            PokemonSpecies::Tentacool => 24,
            PokemonSpecies::Gastly => 25,
            PokemonSpecies::Scyther => 26,
            PokemonSpecies::Staryu => 27,
            PokemonSpecies::Blastoise => 28,
            PokemonSpecies::Pinsir => 29,
            PokemonSpecies::Tangela => 30,
            PokemonSpecies::Growlithe => 33,
            PokemonSpecies::Onix => 34,
            PokemonSpecies::Fearow => 35,
            PokemonSpecies::Pidgey => 36,
            PokemonSpecies::Slowpoke => 37,
            PokemonSpecies::Kadabra => 38,
            PokemonSpecies::Graveler => 39,
            PokemonSpecies::Chansey => 40,
            PokemonSpecies::Machoke => 41,
            PokemonSpecies::MrMime => 42,
            PokemonSpecies::Hitmonlee => 43,
            PokemonSpecies::Hitmonchan => 44,
            PokemonSpecies::Arbok => 45,
            PokemonSpecies::Parasect => 46,
            PokemonSpecies::Psyduck => 47,
            PokemonSpecies::Drowzee => 48,
            PokemonSpecies::Golem => 49,
            PokemonSpecies::Magmar => 51,
            PokemonSpecies::Electabuzz => 53,
            PokemonSpecies::Magneton => 54,
            PokemonSpecies::Koffing => 55,
            PokemonSpecies::Mankey => 57,
            PokemonSpecies::Seel => 58,
            PokemonSpecies::Diglett => 59,
            PokemonSpecies::Tauros => 60,
            PokemonSpecies::Farfetchd => 64,
            PokemonSpecies::Venonat => 65,
            PokemonSpecies::Dragonite => 66,
            PokemonSpecies::Doduo => 70,
            PokemonSpecies::Poliwag => 71,
            PokemonSpecies::Jynx => 72,
            PokemonSpecies::Moltres => 73,
            PokemonSpecies::Articuno => 74,
            PokemonSpecies::Zapdos => 75,
            PokemonSpecies::Ditto => 76,
            PokemonSpecies::Meowth => 77,
            PokemonSpecies::Krabby => 78,
            PokemonSpecies::Vulpix => 82,
            PokemonSpecies::Ninetales => 83,
            PokemonSpecies::Pikachu => 84,
            PokemonSpecies::Raichu => 85,
            PokemonSpecies::Dratini => 88,
            PokemonSpecies::Dragonair => 89,
            PokemonSpecies::Kabuto => 90,
            PokemonSpecies::Kabutops => 91,
            PokemonSpecies::Horsea => 92,
            PokemonSpecies::Seadra => 93,
            PokemonSpecies::Sandshrew => 96,
            PokemonSpecies::Sandslash => 97,
            PokemonSpecies::Omanyte => 98,
            PokemonSpecies::Omastar => 99,
            PokemonSpecies::Jigglypuff => 100,
            PokemonSpecies::Wigglytuff => 101,
            PokemonSpecies::Eevee => 102,
            PokemonSpecies::Flareon => 103,
            PokemonSpecies::Jolteon => 104,
            PokemonSpecies::Vaporeon => 105,
            PokemonSpecies::Machop => 106,
            PokemonSpecies::Zubat => 107,
            PokemonSpecies::Ekans => 108,
            PokemonSpecies::Paras => 109,
            PokemonSpecies::Poliwhirl => 110,
            PokemonSpecies::Poliwrath => 111,
            PokemonSpecies::Weedle => 112,
            PokemonSpecies::Kakuna => 113,
            PokemonSpecies::Beedrill => 114,
            PokemonSpecies::Dodrio => 116,
            PokemonSpecies::Primeape => 117,
            PokemonSpecies::Dugtrio => 118,
            PokemonSpecies::Venomoth => 119,
            PokemonSpecies::Dewgong => 120,
            PokemonSpecies::Caterpie => 123,
            PokemonSpecies::Metapod => 124,
            PokemonSpecies::Butterfree => 125,
            PokemonSpecies::Machamp => 126,
            PokemonSpecies::Golduck => 128,
            PokemonSpecies::Hypno => 129,
            PokemonSpecies::Golbat => 130,
            PokemonSpecies::Mewtwo => 131,
            PokemonSpecies::Snorlax => 132,
            PokemonSpecies::Magikarp => 133,
            PokemonSpecies::Muk => 136,
            PokemonSpecies::Kingler => 138,
            PokemonSpecies::Cloyster => 139,
            PokemonSpecies::Electrode => 141,
            PokemonSpecies::Clefable => 142,
            PokemonSpecies::Weezing => 143,
            PokemonSpecies::Persian => 144,
            PokemonSpecies::Marowak => 145,
            PokemonSpecies::Haunter => 147,
            PokemonSpecies::Abra => 148,
            PokemonSpecies::Alakazam => 149,
            PokemonSpecies::Pidgeotto => 150,
            PokemonSpecies::Pidgeot => 151,
            PokemonSpecies::Starmie => 152,
            PokemonSpecies::Bulbasaur => 153,
            PokemonSpecies::Venusaur => 154,
            PokemonSpecies::Tentacruel => 155,
            PokemonSpecies::Goldeen => 157,
            PokemonSpecies::Seaking => 158,
            PokemonSpecies::Ponyta => 163,
            PokemonSpecies::Rapidash => 164,
            PokemonSpecies::Rattata => 165,
            PokemonSpecies::Raticate => 166,
            PokemonSpecies::Nidorino => 167,
            PokemonSpecies::Nidorina => 168,
            PokemonSpecies::Geodude => 169,
            PokemonSpecies::Porygon => 170,
            PokemonSpecies::Aerodactyl => 171,
            PokemonSpecies::Magnemite => 173,
            PokemonSpecies::Charmander => 176,
            PokemonSpecies::Squirtle => 177,
            PokemonSpecies::Charmeleon => 178,
            PokemonSpecies::Wartortle => 179,
            PokemonSpecies::Charizard => 180,
            PokemonSpecies::Oddish => 185,
            PokemonSpecies::Gloom => 186,
            PokemonSpecies::Vileplume => 187,
            PokemonSpecies::Bellsprout => 188,
            PokemonSpecies::Weepinbell => 189,
            PokemonSpecies::Victreebel => 190,
        }
    }

    /// The species' Pokédex number.
    pub fn pokedex_number(self) -> (res: u8)
        ensures
            res == species_dex_number(self),
    {
        match self {
            PokemonSpecies::Bulbasaur => 1,
            PokemonSpecies::Ivysaur => 2,
            PokemonSpecies::Venusaur => 3,
            PokemonSpecies::Charmander => 4,
            PokemonSpecies::Charmeleon => 5,
            PokemonSpecies::Charizard => 6,
            PokemonSpecies::Squirtle => 7,
            PokemonSpecies::Wartortle => 8,
            PokemonSpecies::Blastoise => 9,
            PokemonSpecies::Caterpie => 10,
            PokemonSpecies::Metapod => 11,
            PokemonSpecies::Butterfree => 12,
            PokemonSpecies::Weedle => 13,
            PokemonSpecies::Kakuna => 14,
            PokemonSpecies::Beedrill => 15,
            PokemonSpecies::Pidgey => 16,
            PokemonSpecies::Pidgeotto => 17,
            PokemonSpecies::Pidgeot => 18,
            PokemonSpecies::Rattata => 19,
            PokemonSpecies::Raticate => 20,
            PokemonSpecies::Spearow => 21,
            PokemonSpecies::Fearow => 22,
            PokemonSpecies::Ekans => 23,
            PokemonSpecies::Arbok => 24,
            PokemonSpecies::Pikachu => 25,
            PokemonSpecies::Raichu => 26,
            PokemonSpecies::Sandshrew => 27,
            PokemonSpecies::Sandslash => 28,
            PokemonSpecies::NidoranF => 29,
            PokemonSpecies::Nidorina => 30,
            PokemonSpecies::Nidoqueen => 31,
            PokemonSpecies::NidoranM => 32,
            PokemonSpecies::Nidorino => 33,
            PokemonSpecies::Nidoking => 34,
            PokemonSpecies::Clefairy => 35,
            PokemonSpecies::Clefable => 36,
            PokemonSpecies::Vulpix => 37,
            PokemonSpecies::Ninetales => 38,
            PokemonSpecies::Jigglypuff => 39,
            PokemonSpecies::Wigglytuff => 40,
            PokemonSpecies::Zubat => 41,
            PokemonSpecies::Golbat => 42,
            PokemonSpecies::Oddish => 43,
            PokemonSpecies::Gloom => 44,
            PokemonSpecies::Vileplume => 45,
            PokemonSpecies::Paras => 46,
            PokemonSpecies::Parasect => 47,
            PokemonSpecies::Venonat => 48,
            PokemonSpecies::Venomoth => 49,
            PokemonSpecies::Diglett => 50,
            PokemonSpecies::Dugtrio => 51,
            PokemonSpecies::Meowth => 52,
            PokemonSpecies::Persian => 53,
            PokemonSpecies::Psyduck => 54,
            PokemonSpecies::Golduck => 55,
            PokemonSpecies::Mankey => 56,
            PokemonSpecies::Primeape => 57,
            PokemonSpecies::Growlithe => 58,
            PokemonSpecies::Arcanine => 59,
            PokemonSpecies::Poliwag => 60,
            PokemonSpecies::Poliwhirl => 61,
            PokemonSpecies::Poliwrath => 62,
            PokemonSpecies::Abra => 63,
            PokemonSpecies::Kadabra => 64,
            PokemonSpecies::Alakazam => 65,
            PokemonSpecies::Machop => 66,
            PokemonSpecies::Machoke => 67,
            PokemonSpecies::Machamp => 68,
            PokemonSpecies::Bellsprout => 69,
            PokemonSpecies::Weepinbell => 70,
            PokemonSpecies::Victreebel => 71,
            PokemonSpecies::Tentacool => 72,
            PokemonSpecies::Tentacruel => 73,
            PokemonSpecies::Geodude => 74,
            PokemonSpecies::Graveler => 75,
            PokemonSpecies::Golem => 76,
            PokemonSpecies::Ponyta => 77,
            PokemonSpecies::Rapidash => 78,
            PokemonSpecies::Slowpoke => 79,
            PokemonSpecies::Slowbro => 80,
            PokemonSpecies::Magnemite => 81,
            PokemonSpecies::Magneton => 82,
            PokemonSpecies::Farfetchd => 83,
            PokemonSpecies::Doduo => 84,
            PokemonSpecies::Dodrio => 85,
            PokemonSpecies::Seel => 86,
            PokemonSpecies::Dewgong => 87,
            PokemonSpecies::Grimer => 88,
            PokemonSpecies::Muk => 89,
            PokemonSpecies::Shellder => 90,
            PokemonSpecies::Cloyster => 91,
            PokemonSpecies::Gastly => 92,
            PokemonSpecies::Haunter => 93,
            PokemonSpecies::Gengar => 94,
            PokemonSpecies::Onix => 95,
            PokemonSpecies::Drowzee => 96,
            PokemonSpecies::Hypno => 97,
            PokemonSpecies::Krabby => 98,
            PokemonSpecies::Kingler => 99,
            PokemonSpecies::Voltorb => 100,
            PokemonSpecies::Electrode => 101,
            PokemonSpecies::Exeggcute => 102,
            PokemonSpecies::Exeggutor => 103,
            PokemonSpecies::Cubone => 104,
            PokemonSpecies::Marowak => 105,
            PokemonSpecies::Hitmonlee => 106,
            PokemonSpecies::Hitmonchan => 107,
            PokemonSpecies::Lickitung => 108,
            PokemonSpecies::Koffing => 109,
            PokemonSpecies::Weezing => 110,
            PokemonSpecies::Rhyhorn => 111,
            PokemonSpecies::Rhydon => 112,
            PokemonSpecies::Chansey => 113,
            PokemonSpecies::Tangela => 114,
            PokemonSpecies::Kangaskhan => 115,
            PokemonSpecies::Horsea => 116,
            PokemonSpecies::Seadra => 117,
            PokemonSpecies::Goldeen => 118,
            PokemonSpecies::Seaking => 119,
            PokemonSpecies::Staryu => 120,
            PokemonSpecies::Starmie => 121,
            PokemonSpecies::MrMime => 122,
            PokemonSpecies::Scyther => 123,
            PokemonSpecies::Jynx => 124,
            PokemonSpecies::Electabuzz => 125,
            PokemonSpecies::Magmar => 126,
            PokemonSpecies::Pinsir => 127,
            PokemonSpecies::Tauros => 128,
            PokemonSpecies::Magikarp => 129,
            PokemonSpecies::Gyarados => 130,
            PokemonSpecies::Lapras => 131,
            PokemonSpecies::Ditto => 132,
            PokemonSpecies::Eevee => 133,
            PokemonSpecies::Vaporeon => 134,
            PokemonSpecies::Jolteon => 135,
            PokemonSpecies::Flareon => 136,
            PokemonSpecies::Porygon => 137,
            PokemonSpecies::Omanyte => 138,
            PokemonSpecies::Omastar => 139,
            PokemonSpecies::Kabuto => 140,
            PokemonSpecies::Kabutops => 141,
            PokemonSpecies::Aerodactyl => 142,
            PokemonSpecies::Snorlax => 143,
            PokemonSpecies::Articuno => 144,
            PokemonSpecies::Zapdos => 145,
            PokemonSpecies::Moltres => 146,
            PokemonSpecies::Dratini => 147,
            PokemonSpecies::Dragonair => 148,
            PokemonSpecies::Dragonite => 149,
            PokemonSpecies::Mewtwo => 150,
            PokemonSpecies::Mew => 151,
        }
    }

    /// The species' default name, in the game's character encoding.
    pub fn name(self) -> (res: PokeString)
        ensures
            res@ == species_name(self),
    {
        let bytes: Vec<u8> = match self {
            PokemonSpecies::Bulbasaur => vec![0x81, 0x94, 0x8b, 0x81, 0x80, 0x92, 0x80, 0x94, 0x91],
            PokemonSpecies::Ivysaur => vec![0x88, 0x95, 0x98, 0x92, 0x80, 0x94, 0x91],
            PokemonSpecies::Venusaur => vec![0x95, 0x84, 0x8d, 0x94, 0x92, 0x80, 0x94, 0x91],
            PokemonSpecies::Charmander => vec![0x82, 0x87, 0x80, 0x91, 0x8c, 0x80, 0x8d, 0x83, 0x84, 0x91],
            PokemonSpecies::Charmeleon => vec![0x82, 0x87, 0x80, 0x91, 0x8c, 0x84, 0x8b, 0x84, 0x8e, 0x8d],
            PokemonSpecies::Charizard => vec![0x82, 0x87, 0x80, 0x91, 0x88, 0x99, 0x80, 0x91, 0x83],
            PokemonSpecies::Squirtle => vec![0x92, 0x90, 0x94, 0x88, 0x91, 0x93, 0x8b, 0x84],
            PokemonSpecies::Wartortle => vec![0x96, 0x80, 0x91, 0x93, 0x8e, 0x91, 0x93, 0x8b, 0x84],
            PokemonSpecies::Blastoise => vec![0x81, 0x8b, 0x80, 0x92, 0x93, 0x8e, 0x88, 0x92, 0x84],
            PokemonSpecies::Caterpie => vec![0x82, 0x80, 0x93, 0x84, 0x91, 0x8f, 0x88, 0x84],
            PokemonSpecies::Metapod => vec![0x8c, 0x84, 0x93, 0x80, 0x8f, 0x8e, 0x83],
            PokemonSpecies::Butterfree => vec![0x81, 0x94, 0x93, 0x93, 0x84, 0x91, 0x85, 0x91, 0x84, 0x84],
            PokemonSpecies::Weedle => vec![0x96, 0x84, 0x84, 0x83, 0x8b, 0x84],
            PokemonSpecies::Kakuna => vec![0x8a, 0x80, 0x8a, 0x94, 0x8d, 0x80],
            PokemonSpecies::Beedrill => vec![0x81, 0x84, 0x84, 0x83, 0x91, 0x88, 0x8b, 0x8b],
            PokemonSpecies::Pidgey => vec![0x8f, 0x88, 0x83, 0x86, 0x84, 0x98],
            PokemonSpecies::Pidgeotto => vec![0x8f, 0x88, 0x83, 0x86, 0x84, 0x8e, 0x93, 0x93, 0x8e],
            PokemonSpecies::Pidgeot => vec![0x8f, 0x88, 0x83, 0x86, 0x84, 0x8e, 0x93],
            PokemonSpecies::Rattata => vec![0x91, 0x80, 0x93, 0x93, 0x80, 0x93, 0x80],
            PokemonSpecies::Raticate => vec![0x91, 0x80, 0x93, 0x88, 0x82, 0x80, 0x93, 0x84],
            PokemonSpecies::Spearow => vec![0x92, 0x8f, 0x84, 0x80, 0x91, 0x8e, 0x96],
            PokemonSpecies::Fearow => vec![0x85, 0x84, 0x80, 0x91, 0x8e, 0x96],
            PokemonSpecies::Ekans => vec![0x84, 0x8a, 0x80, 0x8d, 0x92],
            PokemonSpecies::Arbok => vec![0x80, 0x91, 0x81, 0x8e, 0x8a],
            PokemonSpecies::Pikachu => vec![0x8f, 0x88, 0x8a, 0x80, 0x82, 0x87, 0x94],
            PokemonSpecies::Raichu => vec![0x91, 0x80, 0x88, 0x82, 0x87, 0x94],
            PokemonSpecies::Sandshrew => vec![0x92, 0x80, 0x8d, 0x83, 0x92, 0x87, 0x91, 0x84, 0x96],
            PokemonSpecies::Sandslash => vec![0x92, 0x80, 0x8d, 0x83, 0x92, 0x8b, 0x80, 0x92, 0x87],
            PokemonSpecies::NidoranF => vec![0x8d, 0x88, 0x83, 0x8e, 0x91, 0x80, 0x8d, 0xf5],
            PokemonSpecies::Nidorina => vec![0x8d, 0x88, 0x83, 0x8e, 0x91, 0x88, 0x8d, 0x80],
            PokemonSpecies::Nidoqueen => vec![0x8d, 0x88, 0x83, 0x8e, 0x90, 0x94, 0x84, 0x84, 0x8d],
            PokemonSpecies::NidoranM => vec![0x8d, 0x88, 0x83, 0x8e, 0x91, 0x80, 0x8d, 0xef],
            PokemonSpecies::Nidorino => vec![0x8d, 0x88, 0x83, 0x8e, 0x91, 0x88, 0x8d, 0x8e],
            PokemonSpecies::Nidoking => vec![0x8d, 0x88, 0x83, 0x8e, 0x8a, 0x88, 0x8d, 0x86],
            PokemonSpecies::Clefairy => vec![0x82, 0x8b, 0x84, 0x85, 0x80, 0x88, 0x91, 0x98],
            PokemonSpecies::Clefable => vec![0x82, 0x8b, 0x84, 0x85, 0x80, 0x81, 0x8b, 0x84],
            PokemonSpecies::Vulpix => vec![0x95, 0x94, 0x8b, 0x8f, 0x88, 0x97],
            PokemonSpecies::Ninetales => vec![0x8d, 0x88, 0x8d, 0x84, 0x93, 0x80, 0x8b, 0x84, 0x92],
            PokemonSpecies::Jigglypuff => vec![0x89, 0x88, 0x86, 0x86, 0x8b, 0x98, 0x8f, 0x94, 0x85, 0x85],
            PokemonSpecies::Wigglytuff => vec![0x96, 0x88, 0x86, 0x86, 0x8b, 0x98, 0x93, 0x94, 0x85, 0x85],
            PokemonSpecies::Zubat => vec![0x99, 0x94, 0x81, 0x80, 0x93],
            PokemonSpecies::Golbat => vec![0x86, 0x8e, 0x8b, 0x81, 0x80, 0x93],
            PokemonSpecies::Oddish => vec![0x8e, 0x83, 0x83, 0x88, 0x92, 0x87],
            PokemonSpecies::Gloom => vec![0x86, 0x8b, 0x8e, 0x8e, 0x8c],
            PokemonSpecies::Vileplume => vec![0x95, 0x88, 0x8b, 0x84, 0x8f, 0x8b, 0x94, 0x8c, 0x84],
            PokemonSpecies::Paras => vec![0x8f, 0x80, 0x91, 0x80, 0x92],
            PokemonSpecies::Parasect => vec![0x8f, 0x80, 0x91, 0x80, 0x92, 0x84, 0x82, 0x93],
            PokemonSpecies::Venonat => vec![0x95, 0x84, 0x8d, 0x8e, 0x8d, 0x80, 0x93],
            PokemonSpecies::Venomoth => vec![0x95, 0x84, 0x8d, 0x8e, 0x8c, 0x8e, 0x93, 0x87],
            PokemonSpecies::Diglett => vec![0x83, 0x88, 0x86, 0x8b, 0x84, 0x93, 0x93],
            PokemonSpecies::Dugtrio => vec![0x83, 0x94, 0x86, 0x93, 0x91, 0x88, 0x8e],
            PokemonSpecies::Meowth => vec![0x8c, 0x84, 0x8e, 0x96, 0x93, 0x87],
            PokemonSpecies::Persian => vec![0x8f, 0x84, 0x91, 0x92, 0x88, 0x80, 0x8d],
            PokemonSpecies::Psyduck => vec![0x8f, 0x92, 0x98, 0x83, 0x94, 0x82, 0x8a],
            PokemonSpecies::Golduck => vec![0x86, 0x8e, 0x8b, 0x83, 0x94, 0x82, 0x8a],
            PokemonSpecies::Mankey => vec![0x8c, 0x80, 0x8d, 0x8a, 0x84, 0x98],
            PokemonSpecies::Primeape => vec![0x8f, 0x91, 0x88, 0x8c, 0x84, 0x80, 0x8f, 0x84],
            PokemonSpecies::Growlithe => vec![0x86, 0x91, 0x8e, 0x96, 0x8b, 0x88, 0x93, 0x87, 0x84],
            PokemonSpecies::Arcanine => vec![0x80, 0x91, 0x82, 0x80, 0x8d, 0x88, 0x8d, 0x84],
            PokemonSpecies::Poliwag => vec![0x8f, 0x8e, 0x8b, 0x88, 0x96, 0x80, 0x86],
            PokemonSpecies::Poliwhirl => vec![0x8f, 0x8e, 0x8b, 0x88, 0x96, 0x87, 0x88, 0x91, 0x8b],
            PokemonSpecies::Poliwrath => vec![0x8f, 0x8e, 0x8b, 0x88, 0x96, 0x91, 0x80, 0x93, 0x87],
            PokemonSpecies::Abra => vec![0x80, 0x81, 0x91, 0x80],
            PokemonSpecies::Kadabra => vec![0x8a, 0x80, 0x83, 0x80, 0x81, 0x91, 0x80],
            PokemonSpecies::Alakazam => vec![0x80, 0x8b, 0x80, 0x8a, 0x80, 0x99, 0x80, 0x8c],
            PokemonSpecies::Machop => vec![0x8c, 0x80, 0x82, 0x87, 0x8e, 0x8f],
            PokemonSpecies::Machoke => vec![0x8c, 0x80, 0x82, 0x87, 0x8e, 0x8a, 0x84],
            PokemonSpecies::Machamp => vec![0x8c, 0x80, 0x82, 0x87, 0x80, 0x8c, 0x8f],
            PokemonSpecies::Bellsprout => vec![0x81, 0x84, 0x8b, 0x8b, 0x92, 0x8f, 0x91, 0x8e, 0x94, 0x93],
            PokemonSpecies::Weepinbell => vec![0x96, 0x84, 0x84, 0x8f, 0x88, 0x8d, 0x81, 0x84, 0x8b, 0x8b],
            PokemonSpecies::Victreebel => vec![0x95, 0x88, 0x82, 0x93, 0x91, 0x84, 0x84, 0x81, 0x84, 0x8b],
            PokemonSpecies::Tentacool => vec![0x93, 0x84, 0x8d, 0x93, 0x80, 0x82, 0x8e, 0x8e, 0x8b],
            PokemonSpecies::Tentacruel => vec![0x93, 0x84, 0x8d, 0x93, 0x80, 0x82, 0x91, 0x94, 0x84, 0x8b],
            PokemonSpecies::Geodude => vec![0x86, 0x84, 0x8e, 0x83, 0x94, 0x83, 0x84],
            PokemonSpecies::Graveler => vec![0x86, 0x91, 0x80, 0x95, 0x84, 0x8b, 0x84, 0x91],
            PokemonSpecies::Golem => vec![0x86, 0x8e, 0x8b, 0x84, 0x8c],
            PokemonSpecies::Ponyta => vec![0x8f, 0x8e, 0x8d, 0x98, 0x93, 0x80],
            PokemonSpecies::Rapidash => vec![0x91, 0x80, 0x8f, 0x88, 0x83, 0x80, 0x92, 0x87],
            PokemonSpecies::Slowpoke => vec![0x92, 0x8b, 0x8e, 0x96, 0x8f, 0x8e, 0x8a, 0x84],
            PokemonSpecies::Slowbro => vec![0x92, 0x8b, 0x8e, 0x96, 0x81, 0x91, 0x8e],
            PokemonSpecies::Magnemite => vec![0x8c, 0x80, 0x86, 0x8d, 0x84, 0x8c, 0x88, 0x93, 0x84],
            PokemonSpecies::Magneton => vec![0x8c, 0x80, 0x86, 0x8d, 0x84, 0x93, 0x8e, 0x8d],
            PokemonSpecies::Farfetchd => vec![0x85, 0x80, 0x91, 0x85, 0x84, 0x93, 0x82, 0x87, 0xe0, 0x83],
            PokemonSpecies::Doduo => vec![0x83, 0x8e, 0x83, 0x94, 0x8e],
            PokemonSpecies::Dodrio => vec![0x83, 0x8e, 0x83, 0x91, 0x88, 0x8e],
            PokemonSpecies::Seel => vec![0x92, 0x84, 0x84, 0x8b],
            PokemonSpecies::Dewgong => vec![0x83, 0x84, 0x96, 0x86, 0x8e, 0x8d, 0x86],
            PokemonSpecies::Grimer => vec![0x86, 0x91, 0x88, 0x8c, 0x84, 0x91],
            PokemonSpecies::Muk => vec![0x8c, 0x94, 0x8a],
            PokemonSpecies::Shellder => vec![0x92, 0x87, 0x84, 0x8b, 0x8b, 0x83, 0x84, 0x91],
            PokemonSpecies::Cloyster => vec![0x82, 0x8b, 0x8e, 0x98, 0x92, 0x93, 0x84, 0x91],
            PokemonSpecies::Gastly => vec![0x86, 0x80, 0x92, 0x93, 0x8b, 0x98],
            PokemonSpecies::Haunter => vec![0x87, 0x80, 0x94, 0x8d, 0x93, 0x84, 0x91],
            PokemonSpecies::Gengar => vec![0x86, 0x84, 0x8d, 0x86, 0x80, 0x91],
            PokemonSpecies::Onix => vec![0x8e, 0x8d, 0x88, 0x97],
            PokemonSpecies::Drowzee => vec![0x83, 0x91, 0x8e, 0x96, 0x99, 0x84, 0x84],
            PokemonSpecies::Hypno => vec![0x87, 0x98, 0x8f, 0x8d, 0x8e],
            PokemonSpecies::Krabby => vec![0x8a, 0x91, 0x80, 0x81, 0x81, 0x98],
            PokemonSpecies::Kingler => vec![0x8a, 0x88, 0x8d, 0x86, 0x8b, 0x84, 0x91],
            PokemonSpecies::Voltorb => vec![0x95, 0x8e, 0x8b, 0x93, 0x8e, 0x91, 0x81],
            PokemonSpecies::Electrode => vec![0x84, 0x8b, 0x84, 0x82, 0x93, 0x91, 0x8e, 0x83, 0x84],
            PokemonSpecies::Exeggcute => vec![0x84, 0x97, 0x84, 0x86, 0x86, 0x82, 0x94, 0x93, 0x84],
            PokemonSpecies::Exeggutor => vec![0x84, 0x97, 0x84, 0x86, 0x86, 0x94, 0x93, 0x8e, 0x91],
            PokemonSpecies::Cubone => vec![0x82, 0x94, 0x81, 0x8e, 0x8d, 0x84],
            PokemonSpecies::Marowak => vec![0x8c, 0x80, 0x91, 0x8e, 0x96, 0x80, 0x8a],
            PokemonSpecies::Hitmonlee => vec![0x87, 0x88, 0x93, 0x8c, 0x8e, 0x8d, 0x8b, 0x84, 0x84],
            PokemonSpecies::Hitmonchan => vec![0x87, 0x88, 0x93, 0x8c, 0x8e, 0x8d, 0x82, 0x87, 0x80, 0x8d],
            PokemonSpecies::Lickitung => vec![0x8b, 0x88, 0x82, 0x8a, 0x88, 0x93, 0x94, 0x8d, 0x86],
            PokemonSpecies::Koffing => vec![0x8a, 0x8e, 0x85, 0x85, 0x88, 0x8d, 0x86],
            PokemonSpecies::Weezing => vec![0x96, 0x84, 0x84, 0x99, 0x88, 0x8d, 0x86],
            PokemonSpecies::Rhyhorn => vec![0x91, 0x87, 0x98, 0x87, 0x8e, 0x91, 0x8d],
            PokemonSpecies::Rhydon => vec![0x91, 0x87, 0x98, 0x83, 0x8e, 0x8d],
            PokemonSpecies::Chansey => vec![0x82, 0x87, 0x80, 0x8d, 0x92, 0x84, 0x98],
            PokemonSpecies::Tangela => vec![0x93, 0x80, 0x8d, 0x86, 0x84, 0x8b, 0x80],
            PokemonSpecies::Kangaskhan => vec![0x8a, 0x80, 0x8d, 0x86, 0x80, 0x92, 0x8a, 0x87, 0x80, 0x8d],
            PokemonSpecies::Horsea => vec![0x87, 0x8e, 0x91, 0x92, 0x84, 0x80],
            PokemonSpecies::Seadra => vec![0x92, 0x84, 0x80, 0x83, 0x91, 0x80],
            PokemonSpecies::Goldeen => vec![0x86, 0x8e, 0x8b, 0x83, 0x84, 0x84, 0x8d],
            PokemonSpecies::Seaking => vec![0x92, 0x84, 0x80, 0x8a, 0x88, 0x8d, 0x86],
            PokemonSpecies::Staryu => vec![0x92, 0x93, 0x80, 0x91, 0x98, 0x94],
            PokemonSpecies::Starmie => vec![0x92, 0x93, 0x80, 0x91, 0x8c, 0x88, 0x84],
            PokemonSpecies::MrMime => vec![0x8c, 0x91, 0xe8, 0x8c, 0x88, 0x8c, 0x84],
            PokemonSpecies::Scyther => vec![0x92, 0x82, 0x98, 0x93, 0x87, 0x84, 0x91],
            PokemonSpecies::Jynx => vec![0x89, 0x98, 0x8d, 0x97],
            PokemonSpecies::Electabuzz => vec![0x84, 0x8b, 0x84, 0x82, 0x93, 0x80, 0x81, 0x94, 0x99, 0x99],
            PokemonSpecies::Magmar => vec![0x8c, 0x80, 0x86, 0x8c, 0x80, 0x91],
            PokemonSpecies::Pinsir => vec![0x8f, 0x88, 0x8d, 0x92, 0x88, 0x91],
            PokemonSpecies::Tauros => vec![0x93, 0x80, 0x94, 0x91, 0x8e, 0x92],
            PokemonSpecies::Magikarp => vec![0x8c, 0x80, 0x86, 0x88, 0x8a, 0x80, 0x91, 0x8f],
            PokemonSpecies::Gyarados => vec![0x86, 0x98, 0x80, 0x91, 0x80, 0x83, 0x8e, 0x92],
            PokemonSpecies::Lapras => vec![0x8b, 0x80, 0x8f, 0x91, 0x80, 0x92],
            PokemonSpecies::Ditto => vec![0x83, 0x88, 0x93, 0x93, 0x8e],
            PokemonSpecies::Eevee => vec![0x84, 0x84, 0x95, 0x84, 0x84],
            PokemonSpecies::Vaporeon => vec![0x95, 0x80, 0x8f, 0x8e, 0x91, 0x84, 0x8e, 0x8d],
            PokemonSpecies::Jolteon => vec![0x89, 0x8e, 0x8b, 0x93, 0x84, 0x8e, 0x8d],
            PokemonSpecies::Flareon => vec![0x85, 0x8b, 0x80, 0x91, 0x84, 0x8e, 0x8d],
            PokemonSpecies::Porygon => vec![0x8f, 0x8e, 0x91, 0x98, 0x86, 0x8e, 0x8d],
            PokemonSpecies::Omanyte => vec![0x8e, 0x8c, 0x80, 0x8d, 0x98, 0x93, 0x84],
            PokemonSpecies::Omastar => vec![0x8e, 0x8c, 0x80, 0x92, 0x93, 0x80, 0x91],
            PokemonSpecies::Kabuto => vec![0x8a, 0x80, 0x81, 0x94, 0x93, 0x8e],
            PokemonSpecies::Kabutops => vec![0x8a, 0x80, 0x81, 0x94, 0x93, 0x8e, 0x8f, 0x92],
            PokemonSpecies::Aerodactyl => vec![0x80, 0x84, 0x91, 0x8e, 0x83, 0x80, 0x82, 0x93, 0x98, 0x8b],
            PokemonSpecies::Snorlax => vec![0x92, 0x8d, 0x8e, 0x91, 0x8b, 0x80, 0x97],
            PokemonSpecies::Articuno => vec![0x80, 0x91, 0x93, 0x88, 0x82, 0x94, 0x8d, 0x8e],
            PokemonSpecies::Zapdos => vec![0x99, 0x80, 0x8f, 0x83, 0x8e, 0x92],
            PokemonSpecies::Moltres => vec![0x8c, 0x8e, 0x8b, 0x93, 0x91, 0x84, 0x92],
            PokemonSpecies::Dratini => vec![0x83, 0x91, 0x80, 0x93, 0x88, 0x8d, 0x88],
            PokemonSpecies::Dragonair => vec![0x83, 0x91, 0x80, 0x86, 0x8e, 0x8d, 0x80, 0x88, 0x91],
            PokemonSpecies::Dragonite => vec![0x83, 0x91, 0x80, 0x86, 0x8e, 0x8d, 0x88, 0x93, 0x84],
            PokemonSpecies::Mewtwo => vec![0x8c, 0x84, 0x96, 0x93, 0x96, 0x8e],
            PokemonSpecies::Mew => vec![0x8c, 0x84, 0x96],
        };
        PokeString::from_vec(bytes)
    }
}

}
