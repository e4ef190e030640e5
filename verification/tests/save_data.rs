use rustic_yellow::save_state::party::{BaseStats, PartyPokemon, PartyViewMut};
use rustic_yellow::save_state::pc_box::{BoxView, BoxViewMut, BoxedPokemon};
use rustic_yellow::save_state::poke_string::PokeString;
use rustic_yellow::save_state::species::PokemonSpecies;
use rustic_yellow::save_state::{count_ones, BoxId, DeterminantValues, SaveState};
use rustic_yellow::saves::newest_first_order;

fn boxed(species: PokemonSpecies, level: u8, nickname: Option<PokeString>) -> BoxedPokemon {
    BoxedPokemon {
        species,
        hp: 20,
        level,
        status: 0,
        type1: 0,
        type2: 0,
        catch_rate: 45,
        moves: [33, 45, 0, 0],
        ot_id: 1234,
        exp: 135,
        hp_exp: 1,
        attack_exp: 2,
        defense_exp: 3,
        speed_exp: 4,
        special_exp: 5,
        dvs: DeterminantValues::from_bytes([0xab, 0xcd]),
        pp: [35, 40, 0, 0],
        ot_name: PokeString::from_bytes(&[0x80, 0x81, 0x50], 11),
        nickname,
    }
}

#[test]
fn box_push_then_get_gives_back_the_pokemon() {
    let mut save = SaveState::new();
    let first = boxed(PokemonSpecies::Bulbasaur, 5, None);
    let second = boxed(
        PokemonSpecies::Pidgey,
        7,
        Some(PokeString::from_bytes(&[0x8f, 0x88, 0x50], 11)),
    );
    {
        let mut view = save.box_mut(BoxId::Box3);
        view.clear();
        assert_eq!(view.len(), 0);
        view.push(first.clone());
        view.push(second.clone());
        assert_eq!(view.len(), 2);
        assert!(!view.full());
        assert_eq!(view.get(0), Some(first.clone()));
        assert_eq!(view.get(1), Some(second.clone()));
        assert_eq!(view.get(2), None);
    }
    let view = save.pc_box(BoxId::Box3);
    assert_eq!(view.iter(), vec![first.clone(), second.clone()]);
    assert_eq!(save.byte(BoxId::Box3.sram_offset()), 2);
    assert_eq!(save.byte(BoxId::Box3.sram_offset() + 3), 0xff);
}

#[test]
fn box_set_replaces_one_slot() {
    let mut save = SaveState::new();
    let mut view = save.box_mut(BoxId::Current);
    view.clear();
    view.push(boxed(PokemonSpecies::Rattata, 3, None));
    view.push(boxed(PokemonSpecies::Spearow, 4, None));
    let replacement = boxed(PokemonSpecies::Mew, 70, None);
    view.set(0, replacement.clone());
    assert_eq!(view.get(0), Some(replacement));
    assert_eq!(view.get(1), Some(boxed(PokemonSpecies::Spearow, 4, None)));
}

#[test]
fn box_swap_remove_moves_the_last_into_the_gap() {
    let mut save = SaveState::new();
    let mut view = save.box_mut(BoxId::Box1);
    view.clear();
    let a = boxed(PokemonSpecies::Caterpie, 3, None);
    let b = boxed(PokemonSpecies::Weedle, 3, None);
    let c = boxed(PokemonSpecies::Pikachu, 5, None);
    view.push(a.clone());
    view.push(b.clone());
    view.push(c.clone());
    assert_eq!(view.swap_remove(0), a);
    assert_eq!(view.len(), 2);
    assert_eq!(view.get(0), Some(c));
    assert_eq!(view.get(1), Some(b));
}

#[test]
fn box_fills_up_at_twenty() {
    let mut data = vec![0u8; 1122];
    let mut view = BoxViewMut::new(&mut data);
    view.clear();
    for level in 0..20u8 {
        assert!(!view.full());
        view.push(boxed(PokemonSpecies::Magikarp, level + 1, None));
    }
    assert!(view.full());
    assert_eq!(BoxView::new(&data).len(), 20);
}

#[test]
fn party_push_get_remove() {
    let base = BaseStats { hp: 45, attack: 49, defense: 49, speed: 45, special: 65, growth_rate: 3 };
    let member = |level| PartyPokemon::from_boxed(boxed(PokemonSpecies::Bulbasaur, level, None), base);
    let mut data = vec![0u8; 404];
    data[1] = 0xff;
    let mut party = PartyViewMut::new(&mut data);
    party.push(member(5));
    party.push(member(6));
    party.push(member(7));
    assert_eq!(party.len(), 3);
    assert_eq!(party.get(1), Some(member(6)));
    assert_eq!(party.remove(0), member(5));
    assert_eq!(party.len(), 2);
    assert_eq!(party.get(0), Some(member(6)));
    assert_eq!(party.get(1), Some(member(7)));
    party.set(1, member(9));
    assert_eq!(party.get(1), Some(member(9)));
}

#[test]
fn save_counts() {
    let mut save = SaveState::new();
    assert_eq!(save.count_badges(), 0);
    assert_eq!(save.count_owned_mons(), 0);
    assert_eq!(count_ones(0b1011_0001), 4);
    save.set_byte(0x2598, 0x80);
    save.set_byte(0x2599, 0x50);
    assert_eq!(save.player_name().as_bytes(), &[0x80]);
}

#[test]
fn determinant_values() {
    let dvs = DeterminantValues::from_bytes([(7 << 4) | 13, (10 << 4) | 2]);
    assert_eq!(dvs.attack(), 7);
    assert_eq!(dvs.defense(), 13);
    assert_eq!(dvs.speed(), 10);
    assert_eq!(dvs.special(), 2);
    assert_eq!(dvs.hp(), 0b1100);
}

#[test]
fn poke_strings_stop_at_the_terminator() {
    let s = PokeString::from_bytes(&[0x80, 0x81, 0x50, 0x82], 11);
    assert_eq!(s.len(), 2);
    assert_eq!(s.as_bytes(), &[0x80, 0x81]);
    let capped = PokeString::from_bytes(&[0x80, 0x81, 0x82], 2);
    assert_eq!(capped.as_bytes(), &[0x80, 0x81]);
    let field = s.name_field_bytes();
    assert_eq!(field.len(), 11);
    assert_eq!(&field[..3], &[0x80, 0x81, 0x50]);
    assert!(s.same_text(&PokeString::from_bytes(&[0x80, 0x81], 11)));
}

#[test]
fn box_offsets() {
    assert_eq!(BoxId::Current.sram_offset(), 0x30c0);
    assert_eq!(BoxId::Box7.sram_offset(), 0x6000);
    assert_eq!(BoxId::Box12.sram_offset(), 0x75ea);
}

#[test]
fn save_files_newest_first() {
    assert_eq!(newest_first_order(&[]), Vec::<usize>::new());
    assert_eq!(newest_first_order(&[5, 9, 1]), vec![1, 0, 2]);
    // Files changed at the same time keep the order they were found in.
    assert_eq!(newest_first_order(&[3, 7, 3, 7, 0]), vec![1, 3, 0, 2, 4]);
}
