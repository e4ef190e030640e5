use vstd::prelude::*;

use crate::cpu::{bus_of, lemma_bus_wram_update, Cpu, WRAM_BEGIN};
use crate::game::constants::{A_BUTTON, BATTLE_TYPE_PIKACHU, B_BUTTON};
use crate::game::home::copy2::pair;
use crate::game::ram::wram::{
    W_BATTLE_TYPE, W_CUR_ENEMY_LVL, W_CUR_OPPONENT, W_JOY_IGNORE, W_LIST_SCROLL_OFFSET,
    W_PALLET_TOWN_CUR_SCRIPT,
};
use crate::save_state::species::species_index;

verus! {

/// The level of the player's own starter in the battle that starts the game.
pub const STARTER_BATTLE_LEVEL: u8 = 5;

/// The Pallet Town script that comes after it.
pub const PALLET_TOWN_NEXT_SCRIPT: u8 = 5;

/// The address space once the starter battle is set up: only A and B count
/// on the joypad, the list scroll is reset, the battle is the starter battle
/// against the player's own starter at level 5, and the next script is due.
pub open spec fn starter_battle_set(bus: Seq<u8>, starter_index: u8) -> Seq<u8> {
    bus.update(W_JOY_IGNORE as int, !(A_BUTTON | B_BUTTON)).update(W_LIST_SCROLL_OFFSET as int, 0).update(
        W_BATTLE_TYPE as int,
        BATTLE_TYPE_PIKACHU,
    ).update(W_CUR_OPPONENT as int, starter_index).update(W_CUR_ENEMY_LVL as int, STARTER_BATTLE_LEVEL).update(
        W_PALLET_TOWN_CUR_SCRIPT as int,
        PALLET_TOWN_NEXT_SCRIPT,
    )
}

/// Starts the battle against the player's chosen starter, then returns.
pub fn pallet_town_script4(cpu: &mut Cpu)
    requires
        old(cpu).cycles + 16 <= u64::MAX,
    ensures
        ({
            let bus = starter_battle_set(old(cpu).bus(), species_index(old(cpu).starter));
            let sp = old(cpu).sp;
            &&& final(cpu).bus() == bus
            &&& *final(cpu) == (Cpu {
                pc: pair(bus[(sp + 1) % 0x10000], bus[sp as int]) as u16,
                sp: ((sp + 2) % 0x10000) as u16,
                cycles: (old(cpu).cycles + 16) as u64,
                wram: final(cpu).wram,
                mem: final(cpu).mem,
                ..*old(cpu)
            })
        }),
{
    let starter_index = cpu.starter.into_index();

    // start the pikachu battle
    cpu.write_byte(W_JOY_IGNORE, !(A_BUTTON | B_BUTTON));
    cpu.write_byte(W_LIST_SCROLL_OFFSET, 0);
    cpu.write_byte(W_BATTLE_TYPE, BATTLE_TYPE_PIKACHU);
    let ghost before = *cpu;
    cpu.borrow_wram_mut().set_cur_opponent(starter_index);
    proof {
        lemma_bus_wram_update(before.wram, cpu.wram, cpu.mem, (W_CUR_OPPONENT - WRAM_BEGIN) as int, starter_index);
    }
    cpu.write_byte(W_CUR_ENEMY_LVL, STARTER_BATTLE_LEVEL);

    // trigger the next script
    cpu.write_byte(W_PALLET_TOWN_CUR_SCRIPT, PALLET_TOWN_NEXT_SCRIPT);

    // ret
    cpu.pc = cpu.stack_pop();
    cpu.cycle(16);
}

} // verus!
