pub mod copy;
pub mod delay;
pub mod palettes;
pub mod predef;
pub mod print_text;
pub mod vblank;
pub mod clear_sprites;
pub mod copy2;
pub mod pics;
pub mod load_font;
pub mod text;
pub mod overworld;
pub mod npc_movement;
