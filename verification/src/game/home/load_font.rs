use vstd::prelude::*;

use image::{ImageError, ImageFormat};
use image_gameboy::GameBoy2bpp;

use crate::cpu::Cpu;
use crate::game::home::copy2::pair;
use crate::game::home::pics::frame_written;

verus! {

#[verifier::external_type_specification]
#[verifier::external_body]
pub struct ExImageError(ImageError);

/// What the `image` crate makes of `bytes` read as a PNG and turned into
/// grey levels (`into_luma8`): `None` where it refuses them, else the
/// picture's width and height in pixels and its grey level of each pixel,
/// row by row from the top left.
pub uninterp spec fn png_decoded(bytes: Seq<u8>) -> Option<(u32, u32, Seq<u8>)>;

/// The Game Boy shade of a grey level: 3 (darkest) for 0 to 63 down to 0
/// (lightest) for 192 to 255.
pub open spec fn shade(grey: u8) -> u8 {
    (3 - grey / 64) as u8
}

/// Bit `plane` (0 for the low byte, 1 for the high byte) of the shade of the
/// pixel in column `col` of a tile row, placed at the row byte's bit
/// `7 - col`.
pub open spec fn plane_bit(grey: u8, plane: int, col: int) -> int {
    if (shade(grey) as int / if plane == 0 { 1int } else { 2int }) % 2 == 1 {
        if col == 0 {
            128int
        } else if col == 1 {
            64int
        } else if col == 2 {
            32int
        } else if col == 3 {
            16int
        } else if col == 4 {
            8int
        } else if col == 5 {
            4int
        } else if col == 6 {
            2int
        } else {
            1int
        }
    } else {
        0int
    }
}

/// Byte `k` of the Game Boy 2bpp tiles of a `w` × `h` picture with grey
/// levels `pixels`: tiles of 8 × 8 pixels left to right, then top to bottom;
/// in a tile, rows from the top, each two bytes, the low bits of the eight
/// pixels' shades and then the high bits, the leftmost pixel in the top bit.
pub open spec fn tile_byte(w: int, pixels: Seq<u8>, k: int) -> u8 {
    let tile = k / 16;
    let row = (k % 16) / 2;
    let plane = k % 2;
    let tx = tile % (w / 8);
    let ty = tile / (w / 8);
    let start = (ty * 8 + row) * w + tx * 8;
    (plane_bit(pixels[start], plane, 0) + plane_bit(pixels[start + 1], plane, 1) + plane_bit(
        pixels[start + 2],
        plane,
        2,
    ) + plane_bit(pixels[start + 3], plane, 3) + plane_bit(pixels[start + 4], plane, 4) + plane_bit(
        pixels[start + 5],
        plane,
        5,
    ) + plane_bit(pixels[start + 6], plane, 6) + plane_bit(pixels[start + 7], plane, 7)) as u8
}

/// The Game Boy 2bpp tiles of a `w` × `h` picture with grey levels
/// `pixels`, as `GameBoy2bpp::into_gb2bpp` makes them.
pub open spec fn gb_2bpp(w: u32, h: u32, pixels: Seq<u8>) -> Seq<u8> {
    Seq::new(tile_bytes(w, h) as nat, |k: int| tile_byte(w as int, pixels, k))
}

/// Whether the PNG in `bytes` decodes to a picture made of whole 8 × 8
/// tiles, the only pictures that can be turned into Game Boy tiles.
pub open spec fn png_is_tiled(bytes: Seq<u8>) -> bool {
    match png_decoded(bytes) {
        Some((w, h, _)) => w % 8 == 0 && h % 8 == 0,
        None => false,
    }
}

/// The Game Boy tiles of the PNG in `bytes`.
pub open spec fn png_tiles(bytes: Seq<u8>) -> Seq<u8> {
    match png_decoded(bytes) {
        Some((w, h, pixels)) => gb_2bpp(w, h, pixels),
        None => Seq::empty(),
    }
}

/// The number of tile bytes of a `w` × `h` picture: two bytes for each row
/// of eight pixels.
pub open spec fn tile_bytes(w: u32, h: u32) -> int {
    w as int * h as int / 4
}

/// The number of tile bytes of the PNG in `bytes`.
pub open spec fn png_tile_bytes(bytes: Seq<u8>) -> int {
    match png_decoded(bytes) {
        Some((w, h, _)) => tile_bytes(w, h),
        None => 0,
    }
}

/// Decodes the PNG in `bytes` with `image::load_from_memory_with_format` and
/// gives its width and height (`width`, `height` of the decoded picture), or
/// `None` where the decoder refuses the bytes. The decoder returns an error
/// for what it cannot read and does not panic; the picture itself stays
/// unsaid here.
#[verifier::external_body]
fn png_dimensions(bytes: &[u8]) -> (res: Option<(u32, u32)>)
    ensures
        res == (match png_decoded(bytes@) {
            Some((w, h, _)) => Some((w, h)),
            None => None,
        }),
{
    match image::load_from_memory_with_format(bytes, ImageFormat::Png) {
        Ok(img) => Some((img.width(), img.height())),
        Err(_) => None,
    }
}

/// Decodes a PNG with `image::load_from_memory_with_format` and turns the
/// picture into Game Boy 2bpp tiles with `GameBoy2bpp::into_gb2bpp`, which
/// takes the grey levels (`into_luma8`) and packs each 8 × 8 tile's rows as
/// `gb_2bpp` states: an error exactly where the decoder refuses the bytes,
/// else those tiles. The grey levels themselves are named, not stated. `into_gb2bpp` panics on
/// a picture that is not made of whole tiles; `requires` leaves those out.
#[verifier::external_body]
pub fn png_to_2bpp(bytes: &[u8]) -> (res: Result<Vec<u8>, ImageError>)
    requires
        png_decoded(bytes@) is Some ==> png_is_tiled(bytes@),
    ensures
        res is Ok <==> png_decoded(bytes@) is Some,
        res matches Ok(data) ==> data@ == png_tiles(bytes@),
{
    Ok(image::load_from_memory_with_format(bytes, ImageFormat::Png)?.into_gb2bpp())
}

/// The tile pattern addresses of the first and second halves of video RAM's
/// tile blocks, and the size of a tile.
pub const V_CHARS_1: u16 = 0x8800;

pub const V_CHARS_2: u16 = 0x9000;

pub const LEN_2BPP_TILE: u16 = 16;

/// Where the HP bar and status tiles go, and where the experience bar tiles go.
pub const HP_BAR_AND_STATUS_TILES: u16 = 0x9620;

pub const EXP_BAR_TILES: u16 = 0x8c00;

/// Whether the PNG in `bytes` decodes to whole tiles that fit in the address
/// space from `target` on.
pub open spec fn png_fits(bytes: Seq<u8>, target: u16) -> bool {
    &&& png_is_tiled(bytes)
    &&& target + png_tile_bytes(bytes) <= 0x10000
}

/// The address space with the HP bar and status tiles and then the
/// experience bar tiles written in.
pub open spec fn battle_tiles_written(bus: Seq<u8>, hp_bar_and_status: Seq<u8>, exp_bar: Seq<u8>) -> Seq<u8> {
    frame_written(
        frame_written(bus, HP_BAR_AND_STATUS_TILES as int, hp_bar_and_status),
        EXP_BAR_TILES as int,
        exp_bar,
    )
}

/// Writes `data` into the address space from `target` on.
fn write_tiles(cpu: &mut Cpu, target: u16, data: &Vec<u8>)
    requires
        target + data@.len() <= 0x10000,
    ensures
        final(cpu).bus() == frame_written(old(cpu).bus(), target as int, data@),
        final(cpu).only_memory_changed(old(cpu)),
{
    let ghost c0 = *cpu;
    proof {
        c0.lemma_bus_len();
        assert(cpu.bus() =~= frame_written(c0.bus(), target as int, data@.take(0)));
    }
    let mut i: usize = 0;
    while i < data.len()
        invariant
            i <= data@.len(),
            target + data@.len() <= 0x10000,
            cpu.bus() == frame_written(c0.bus(), target as int, data@.take(i as int)),
            cpu.only_memory_changed(&c0),
            c0.bus().len() == 0x10000,
        decreases data@.len() - i,
    {
        cpu.write_byte(target + i as u16, data[i]);
        i = i + 1;
        assert(cpu.bus() =~= frame_written(c0.bus(), target as int, data@.take(i as int)));
    }
    assert(data@.take(data@.len() as int) =~= data@);
}

/// Loads the HP bar and status tiles, decoded from the PNG
/// `hp_bar_and_status_png`, into video RAM from tile 0x62 of the second tile
/// block on, and the experience bar tiles, decoded from `exp_bar_png`, from
/// tile 0x40 of the first; then returns.
pub fn load_hp_bar_and_status_tile_patterns(cpu: &mut Cpu, hp_bar_and_status_png: &[u8], exp_bar_png: &[u8])
    requires
        png_fits(hp_bar_and_status_png@, HP_BAR_AND_STATUS_TILES),
        png_fits(exp_bar_png@, EXP_BAR_TILES),
    ensures
        ({
            let bus = battle_tiles_written(
                old(cpu).bus(),
                png_tiles(hp_bar_and_status_png@),
                png_tiles(exp_bar_png@),
            );
            let sp = old(cpu).sp;
            &&& final(cpu).bus() == bus
            &&& *final(cpu) == (Cpu {
                pc: pair(bus[(sp + 1) % 0x10000], bus[sp as int]) as u16,
                sp: ((sp + 2) % 0x10000) as u16,
                wram: final(cpu).wram,
                mem: final(cpu).mem,
                ..*old(cpu)
            })
        }),
{
    let data = match png_to_2bpp(hp_bar_and_status_png) {
        Ok(data) => data,
        Err(_) => {
            return;
        },
    };
    write_tiles(cpu, V_CHARS_2 + LEN_2BPP_TILE * 0x62, &data);

    let data = match png_to_2bpp(exp_bar_png) {
        Ok(data) => data,
        Err(_) => {
            return;
        },
    };
    write_tiles(cpu, V_CHARS_1 + LEN_2BPP_TILE * 0x40, &data);

    cpu.pc = cpu.stack_pop();
}

/// Decodes both PNGs first and loads their tiles as
/// `load_hp_bar_and_status_tile_patterns` does where both decode to whole
/// tiles that fit in the address space; returns whether it did. Where they
/// do not, nothing changes.
pub fn try_load_hp_bar_and_status_tile_patterns(
    cpu: &mut Cpu,
    hp_bar_and_status_png: &[u8],
    exp_bar_png: &[u8],
) -> (loaded: bool)
    ensures
        loaded == (png_fits(hp_bar_and_status_png@, HP_BAR_AND_STATUS_TILES) && png_fits(
            exp_bar_png@,
            EXP_BAR_TILES,
        )),
        loaded ==> ({
            let bus = battle_tiles_written(
                old(cpu).bus(),
                png_tiles(hp_bar_and_status_png@),
                png_tiles(exp_bar_png@),
            );
            let sp = old(cpu).sp;
            &&& final(cpu).bus() == bus
            &&& *final(cpu) == (Cpu {
                pc: pair(bus[(sp + 1) % 0x10000], bus[sp as int]) as u16,
                sp: ((sp + 2) % 0x10000) as u16,
                wram: final(cpu).wram,
                mem: final(cpu).mem,
                ..*old(cpu)
            })
        }),
        !loaded ==> *final(cpu) == *old(cpu),
{
    if fits(hp_bar_and_status_png, HP_BAR_AND_STATUS_TILES) && fits(exp_bar_png, EXP_BAR_TILES) {
        load_hp_bar_and_status_tile_patterns(cpu, hp_bar_and_status_png, exp_bar_png);
        true
    } else {
        false
    }
}

/// Whether the PNG in `bytes` decodes to whole tiles that fit from `target` on.
fn fits(bytes: &[u8], target: u16) -> (res: bool)
    ensures
        res == png_fits(bytes@, target),
{
    match png_dimensions(bytes) {
        Some((w, h)) => {
            if w % 8 != 0 || h % 8 != 0 {
                return false;
            }
            let room = 0x10000u64 - target as u64;
            // Each 8 × 8 tile takes 16 bytes.
            let tiles_w = (w / 8) as u64;
            let tiles_h = (h / 8) as u64;
            proof {
                assert(w as int * h as int / 4 == tiles_w * tiles_h * 16) by (nonlinear_arith)
                    requires
                        w % 8 == 0,
                        h % 8 == 0,
                        tiles_w == w / 8,
                        tiles_h == h / 8,
                ;
            }
            if tiles_w == 0 || tiles_h == 0 {
                assert(tiles_w * tiles_h == 0) by (nonlinear_arith)
                    requires
                        tiles_w == 0 || tiles_h == 0,
                ;
                return true;
            }
            if tiles_w > room || tiles_h > room {
                assert(tiles_w * tiles_h * 16 > room) by (nonlinear_arith)
                    requires
                        tiles_w >= 1,
                        tiles_h >= 1,
                        tiles_w > room || tiles_h > room,
                ;
                return false;
            }
            assert(tiles_w * tiles_h <= 0x1_0000_0000) by (nonlinear_arith)
                requires
                    tiles_w <= room,
                    tiles_h <= room,
                    room <= 0x10000,
            ;
            tiles_w * tiles_h * 16 <= room
        },
        None => false,
    }
}

} // verus!
