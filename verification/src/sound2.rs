use vstd::prelude::*;

verus! {
/// The game's music tracks.
#[derive(Debug, Clone, Copy, PartialEq, Eq, Structural)]
pub enum Music {
    PalletTown,
    Pokecenter,
    Gym,
    Cities1,
    Cities2,
    Celadon,
    Cinnabar,
    Vermilion,
    Lavender,
    SSAnne,
    MeetProfOak,
    MeetRival,
    MuseumGuy,
    SafariZone,
    PkmnHealed,
    Routes1,
    Routes2,
    Routes3,
    Routes4,
    IndigoPlateau,
    GymLeaderBattle,
    TrainerBattle,
    WildBattle,
    FinalBattle,
    DefeatedTrainer,
    DefeatedWildMon,
    DefeatedGymLeader,
    TitleScreen,
    Credits,
    HallOfFame,
    OaksLab,
    JigglypuffSong,
    BikeRiding,
    Surfing,
    GameCorner,
    YellowIntro,
    Dungeon1,
    Dungeon2,
    Dungeon3,
    CinnabarMansion,
    PokemonTower,
    SilphCo,
    MeetEvilTrainer,
    MeetFemaleTrainer,
    MeetMaleTrainer,
    SurfingPikachu,
    MeetJessieJames,
    YellowUnusedSong,
    GBPrinter,
}

/// The file, in the music folder, that holds a track's recording.
pub open spec fn music_file(m: Music) -> Seq<char> {
    match m {
        Music::PalletTown => "03 - Pallet Town.flac"@,
        Music::Pokecenter => "17 - Pokémon Center.flac"@,
        Music::Gym => "23 - Pokémon Gym.flac"@,
        Music::Cities1 => "16 - Pewter City.flac"@,
        Music::Cities2 => "30 - Cerulean City.flac"@,
        Music::Celadon => "41 - Celadon City.flac"@,
        Music::Cinnabar => "47 - Cinnabar Island.flac"@,
        Music::Vermilion => "35 - Vermilion City.flac"@,
        Music::Lavender => "39 - Lavender Town.flac"@,
        Music::SSAnne => "36 - S.S. Anne.flac"@,
        Music::MeetProfOak => "04 - Professor Oak.flac"@,
        Music::MeetRival => "07 - Rival.flac"@,
        Music::MuseumGuy => "21 - Hurry Along.flac"@,
        Music::SafariZone => "32 - Evolution.flac"@,
        Music::PkmnHealed => "18 - Pokémon Healed.flac"@,
        Music::Routes1 => "11 - Route 1.flac"@,
        Music::Routes2 => "31 - Route 24.flac"@,
        Music::Routes3 => "27 - Route 3.flac"@,
        Music::Routes4 => "38 - Route 11.flac"@,
        Music::IndigoPlateau => "49 - Victory Road.flac"@,
        Music::GymLeaderBattle => "25 - Battle! (Gym Leader).flac"@,
        Music::TrainerBattle => "08 - Battle! (Trainer).flac"@,
        Music::WildBattle => "13 - Battle! (Wild Pokémon).flac"@,
        Music::FinalBattle => "51 Final Battle! (Rival).flac"@,
        Music::DefeatedTrainer => "50 - Final Battle! (Rival).flac"@,
        Music::DefeatedWildMon => "14 - Victory! (Wild Pokémon).flac"@,
        Music::DefeatedGymLeader => "26 - Victory! (Gym Leader).flac"@,
        Music::TitleScreen => "02 - Title Screen (Yellow).flac"@,
        Music::Credits => "52 - Ending.flac"@,
        Music::HallOfFame => "51 - Hall of Fame.flac"@,
        Music::OaksLab => "05 - Oak Pokémon Lab.flac"@,
        Music::JigglypuffSong => "22 - Jigglypuff's Song.flac"@,
        Music::BikeRiding => "37 - Cycling.flac"@,
        Music::Surfing => "46 - Surf.flac"@,
        Music::GameCorner => "42 - Game Corner.flac"@,
        Music::YellowIntro => "01 - Opening Movie (Yellow).flac"@,
        Music::Dungeon1 => "43 - Rocket Hideout.flac"@,
        Music::Dungeon2 => "19 - Viridian Forest.flac"@,
        Music::Dungeon3 => "29 - Mt. Moon.flac"@,
        Music::CinnabarMansion => "48 - Pokémon Mansion.flac"@,
        Music::PokemonTower => "40 - Pokémon Tower.flac"@,
        Music::SilphCo => "45 - Silph Co..flac"@,
        Music::MeetEvilTrainer => "44 - Trainers' Eyes Meet (Team Rocket).flac"@,
        Music::MeetFemaleTrainer => "28 - Trainers' Eyes Meet (Girl).flac"@,
        Music::MeetMaleTrainer => "20 - Trainers' Eyes Meet (Boy).flac"@,
        Music::SurfingPikachu => "04 - Pikachu's Beach.flac"@,
        Music::MeetJessieJames => "03 - Jessie & James.flac"@,
        Music::YellowUnusedSong => "05 - Giovanni [Hidden Track].flac"@,
        Music::GBPrinter => "05 - Giovanni [Hidden Track].flac"@,
    }
}

impl Music {
    /// The file, in the music folder, that holds the track's recording.
    pub fn file_name(&self) -> (res: &'static str)
        ensures
            res@ == music_file(*self),
    {
        match self {
            Music::PalletTown => "03 - Pallet Town.flac",
            Music::Pokecenter => "17 - Pokémon Center.flac",
            Music::Gym => "23 - Pokémon Gym.flac",
            Music::Cities1 => "16 - Pewter City.flac",
            Music::Cities2 => "30 - Cerulean City.flac",
            Music::Celadon => "41 - Celadon City.flac",
            Music::Cinnabar => "47 - Cinnabar Island.flac",
            Music::Vermilion => "35 - Vermilion City.flac",
            Music::Lavender => "39 - Lavender Town.flac",
            Music::SSAnne => "36 - S.S. Anne.flac",
            Music::MeetProfOak => "04 - Professor Oak.flac",
            Music::MeetRival => "07 - Rival.flac",
            Music::MuseumGuy => "21 - Hurry Along.flac",
            Music::SafariZone => "32 - Evolution.flac",
            Music::PkmnHealed => "18 - Pokémon Healed.flac",
            Music::Routes1 => "11 - Route 1.flac",
            Music::Routes2 => "31 - Route 24.flac",
            Music::Routes3 => "27 - Route 3.flac",
            Music::Routes4 => "38 - Route 11.flac",
            Music::IndigoPlateau => "49 - Victory Road.flac",
            Music::GymLeaderBattle => "25 - Battle! (Gym Leader).flac",
            Music::TrainerBattle => "08 - Battle! (Trainer).flac",
            Music::WildBattle => "13 - Battle! (Wild Pokémon).flac",
            Music::FinalBattle => "51 Final Battle! (Rival).flac",
            Music::DefeatedTrainer => "50 - Final Battle! (Rival).flac",
            Music::DefeatedWildMon => "14 - Victory! (Wild Pokémon).flac",
            Music::DefeatedGymLeader => "26 - Victory! (Gym Leader).flac",
            Music::TitleScreen => "02 - Title Screen (Yellow).flac",
            Music::Credits => "52 - Ending.flac",
            Music::HallOfFame => "51 - Hall of Fame.flac",
            Music::OaksLab => "05 - Oak Pokémon Lab.flac",
            Music::JigglypuffSong => "22 - Jigglypuff's Song.flac",
            Music::BikeRiding => "37 - Cycling.flac",
            Music::Surfing => "46 - Surf.flac",
            Music::GameCorner => "42 - Game Corner.flac",
            Music::YellowIntro => "01 - Opening Movie (Yellow).flac",
            Music::Dungeon1 => "43 - Rocket Hideout.flac",
            Music::Dungeon2 => "19 - Viridian Forest.flac",
            Music::Dungeon3 => "29 - Mt. Moon.flac",
            Music::CinnabarMansion => "48 - Pokémon Mansion.flac",
            Music::PokemonTower => "40 - Pokémon Tower.flac",
            Music::SilphCo => "45 - Silph Co..flac",
            Music::MeetEvilTrainer => "44 - Trainers' Eyes Meet (Team Rocket).flac",
            Music::MeetFemaleTrainer => "28 - Trainers' Eyes Meet (Girl).flac",
            Music::MeetMaleTrainer => "20 - Trainers' Eyes Meet (Boy).flac",
            Music::SurfingPikachu => "04 - Pikachu's Beach.flac",
            Music::MeetJessieJames => "03 - Jessie & James.flac",
            Music::YellowUnusedSong => "05 - Giovanni [Hidden Track].flac",
            Music::GBPrinter => "05 - Giovanni [Hidden Track].flac",
        }
    }
}

/// Where the ROM keeps the table of Pikachu's cries: three bytes each, the
/// bank and then the address of the cry.
pub const PIKACHU_CRY_TABLE: usize = 0x0f008e;

/// The highest cry number the table holds.
pub const LAST_PIKACHU_CRY: u8 = 41;

/// The ROM offset of cry `id`'s entry in the table.
pub open spec fn cry_entry(id: u8) -> int {
    PIKACHU_CRY_TABLE + id * 3
}

/// The ROM offset of cry `id`'s data: its length in two little-endian bytes,
/// then its samples.
pub open spec fn cry_offset(rom: Seq<u8>, id: u8) -> int {
    let e = cry_entry(id);
    rom[e] * 0x4000 + (rom[e + 1] as int + rom[e + 2] * 256) % 0x4000
}

/// The number of sample bytes of cry `id`.
pub open spec fn cry_len(rom: Seq<u8>, id: u8) -> int {
    let o = cry_offset(rom, id);
    rom[o] as int + rom[o + 1] * 256
}

/// Whether cry `id` and its samples lie within `rom`.
pub open spec fn cry_in_rom(rom: Seq<u8>, id: u8) -> bool {
    &&& id <= LAST_PIKACHU_CRY
    &&& cry_entry(id) + 2 < rom.len()
    &&& cry_offset(rom, id) + 2 + cry_len(rom, id) <= rom.len()
}

/// The ROM range, start and end, that holds the samples of Pikachu's cry
/// `id`: one bit per sample, most significant bit first.
pub fn pikachu_cry_range(rom: &[u8], id: u8) -> (res: (usize, usize))
    requires
        cry_in_rom(rom@, id),
    ensures
        res.0 == cry_offset(rom@, id) + 2,
        res.1 == res.0 + cry_len(rom@, id),
{
    let offset = PIKACHU_CRY_TABLE + (id as usize) * 3;

    let bank = rom[offset] as usize;
    let addr = (rom[offset + 1] as usize) + (rom[offset + 2] as usize) * 256;

    let offset = bank * 0x4000 + addr % 0x4000;
    let length = (rom[offset] as usize) + (rom[offset + 1] as usize) * 256;

    let start = offset + 2;
    let end = start + length;
    (start, end)
}

/// Whether bit `pos` of the bit stream `data` (most significant bit first in
/// each byte) is set.
pub open spec fn stream_bit(data: Seq<u8>, pos: int) -> bool {
    (data[pos / 8] >> ((7 - pos % 8) as u8)) & 1 == 1
}

/// Sample `pos` of a cry's one-bit samples: `None` past the end, else
/// whether the bit is set.
pub fn pikachu_cry_sample(data: &[u8], pos: usize) -> (res: Option<bool>)
    ensures
        pos / 8 >= data@.len() ==> res is None,
        pos / 8 < data@.len() ==> res == Some(stream_bit(data@, pos as int)),
{
    let byte_pos = pos / 8;

    if byte_pos >= data.len() {
        return None;
    }

    let byte = data[byte_pos];
    let bit_pos = (7 - (pos % 8)) as u8;
    let bit = (byte >> bit_pos) & 0x1;

    Some(bit == 1)
}

} // verus!
