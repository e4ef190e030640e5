pub mod pallete_town;
