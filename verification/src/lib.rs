//! Character sheets for tabletop role-playing games: dice, attribute scores
//! and the text of a sheet, with contracts checked by Verus.

pub mod text;
pub mod dice;
pub mod coc6;
pub mod rule;
