//! Campaign, roster, content-validation and preference rules of Carriage Run,
//! an escort strategy game: the integer and text logic that decides what the
//! player may buy, hire, equip and unlock, with its contracts proved.

pub mod text;
pub mod guards;
pub mod kinds;
pub mod settings;
pub mod records;
pub mod save;
pub mod keyed;
pub mod campaign;
pub mod ids;
pub mod loadout;
pub mod equipment;
pub mod missions;
pub mod roster;
pub mod session;
pub mod validation;
pub mod chassis;
pub mod journey;
pub mod localization;
pub mod order;
pub mod flow;
