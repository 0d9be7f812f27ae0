pub mod text;
pub mod intents;
pub mod programs;
pub mod civic;
pub mod society;
pub mod rng;
pub mod logbook;
pub mod population;
pub mod predators;
pub mod clock;
pub mod map;
pub mod labels;
pub mod mana;
pub mod mind;
pub mod inspect;
pub mod director;
pub mod factions;
pub mod spawning;
pub mod records;
pub mod life;
pub mod territory;
