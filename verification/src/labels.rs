//! The names under which the simulation's kinds are shown.
use vstd::prelude::*;

verus! {

/// The temperaments an NPC can have.
#[derive(Clone, Copy, Debug, PartialEq, Eq, Structural)]
pub enum PersonalityType {
    Caregiver,
    Builder,
    Raider,
    Mystic,
    Hedonist,
    Sovereign,
    Scholar,
}

/// The name under which a value of `PersonalityType` is shown.
pub open spec fn personality_label(k: PersonalityType) -> Seq<char> {
    match k {
        PersonalityType::Caregiver => "Caregiver"@,
        PersonalityType::Builder => "Builder"@,
        PersonalityType::Raider => "Raider"@,
        PersonalityType::Mystic => "Mystic"@,
        PersonalityType::Hedonist => "Hedonist"@,
        PersonalityType::Sovereign => "Sovereign"@,
        PersonalityType::Scholar => "Scholar"@,
    }
}

impl PersonalityType {
    /// The name under which this value is shown.
    pub fn label(self) -> (r: &'static str)
        ensures
            r@ == personality_label(self),
    {
        match self {
            PersonalityType::Caregiver => "Caregiver",
            PersonalityType::Builder => "Builder",
            PersonalityType::Raider => "Raider",
            PersonalityType::Mystic => "Mystic",
            PersonalityType::Hedonist => "Hedonist",
            PersonalityType::Sovereign => "Sovereign",
            PersonalityType::Scholar => "Scholar",
        }
    }
}

/// An NPC's sex.
#[derive(Clone, Copy, Debug, PartialEq, Eq, Structural)]
pub enum NpcSex {
    Female,
    Male,
}

/// The name under which a value of `NpcSex` is shown.
pub open spec fn sex_label(k: NpcSex) -> Seq<char> {
    match k {
        NpcSex::Female => "Female"@,
        NpcSex::Male => "Male"@,
    }
}

impl NpcSex {
    /// The name under which this value is shown.
    pub fn label(self) -> (r: &'static str)
        ensures
            r@ == sex_label(self),
    {
        match self {
            NpcSex::Female => "Female",
            NpcSex::Male => "Male",
        }
    }
}

/// An NPC's gender.
#[derive(Clone, Copy, Debug, PartialEq, Eq, Structural)]
pub enum NpcGender {
    Woman,
    Man,
    Nonbinary,
}

/// The name under which a value of `NpcGender` is shown.
pub open spec fn gender_label(k: NpcGender) -> Seq<char> {
    match k {
        NpcGender::Woman => "Woman"@,
        NpcGender::Man => "Man"@,
        NpcGender::Nonbinary => "Nonbinary"@,
    }
}

impl NpcGender {
    /// The name under which this value is shown.
    pub fn label(self) -> (r: &'static str)
        ensures
            r@ == gender_label(self),
    {
        match self {
            NpcGender::Woman => "Woman",
            NpcGender::Man => "Man",
            NpcGender::Nonbinary => "Nonbinary",
        }
    }
}

/// The uncanny abilities a predator can grow.
#[derive(Clone, Copy, Debug, PartialEq, Eq, Structural)]
pub enum PredatorAbility {
    Plain,
    Blink,
    Thornhide,
    DreadHowl,
    ManaFangs,
}

/// The name under which a value of `PredatorAbility` is shown.
pub open spec fn predator_ability_label(k: PredatorAbility) -> Seq<char> {
    match k {
        PredatorAbility::Plain => "None"@,
        PredatorAbility::Blink => "Blink"@,
        PredatorAbility::Thornhide => "Thornhide"@,
        PredatorAbility::DreadHowl => "Dread Howl"@,
        PredatorAbility::ManaFangs => "Mana Fangs"@,
    }
}

impl PredatorAbility {
    /// The name under which this value is shown.
    pub fn label(self) -> (r: &'static str)
        ensures
            r@ == predator_ability_label(self),
    {
        match self {
            PredatorAbility::Plain => "None",
            PredatorAbility::Blink => "Blink",
            PredatorAbility::Thornhide => "Thornhide",
            PredatorAbility::DreadHowl => "Dread Howl",
            PredatorAbility::ManaFangs => "Mana Fangs",
        }
    }
}

/// The disciplines a mana practice can favour.
#[derive(Clone, Copy, Debug, PartialEq, Eq, Structural)]
pub enum ManaDiscipline {
    Kinesis,
    Hearth,
    Warding,
    Hunt,
    Verdant,
}

/// The name under which a value of `ManaDiscipline` is shown.
pub open spec fn discipline_label(k: ManaDiscipline) -> Seq<char> {
    match k {
        ManaDiscipline::Kinesis => "Kinesis"@,
        ManaDiscipline::Hearth => "Hearth"@,
        ManaDiscipline::Warding => "Warding"@,
        ManaDiscipline::Hunt => "Hunt"@,
        ManaDiscipline::Verdant => "Verdant"@,
    }
}

impl ManaDiscipline {
    /// The name under which this value is shown.
    pub fn label(self) -> (r: &'static str)
        ensures
            r@ == discipline_label(self),
    {
        match self {
            ManaDiscipline::Kinesis => "Kinesis",
            ManaDiscipline::Hearth => "Hearth",
            ManaDiscipline::Warding => "Warding",
            ManaDiscipline::Hunt => "Hunt",
            ManaDiscipline::Verdant => "Verdant",
        }
    }
}

/// Passing weather events.
#[derive(Clone, Copy, Debug, PartialEq, Eq, Structural)]
pub enum ClimateEventKind {
    Heatwave,
    ColdSnap,
}

/// The name under which a value of `ClimateEventKind` is shown.
pub open spec fn climate_event_label(k: ClimateEventKind) -> Seq<char> {
    match k {
        ClimateEventKind::Heatwave => "Heatwave"@,
        ClimateEventKind::ColdSnap => "Cold snap"@,
    }
}

impl ClimateEventKind {
    /// The name under which this value is shown.
    pub fn label(self) -> (r: &'static str)
        ensures
            r@ == climate_event_label(self),
    {
        match self {
            ClimateEventKind::Heatwave => "Heatwave",
            ClimateEventKind::ColdSnap => "Cold snap",
        }
    }
}

/// The growth stages of a tree.
#[derive(Clone, Copy, Debug, PartialEq, Eq, Structural)]
pub enum TreeStage {
    Sapling,
    Young,
    Mature,
}

/// The name under which a value of `TreeStage` is shown.
pub open spec fn tree_stage_label(k: TreeStage) -> Seq<char> {
    match k {
        TreeStage::Sapling => "Sapling"@,
        TreeStage::Young => "Young"@,
        TreeStage::Mature => "Mature"@,
    }
}

impl TreeStage {
    /// The name under which this value is shown.
    pub fn label(self) -> (r: &'static str)
        ensures
            r@ == tree_stage_label(self),
    {
        match self {
            TreeStage::Sapling => "Sapling",
            TreeStage::Young => "Young",
            TreeStage::Mature => "Mature",
        }
    }
}

/// The life stages of an animal.
#[derive(Clone, Copy, Debug, PartialEq, Eq, Structural)]
pub enum AnimalLifeStage {
    Juvenile,
    Adult,
    Elder,
}

/// The name under which a value of `AnimalLifeStage` is shown.
pub open spec fn animal_stage_label(k: AnimalLifeStage) -> Seq<char> {
    match k {
        AnimalLifeStage::Juvenile => "Juvenile"@,
        AnimalLifeStage::Adult => "Adult"@,
        AnimalLifeStage::Elder => "Elder"@,
    }
}

impl AnimalLifeStage {
    /// The name under which this value is shown.
    pub fn label(self) -> (r: &'static str)
        ensures
            r@ == animal_stage_label(self),
    {
        match self {
            AnimalLifeStage::Juvenile => "Juvenile",
            AnimalLifeStage::Adult => "Adult",
            AnimalLifeStage::Elder => "Elder",
        }
    }
}

/// The kinds of entries in the world's event log.
#[derive(Clone, Copy, Debug, PartialEq, Eq, Structural)]
pub enum LogEventKind {
    Birth,
    Death,
    Discovery,
    Construction,
    Territory,
    Threat,
    Climate,
    Proposal,
}

/// The word under which an event kind is shown on the dashboard.
pub open spec fn event_word(k: LogEventKind) -> Seq<char> {
    match k {
        LogEventKind::Birth => "Birth"@,
        LogEventKind::Death => "Death"@,
        LogEventKind::Discovery => "Discovery"@,
        LogEventKind::Construction => "Build"@,
        LogEventKind::Territory => "Territory"@,
        LogEventKind::Threat => "Threat"@,
        LogEventKind::Climate => "Climate"@,
        LogEventKind::Proposal => "Proposal"@,
    }
}

/// The one-character mark of an event kind in the log panel.
pub open spec fn event_mark(k: LogEventKind) -> Seq<char> {
    match k {
        LogEventKind::Birth => "+"@,
        LogEventKind::Death => "-"@,
        LogEventKind::Discovery => "*"@,
        LogEventKind::Construction => "#"@,
        LogEventKind::Territory => "@"@,
        LogEventKind::Threat => "!"@,
        LogEventKind::Climate => "~"@,
        LogEventKind::Proposal => "?"@,
    }
}

/// The word under which an event kind is shown on the dashboard.
pub fn event_label(kind: LogEventKind) -> (r: &'static str)
    ensures
        r@ == event_word(kind),
{
    match kind {
        LogEventKind::Birth => "Birth",
        LogEventKind::Death => "Death",
        LogEventKind::Discovery => "Discovery",
        LogEventKind::Construction => "Build",
        LogEventKind::Territory => "Territory",
        LogEventKind::Threat => "Threat",
        LogEventKind::Climate => "Climate",
        LogEventKind::Proposal => "Proposal",
    }
}

/// The one-character mark of an event kind in the log panel.
pub fn short_label(kind: LogEventKind) -> (r: &'static str)
    ensures
        r@ == event_mark(kind),
{
    match kind {
        LogEventKind::Birth => "+",
        LogEventKind::Death => "-",
        LogEventKind::Discovery => "*",
        LogEventKind::Construction => "#",
        LogEventKind::Territory => "@",
        LogEventKind::Threat => "!",
        LogEventKind::Climate => "~",
        LogEventKind::Proposal => "?",
    }
}

/// The season of a quarter of the year (0 is the first quarter); any
/// quarter past the third is winter.
pub open spec fn season_of(quarter: i32) -> Seq<char> {
    if quarter == 0 {
        "Spring"@
    } else if quarter == 1 {
        "Summer"@
    } else if quarter == 2 {
        "Autumn"@
    } else {
        "Winter"@
    }
}

/// The season of a quarter of the year.
pub fn season_label(quarter: i32) -> (r: &'static str)
    ensures
        r@ == season_of(quarter),
{
    match quarter {
        0 => "Spring",
        1 => "Summer",
        2 => "Autumn",
        _ => "Winter",
    }
}

/// What an NPC's temperament is read from, each flag a comparison of its
/// drives.
#[derive(Clone, Copy, Debug)]
pub struct DriveSignals {
    /// Aggression above 1.0.
    pub aggressive: bool,
    /// Discovery above 1.20 while aggression is below 0.35.
    pub contemplative: bool,
    /// Discovery above 1.15.
    pub studious: bool,
    /// Reproduction drive above 1.15.
    pub nurturing: bool,
    /// Risk tolerance above 0.9.
    pub bold: bool,
}

/// The temperament drives give: the first signal that holds, in the order
/// above, or a builder.
pub open spec fn personality_of(d: DriveSignals) -> PersonalityType {
    if d.aggressive {
        PersonalityType::Raider
    } else if d.contemplative {
        PersonalityType::Mystic
    } else if d.studious {
        PersonalityType::Scholar
    } else if d.nurturing {
        PersonalityType::Caregiver
    } else if d.bold {
        PersonalityType::Sovereign
    } else {
        PersonalityType::Builder
    }
}

/// The temperament an NPC's drives give it.
pub fn personality_from_drives(d: &DriveSignals) -> (r: PersonalityType)
    ensures
        r == personality_of(*d),
{
    if d.aggressive {
        PersonalityType::Raider
    } else if d.contemplative {
        PersonalityType::Mystic
    } else if d.studious {
        PersonalityType::Scholar
    } else if d.nurturing {
        PersonalityType::Caregiver
    } else if d.bold {
        PersonalityType::Sovereign
    } else {
        PersonalityType::Builder
    }
}

} // verus!
