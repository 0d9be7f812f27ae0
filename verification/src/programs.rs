//! The programs (skills and institutions) a mind can know: their catalogue,
//! what one NPC knows, what deaths teach a culture and what a child inherits.
use vstd::prelude::*;
use crate::text::{str_contains, seq_contains, push_decimal, decimal, joined};
use vstd::string::*;

verus! {

/// Every program a mind can come to know.
#[derive(Clone, Copy, Debug, PartialEq, Eq, Structural, Hash)]
pub enum ProgramId {
    Foraging,
    WaterFinding,
    Firemaking,
    HearthKeeping,
    ShelterBuilding,
    ShelterRepair,
    WarmClothing,
    FoodStorage,
    Childcare,
    Midwifery,
    FirstAid,
    HerbalMedicine,
    Sanitation,
    WasteManagement,
    Toolmaking,
    Woodworking,
    Blacksmithing,
    CharcoalMaking,
    Mining,
    Stoneworking,
    Pottery,
    Weaving,
    Leatherworking,
    Cooking,
    Agriculture,
    SeedSaving,
    AnimalHusbandry,
    Fishing,
    Irrigation,
    GranaryManagement,
    Trade,
    Accounting,
    Lawkeeping,
    ConflictMediation,
    Teaching,
    Apprenticeship,
    Storykeeping,
    Ritual,
    Surveying,
    RoadBuilding,
    BridgeBuilding,
    Watchkeeping,
    PredatorDefense,
    Migration,
    WeatherReading,
    ManaSensing,
    ManaCirculation,
    ManaHealing,
    ManaWarding,
    ManaAgriculture,
    ManaSmithing,
    ManaStorage,
    ManaCommunication,
    ManaTransit,
    ResearchMethod,
    Governance,
    FestivalMaking,
    Artistry,
}

/// The area of life a program belongs to.
#[derive(Clone, Copy, Debug, PartialEq, Eq, Structural)]
pub enum ProgramDomain {
    Survival,
    Care,
    Craft,
    Food,
    Society,
    Infrastructure,
    Defense,
    Mana,
    Culture,
}

/// The name under which a domain is shown.
pub open spec fn domain_name(d: ProgramDomain) -> Seq<char> {
    match d {
        ProgramDomain::Survival => "Survival"@,
        ProgramDomain::Care => "Care"@,
        ProgramDomain::Craft => "Craft"@,
        ProgramDomain::Food => "Food"@,
        ProgramDomain::Society => "Society"@,
        ProgramDomain::Infrastructure => "Infrastructure"@,
        ProgramDomain::Defense => "Defense"@,
        ProgramDomain::Mana => "Mana"@,
        ProgramDomain::Culture => "Culture"@,
    }
}

impl ProgramDomain {
    /// The name under which the domain is shown.
    pub fn name(self) -> (r: &'static str)
        ensures
            r@ == domain_name(self),
    {
        match self {
            ProgramDomain::Survival => "Survival",
            ProgramDomain::Care => "Care",
            ProgramDomain::Craft => "Craft",
            ProgramDomain::Food => "Food",
            ProgramDomain::Society => "Society",
            ProgramDomain::Infrastructure => "Infrastructure",
            ProgramDomain::Defense => "Defense",
            ProgramDomain::Mana => "Mana",
            ProgramDomain::Culture => "Culture",
        }
    }
}

/// The catalogue entry of a program.
#[derive(Clone, Copy, Debug)]
pub struct ProgramDef {
    pub id: ProgramId,
    pub name: &'static str,
    pub domain: ProgramDomain,
    pub tier: u8,
    pub summary: &'static str,
}

/// The catalogue: the entry of each program.
pub open spec fn program_table(id: ProgramId) -> ProgramDef {
    match id {
        ProgramId::Foraging => ProgramDef { id: ProgramId::Foraging, name: "Foraging", domain: ProgramDomain::Survival, tier: 1, summary: "Find edible wild resources." },
        ProgramId::WaterFinding => ProgramDef { id: ProgramId::WaterFinding, name: "Water Finding", domain: ProgramDomain::Survival, tier: 1, summary: "Locate drinkable water and wet terrain." },
        ProgramId::Firemaking => ProgramDef { id: ProgramId::Firemaking, name: "Firemaking", domain: ProgramDomain::Survival, tier: 1, summary: "Turn wood into warmth and light." },
        ProgramId::HearthKeeping => ProgramDef { id: ProgramId::HearthKeeping, name: "Hearth Keeping", domain: ProgramDomain::Survival, tier: 1, summary: "Maintain shared fires and ember stores." },
        ProgramId::ShelterBuilding => ProgramDef { id: ProgramId::ShelterBuilding, name: "Shelter Building", domain: ProgramDomain::Survival, tier: 1, summary: "Build basic protection from weather." },
        ProgramId::ShelterRepair => ProgramDef { id: ProgramId::ShelterRepair, name: "Shelter Repair", domain: ProgramDomain::Survival, tier: 1, summary: "Restore damaged homes." },
        ProgramId::WarmClothing => ProgramDef { id: ProgramId::WarmClothing, name: "Warm Clothing", domain: ProgramDomain::Craft, tier: 2, summary: "Reduce cold exposure with worn insulation." },
        ProgramId::FoodStorage => ProgramDef { id: ProgramId::FoodStorage, name: "Food Storage", domain: ProgramDomain::Food, tier: 1, summary: "Preserve and stockpile food." },
        ProgramId::Childcare => ProgramDef { id: ProgramId::Childcare, name: "Childcare", domain: ProgramDomain::Care, tier: 1, summary: "Protect children and parents." },
        ProgramId::Midwifery => ProgramDef { id: ProgramId::Midwifery, name: "Midwifery", domain: ProgramDomain::Care, tier: 2, summary: "Improve pregnancy and birth outcomes." },
        ProgramId::FirstAid => ProgramDef { id: ProgramId::FirstAid, name: "First Aid", domain: ProgramDomain::Care, tier: 1, summary: "Treat injuries before they become fatal." },
        ProgramId::HerbalMedicine => ProgramDef { id: ProgramId::HerbalMedicine, name: "Herbal Medicine", domain: ProgramDomain::Care, tier: 2, summary: "Use plants and mana-rich herbs for recovery." },
        ProgramId::Sanitation => ProgramDef { id: ProgramId::Sanitation, name: "Sanitation", domain: ProgramDomain::Care, tier: 2, summary: "Keep waste away from food and shelter." },
        ProgramId::WasteManagement => ProgramDef { id: ProgramId::WasteManagement, name: "Waste Management", domain: ProgramDomain::Infrastructure, tier: 2, summary: "Organize refuse, ash, and compost." },
        ProgramId::Toolmaking => ProgramDef { id: ProgramId::Toolmaking, name: "Toolmaking", domain: ProgramDomain::Craft, tier: 1, summary: "Create simple tools from wood, stone, and bone." },
        ProgramId::Woodworking => ProgramDef { id: ProgramId::Woodworking, name: "Woodworking", domain: ProgramDomain::Craft, tier: 2, summary: "Build durable wooden objects." },
        ProgramId::Blacksmithing => ProgramDef { id: ProgramId::Blacksmithing, name: "Blacksmithing", domain: ProgramDomain::Craft, tier: 3, summary: "Forge metal tools, fasteners, and weapons." },
        ProgramId::CharcoalMaking => ProgramDef { id: ProgramId::CharcoalMaking, name: "Charcoal Making", domain: ProgramDomain::Craft, tier: 2, summary: "Make hotter fuel for craft and smithing." },
        ProgramId::Mining => ProgramDef { id: ProgramId::Mining, name: "Mining", domain: ProgramDomain::Craft, tier: 3, summary: "Extract ore, stone, and mana crystals." },
        ProgramId::Stoneworking => ProgramDef { id: ProgramId::Stoneworking, name: "Stoneworking", domain: ProgramDomain::Craft, tier: 2, summary: "Shape stone for shelter and infrastructure." },
        ProgramId::Pottery => ProgramDef { id: ProgramId::Pottery, name: "Pottery", domain: ProgramDomain::Craft, tier: 2, summary: "Make vessels for food, water, and mana reagents." },
        ProgramId::Weaving => ProgramDef { id: ProgramId::Weaving, name: "Weaving", domain: ProgramDomain::Craft, tier: 2, summary: "Make cloth, nets, baskets, and straps." },
        ProgramId::Leatherworking => ProgramDef { id: ProgramId::Leatherworking, name: "Leatherworking", domain: ProgramDomain::Craft, tier: 2, summary: "Make durable clothing and containers." },
        ProgramId::Cooking => ProgramDef { id: ProgramId::Cooking, name: "Cooking", domain: ProgramDomain::Food, tier: 1, summary: "Improve nutrition and safety of food." },
        ProgramId::Agriculture => ProgramDef { id: ProgramId::Agriculture, name: "Agriculture", domain: ProgramDomain::Food, tier: 2, summary: "Cultivate reliable food sources." },
        ProgramId::SeedSaving => ProgramDef { id: ProgramId::SeedSaving, name: "Seed Saving", domain: ProgramDomain::Food, tier: 2, summary: "Preserve future crops." },
        ProgramId::AnimalHusbandry => ProgramDef { id: ProgramId::AnimalHusbandry, name: "Animal Husbandry", domain: ProgramDomain::Food, tier: 2, summary: "Manage animals for food, labor, and warmth." },
        ProgramId::Fishing => ProgramDef { id: ProgramId::Fishing, name: "Fishing", domain: ProgramDomain::Food, tier: 1, summary: "Harvest rivers and lakes." },
        ProgramId::Irrigation => ProgramDef { id: ProgramId::Irrigation, name: "Irrigation", domain: ProgramDomain::Infrastructure, tier: 3, summary: "Move water to farms and settlements." },
        ProgramId::GranaryManagement => ProgramDef { id: ProgramId::GranaryManagement, name: "Granary Management", domain: ProgramDomain::Food, tier: 2, summary: "Protect reserves from spoilage and theft." },
        ProgramId::Trade => ProgramDef { id: ProgramId::Trade, name: "Trade", domain: ProgramDomain::Society, tier: 2, summary: "Exchange surpluses and specialties." },
        ProgramId::Accounting => ProgramDef { id: ProgramId::Accounting, name: "Accounting", domain: ProgramDomain::Society, tier: 3, summary: "Track stores, debts, and public works." },
        ProgramId::Lawkeeping => ProgramDef { id: ProgramId::Lawkeeping, name: "Lawkeeping", domain: ProgramDomain::Society, tier: 2, summary: "Stabilize expectations and obligations." },
        ProgramId::ConflictMediation => ProgramDef { id: ProgramId::ConflictMediation, name: "Conflict Mediation", domain: ProgramDomain::Society, tier: 2, summary: "Prevent disputes from becoming violence." },
        ProgramId::Teaching => ProgramDef { id: ProgramId::Teaching, name: "Teaching", domain: ProgramDomain::Society, tier: 2, summary: "Transfer knowledge between generations." },
        ProgramId::Apprenticeship => ProgramDef { id: ProgramId::Apprenticeship, name: "Apprenticeship", domain: ProgramDomain::Society, tier: 2, summary: "Train specialists through work." },
        ProgramId::Storykeeping => ProgramDef { id: ProgramId::Storykeeping, name: "Storykeeping", domain: ProgramDomain::Culture, tier: 1, summary: "Remember dangers, places, and identity." },
        ProgramId::Ritual => ProgramDef { id: ProgramId::Ritual, name: "Ritual", domain: ProgramDomain::Culture, tier: 2, summary: "Coordinate meaning, grief, and commitment." },
        ProgramId::Surveying => ProgramDef { id: ProgramId::Surveying, name: "Surveying", domain: ProgramDomain::Infrastructure, tier: 2, summary: "Map terrain and resources." },
        ProgramId::RoadBuilding => ProgramDef { id: ProgramId::RoadBuilding, name: "Road Building", domain: ProgramDomain::Infrastructure, tier: 3, summary: "Make travel predictable." },
        ProgramId::BridgeBuilding => ProgramDef { id: ProgramId::BridgeBuilding, name: "Bridge Building", domain: ProgramDomain::Infrastructure, tier: 3, summary: "Cross rivers, ravines, and marsh." },
        ProgramId::Watchkeeping => ProgramDef { id: ProgramId::Watchkeeping, name: "Watchkeeping", domain: ProgramDomain::Defense, tier: 1, summary: "Notice threats before they arrive." },
        ProgramId::PredatorDefense => ProgramDef { id: ProgramId::PredatorDefense, name: "Predator Defense", domain: ProgramDomain::Defense, tier: 2, summary: "Organize defense against predators." },
        ProgramId::Migration => ProgramDef { id: ProgramId::Migration, name: "Migration", domain: ProgramDomain::Survival, tier: 2, summary: "Relocate when the local world fails." },
        ProgramId::WeatherReading => ProgramDef { id: ProgramId::WeatherReading, name: "Weather Reading", domain: ProgramDomain::Survival, tier: 2, summary: "Anticipate cold, heat, and dangerous pressure." },
        ProgramId::ManaSensing => ProgramDef { id: ProgramId::ManaSensing, name: "Mana Sensing", domain: ProgramDomain::Mana, tier: 1, summary: "Feel local mana density and instability." },
        ProgramId::ManaCirculation => ProgramDef { id: ProgramId::ManaCirculation, name: "Mana Circulation", domain: ProgramDomain::Mana, tier: 2, summary: "Move mana through the body safely." },
        ProgramId::ManaHealing => ProgramDef { id: ProgramId::ManaHealing, name: "Mana Healing", domain: ProgramDomain::Mana, tier: 3, summary: "Use mana to support recovery." },
        ProgramId::ManaWarding => ProgramDef { id: ProgramId::ManaWarding, name: "Mana Warding", domain: ProgramDomain::Mana, tier: 3, summary: "Reduce exposure and hostile pressure." },
        ProgramId::ManaAgriculture => ProgramDef { id: ProgramId::ManaAgriculture, name: "Mana Agriculture", domain: ProgramDomain::Mana, tier: 3, summary: "Nudge crops and forage with mana." },
        ProgramId::ManaSmithing => ProgramDef { id: ProgramId::ManaSmithing, name: "Mana Smithing", domain: ProgramDomain::Mana, tier: 4, summary: "Forge tools that hold magical charge." },
        ProgramId::ManaStorage => ProgramDef { id: ProgramId::ManaStorage, name: "Mana Storage", domain: ProgramDomain::Mana, tier: 3, summary: "Store ambient mana in vessels and places." },
        ProgramId::ManaCommunication => ProgramDef { id: ProgramId::ManaCommunication, name: "Mana Communication", domain: ProgramDomain::Mana, tier: 4, summary: "Send simple signals through mana fields." },
        ProgramId::ManaTransit => ProgramDef { id: ProgramId::ManaTransit, name: "Mana Transit", domain: ProgramDomain::Mana, tier: 4, summary: "Reduce travel cost through charged routes." },
        ProgramId::ResearchMethod => ProgramDef { id: ProgramId::ResearchMethod, name: "Research Method", domain: ProgramDomain::Society, tier: 3, summary: "Experiment systematically instead of randomly." },
        ProgramId::Governance => ProgramDef { id: ProgramId::Governance, name: "Governance", domain: ProgramDomain::Society, tier: 3, summary: "Coordinate shared decisions and roles." },
        ProgramId::FestivalMaking => ProgramDef { id: ProgramId::FestivalMaking, name: "Festival Making", domain: ProgramDomain::Culture, tier: 2, summary: "Restore morale and social trust." },
        ProgramId::Artistry => ProgramDef { id: ProgramId::Artistry, name: "Artistry", domain: ProgramDomain::Culture, tier: 2, summary: "Create beauty, identity, and esteem." },
    }
}

/// The catalogue entry of a program; every program has one.
pub fn program_def(id: ProgramId) -> (r: Option<ProgramDef>)
    ensures
        r == Some(program_table(id)),
{
    let def = match id {
        ProgramId::Foraging => ProgramDef { id: ProgramId::Foraging, name: "Foraging", domain: ProgramDomain::Survival, tier: 1, summary: "Find edible wild resources." },
        ProgramId::WaterFinding => ProgramDef { id: ProgramId::WaterFinding, name: "Water Finding", domain: ProgramDomain::Survival, tier: 1, summary: "Locate drinkable water and wet terrain." },
        ProgramId::Firemaking => ProgramDef { id: ProgramId::Firemaking, name: "Firemaking", domain: ProgramDomain::Survival, tier: 1, summary: "Turn wood into warmth and light." },
        ProgramId::HearthKeeping => ProgramDef { id: ProgramId::HearthKeeping, name: "Hearth Keeping", domain: ProgramDomain::Survival, tier: 1, summary: "Maintain shared fires and ember stores." },
        ProgramId::ShelterBuilding => ProgramDef { id: ProgramId::ShelterBuilding, name: "Shelter Building", domain: ProgramDomain::Survival, tier: 1, summary: "Build basic protection from weather." },
        ProgramId::ShelterRepair => ProgramDef { id: ProgramId::ShelterRepair, name: "Shelter Repair", domain: ProgramDomain::Survival, tier: 1, summary: "Restore damaged homes." },
        ProgramId::WarmClothing => ProgramDef { id: ProgramId::WarmClothing, name: "Warm Clothing", domain: ProgramDomain::Craft, tier: 2, summary: "Reduce cold exposure with worn insulation." },
        ProgramId::FoodStorage => ProgramDef { id: ProgramId::FoodStorage, name: "Food Storage", domain: ProgramDomain::Food, tier: 1, summary: "Preserve and stockpile food." },
        ProgramId::Childcare => ProgramDef { id: ProgramId::Childcare, name: "Childcare", domain: ProgramDomain::Care, tier: 1, summary: "Protect children and parents." },
        ProgramId::Midwifery => ProgramDef { id: ProgramId::Midwifery, name: "Midwifery", domain: ProgramDomain::Care, tier: 2, summary: "Improve pregnancy and birth outcomes." },
        ProgramId::FirstAid => ProgramDef { id: ProgramId::FirstAid, name: "First Aid", domain: ProgramDomain::Care, tier: 1, summary: "Treat injuries before they become fatal." },
        ProgramId::HerbalMedicine => ProgramDef { id: ProgramId::HerbalMedicine, name: "Herbal Medicine", domain: ProgramDomain::Care, tier: 2, summary: "Use plants and mana-rich herbs for recovery." },
        ProgramId::Sanitation => ProgramDef { id: ProgramId::Sanitation, name: "Sanitation", domain: ProgramDomain::Care, tier: 2, summary: "Keep waste away from food and shelter." },
        ProgramId::WasteManagement => ProgramDef { id: ProgramId::WasteManagement, name: "Waste Management", domain: ProgramDomain::Infrastructure, tier: 2, summary: "Organize refuse, ash, and compost." },
        ProgramId::Toolmaking => ProgramDef { id: ProgramId::Toolmaking, name: "Toolmaking", domain: ProgramDomain::Craft, tier: 1, summary: "Create simple tools from wood, stone, and bone." },
        ProgramId::Woodworking => ProgramDef { id: ProgramId::Woodworking, name: "Woodworking", domain: ProgramDomain::Craft, tier: 2, summary: "Build durable wooden objects." },
        ProgramId::Blacksmithing => ProgramDef { id: ProgramId::Blacksmithing, name: "Blacksmithing", domain: ProgramDomain::Craft, tier: 3, summary: "Forge metal tools, fasteners, and weapons." },
        ProgramId::CharcoalMaking => ProgramDef { id: ProgramId::CharcoalMaking, name: "Charcoal Making", domain: ProgramDomain::Craft, tier: 2, summary: "Make hotter fuel for craft and smithing." },
        ProgramId::Mining => ProgramDef { id: ProgramId::Mining, name: "Mining", domain: ProgramDomain::Craft, tier: 3, summary: "Extract ore, stone, and mana crystals." },
        ProgramId::Stoneworking => ProgramDef { id: ProgramId::Stoneworking, name: "Stoneworking", domain: ProgramDomain::Craft, tier: 2, summary: "Shape stone for shelter and infrastructure." },
        ProgramId::Pottery => ProgramDef { id: ProgramId::Pottery, name: "Pottery", domain: ProgramDomain::Craft, tier: 2, summary: "Make vessels for food, water, and mana reagents." },
        ProgramId::Weaving => ProgramDef { id: ProgramId::Weaving, name: "Weaving", domain: ProgramDomain::Craft, tier: 2, summary: "Make cloth, nets, baskets, and straps." },
        ProgramId::Leatherworking => ProgramDef { id: ProgramId::Leatherworking, name: "Leatherworking", domain: ProgramDomain::Craft, tier: 2, summary: "Make durable clothing and containers." },
        ProgramId::Cooking => ProgramDef { id: ProgramId::Cooking, name: "Cooking", domain: ProgramDomain::Food, tier: 1, summary: "Improve nutrition and safety of food." },
        ProgramId::Agriculture => ProgramDef { id: ProgramId::Agriculture, name: "Agriculture", domain: ProgramDomain::Food, tier: 2, summary: "Cultivate reliable food sources." },
        ProgramId::SeedSaving => ProgramDef { id: ProgramId::SeedSaving, name: "Seed Saving", domain: ProgramDomain::Food, tier: 2, summary: "Preserve future crops." },
        ProgramId::AnimalHusbandry => ProgramDef { id: ProgramId::AnimalHusbandry, name: "Animal Husbandry", domain: ProgramDomain::Food, tier: 2, summary: "Manage animals for food, labor, and warmth." },
        ProgramId::Fishing => ProgramDef { id: ProgramId::Fishing, name: "Fishing", domain: ProgramDomain::Food, tier: 1, summary: "Harvest rivers and lakes." },
        ProgramId::Irrigation => ProgramDef { id: ProgramId::Irrigation, name: "Irrigation", domain: ProgramDomain::Infrastructure, tier: 3, summary: "Move water to farms and settlements." },
        ProgramId::GranaryManagement => ProgramDef { id: ProgramId::GranaryManagement, name: "Granary Management", domain: ProgramDomain::Food, tier: 2, summary: "Protect reserves from spoilage and theft." },
        ProgramId::Trade => ProgramDef { id: ProgramId::Trade, name: "Trade", domain: ProgramDomain::Society, tier: 2, summary: "Exchange surpluses and specialties." },
        ProgramId::Accounting => ProgramDef { id: ProgramId::Accounting, name: "Accounting", domain: ProgramDomain::Society, tier: 3, summary: "Track stores, debts, and public works." },
        ProgramId::Lawkeeping => ProgramDef { id: ProgramId::Lawkeeping, name: "Lawkeeping", domain: ProgramDomain::Society, tier: 2, summary: "Stabilize expectations and obligations." },
        ProgramId::ConflictMediation => ProgramDef { id: ProgramId::ConflictMediation, name: "Conflict Mediation", domain: ProgramDomain::Society, tier: 2, summary: "Prevent disputes from becoming violence." },
        ProgramId::Teaching => ProgramDef { id: ProgramId::Teaching, name: "Teaching", domain: ProgramDomain::Society, tier: 2, summary: "Transfer knowledge between generations." },
        ProgramId::Apprenticeship => ProgramDef { id: ProgramId::Apprenticeship, name: "Apprenticeship", domain: ProgramDomain::Society, tier: 2, summary: "Train specialists through work." },
        ProgramId::Storykeeping => ProgramDef { id: ProgramId::Storykeeping, name: "Storykeeping", domain: ProgramDomain::Culture, tier: 1, summary: "Remember dangers, places, and identity." },
        ProgramId::Ritual => ProgramDef { id: ProgramId::Ritual, name: "Ritual", domain: ProgramDomain::Culture, tier: 2, summary: "Coordinate meaning, grief, and commitment." },
        ProgramId::Surveying => ProgramDef { id: ProgramId::Surveying, name: "Surveying", domain: ProgramDomain::Infrastructure, tier: 2, summary: "Map terrain and resources." },
        ProgramId::RoadBuilding => ProgramDef { id: ProgramId::RoadBuilding, name: "Road Building", domain: ProgramDomain::Infrastructure, tier: 3, summary: "Make travel predictable." },
        ProgramId::BridgeBuilding => ProgramDef { id: ProgramId::BridgeBuilding, name: "Bridge Building", domain: ProgramDomain::Infrastructure, tier: 3, summary: "Cross rivers, ravines, and marsh." },
        ProgramId::Watchkeeping => ProgramDef { id: ProgramId::Watchkeeping, name: "Watchkeeping", domain: ProgramDomain::Defense, tier: 1, summary: "Notice threats before they arrive." },
        ProgramId::PredatorDefense => ProgramDef { id: ProgramId::PredatorDefense, name: "Predator Defense", domain: ProgramDomain::Defense, tier: 2, summary: "Organize defense against predators." },
        ProgramId::Migration => ProgramDef { id: ProgramId::Migration, name: "Migration", domain: ProgramDomain::Survival, tier: 2, summary: "Relocate when the local world fails." },
        ProgramId::WeatherReading => ProgramDef { id: ProgramId::WeatherReading, name: "Weather Reading", domain: ProgramDomain::Survival, tier: 2, summary: "Anticipate cold, heat, and dangerous pressure." },
        ProgramId::ManaSensing => ProgramDef { id: ProgramId::ManaSensing, name: "Mana Sensing", domain: ProgramDomain::Mana, tier: 1, summary: "Feel local mana density and instability." },
        ProgramId::ManaCirculation => ProgramDef { id: ProgramId::ManaCirculation, name: "Mana Circulation", domain: ProgramDomain::Mana, tier: 2, summary: "Move mana through the body safely." },
        ProgramId::ManaHealing => ProgramDef { id: ProgramId::ManaHealing, name: "Mana Healing", domain: ProgramDomain::Mana, tier: 3, summary: "Use mana to support recovery." },
        ProgramId::ManaWarding => ProgramDef { id: ProgramId::ManaWarding, name: "Mana Warding", domain: ProgramDomain::Mana, tier: 3, summary: "Reduce exposure and hostile pressure." },
        ProgramId::ManaAgriculture => ProgramDef { id: ProgramId::ManaAgriculture, name: "Mana Agriculture", domain: ProgramDomain::Mana, tier: 3, summary: "Nudge crops and forage with mana." },
        ProgramId::ManaSmithing => ProgramDef { id: ProgramId::ManaSmithing, name: "Mana Smithing", domain: ProgramDomain::Mana, tier: 4, summary: "Forge tools that hold magical charge." },
        ProgramId::ManaStorage => ProgramDef { id: ProgramId::ManaStorage, name: "Mana Storage", domain: ProgramDomain::Mana, tier: 3, summary: "Store ambient mana in vessels and places." },
        ProgramId::ManaCommunication => ProgramDef { id: ProgramId::ManaCommunication, name: "Mana Communication", domain: ProgramDomain::Mana, tier: 4, summary: "Send simple signals through mana fields." },
        ProgramId::ManaTransit => ProgramDef { id: ProgramId::ManaTransit, name: "Mana Transit", domain: ProgramDomain::Mana, tier: 4, summary: "Reduce travel cost through charged routes." },
        ProgramId::ResearchMethod => ProgramDef { id: ProgramId::ResearchMethod, name: "Research Method", domain: ProgramDomain::Society, tier: 3, summary: "Experiment systematically instead of randomly." },
        ProgramId::Governance => ProgramDef { id: ProgramId::Governance, name: "Governance", domain: ProgramDomain::Society, tier: 3, summary: "Coordinate shared decisions and roles." },
        ProgramId::FestivalMaking => ProgramDef { id: ProgramId::FestivalMaking, name: "Festival Making", domain: ProgramDomain::Culture, tier: 2, summary: "Restore morale and social trust." },
        ProgramId::Artistry => ProgramDef { id: ProgramId::Artistry, name: "Artistry", domain: ProgramDomain::Culture, tier: 2, summary: "Create beauty, identity, and esteem." },
    };
    Some(def)
}

/// The programs every fresh mind starts with.
pub open spec fn starter_programs() -> Seq<ProgramId> {
    seq![ProgramId::Foraging, ProgramId::WaterFinding, ProgramId::Firemaking,
        ProgramId::ShelterBuilding, ProgramId::ShelterRepair, ProgramId::Toolmaking,
        ProgramId::Storykeeping]
}

/// `known` after learning `id`: unchanged when it was already known,
/// otherwise with `id` added at the end.
pub open spec fn learned(known: Seq<ProgramId>, id: ProgramId) -> Seq<ProgramId> {
    if known.contains(id) {
        known
    } else {
        known.push(id)
    }
}

/// `known` after learning each of `ids` in turn.
pub open spec fn learned_all(known: Seq<ProgramId>, ids: Seq<ProgramId>) -> Seq<ProgramId>
    decreases ids.len(),
{
    if ids.len() == 0 {
        known
    } else {
        learned(learned_all(known, ids.drop_last()), ids.last())
    }
}

/// What one mind knows, in the order it came to know it.
#[derive(Clone, Debug)]
pub struct KnownPrograms {
    pub known: Vec<ProgramId>,
    pub granted_by_world: Vec<ProgramId>,
    pub last_grant_reason: String,
}

impl KnownPrograms {
    /// Nothing is known twice, nothing is granted twice, and every granted
    /// program is known.
    pub open spec fn wf(&self) -> bool {
        &&& self.known@.no_duplicates()
        &&& self.granted_by_world@.no_duplicates()
        &&& forall|i: int| 0 <= i < self.granted_by_world@.len()
            ==> self.known@.contains(#[trigger] self.granted_by_world@[i])
    }

    /// A fresh mind: the starter programs, nothing granted yet.
    pub fn fresh() -> (r: Self)
        ensures
            r.known@ == starter_programs(),
            r.granted_by_world@ == Seq::<ProgramId>::empty(),
            r.last_grant_reason@ == "Inherited starter knowledge"@,
            r.wf(),
    {
        let known = vec![ProgramId::Foraging, ProgramId::WaterFinding, ProgramId::Firemaking,
            ProgramId::ShelterBuilding, ProgramId::ShelterRepair, ProgramId::Toolmaking,
            ProgramId::Storykeeping];
        let r = KnownPrograms {
            known,
            granted_by_world: Vec::new(),
            last_grant_reason: String::from_str("Inherited starter knowledge"),
        };
        proof {
            assert(r.known@ =~= starter_programs());
            assert(r.known@.no_duplicates()) by {
                assert forall|i: int, j: int| 0 <= i < j < r.known@.len()
                    implies r.known@[i] != r.known@[j] by {}
            }
        }
        r
    }

    /// Whether `id` is known.
    pub fn knows(&self, id: ProgramId) -> (r: bool)
        ensures
            r == self.known@.contains(id),
    {
        let mut i: usize = 0;
        while i < self.known.len()
            invariant
                i <= self.known@.len(),
                forall|k: int| 0 <= k < i ==> self.known@[k] != id,
            decreases self.known@.len() - i,
        {
            if self.known[i] == id {
                assert(self.known@[i as int] == id);
                return true;
            }
            i = i + 1;
        }
        false
    }

    /// Learns `id`; true when it was not known before.
    pub fn learn(&mut self, id: ProgramId) -> (r: bool)
        ensures
            r == !old(self).known@.contains(id),
            final(self).known@ == learned(old(self).known@, id),
            final(self).granted_by_world@ == old(self).granted_by_world@,
            final(self).last_grant_reason@ == old(self).last_grant_reason@,
            old(self).wf() ==> final(self).wf(),
    {
        if self.knows(id) {
            false
        } else {
            self.known.push(id);
            proof {
                if old(self).wf() {
                    assert forall|i: int| 0 <= i < self.granted_by_world@.len()
                        implies self.known@.contains(#[trigger] self.granted_by_world@[i]) by {
                        let g = self.granted_by_world@[i];
                        let k = choose|k: int| 0 <= k < old(self).known@.len() && old(self).known@[k] == g;
                        assert(self.known@[k] == g);
                    }
                }
            }
            true
        }
    }

    /// Learns `id` as a grant of the world, for `reason`; true when it was
    /// not known before. A program already known is not granted again.
    pub fn grant(&mut self, id: ProgramId, reason: &str) -> (r: bool)
        ensures
            r == !old(self).known@.contains(id),
            final(self).known@ == learned(old(self).known@, id),
            r ==> final(self).granted_by_world@ == old(self).granted_by_world@.push(id),
            r ==> final(self).last_grant_reason@ == reason@,
            !r ==> final(self).granted_by_world@ == old(self).granted_by_world@,
            !r ==> final(self).last_grant_reason@ == old(self).last_grant_reason@,
            old(self).wf() ==> final(self).wf(),
    {
        if self.learn(id) {
            self.granted_by_world.push(id);
            self.last_grant_reason = String::from_str(reason);
            proof {
                if old(self).wf() {
                    assert forall|i: int| 0 <= i < self.granted_by_world@.len()
                        implies self.known@.contains(#[trigger] self.granted_by_world@[i]) by {
                        if i == self.granted_by_world@.len() - 1 {
                            assert(self.known@[self.known@.len() - 1] == id);
                        } else {
                            let g = self.granted_by_world@[i];
                            assert(old(self).granted_by_world@[i] == g);
                            let k = choose|k: int| 0 <= k < old(self).known@.len() && old(self).known@[k] == g;
                            assert(self.known@[k] == g);
                        }
                    }
                    assert forall|i: int, j: int| 0 <= i < j < self.granted_by_world@.len()
                        implies self.granted_by_world@[i] != self.granted_by_world@[j] by {
                        if j == self.granted_by_world@.len() - 1 {
                            let g = old(self).granted_by_world@[i];
                            if g == id {
                                assert(old(self).known@.contains(g));
                            }
                        }
                    }
                }
            }
            true
        } else {
            false
        }
    }
}

/// How a catalogue entry is listed: name, tier and domain.
pub open spec fn entry_text(id: ProgramId) -> Seq<char> {
    program_table(id).name@ + " T"@ + decimal(program_table(id).tier as nat) + " "@
        + domain_name(program_table(id).domain)
}

/// The listing of the first `limit` known programs, separated by ", ".
pub open spec fn names_text(known: Seq<ProgramId>, limit: nat) -> Seq<char> {
    let shown = if limit < known.len() { known.take(limit as int) } else { known };
    joined(shown.map_values(|id: ProgramId| entry_text(id)), ", "@)
}

/// The summary shown for the most recently learned program.
pub open spec fn featured_text(known: Seq<ProgramId>) -> Seq<char> {
    if known.len() == 0 {
        "No program details available"@
    } else {
        program_table(known.last()).summary@
    }
}

/// Appends the listing of one catalogue entry.
pub fn push_entry(out: &mut String, id: ProgramId)
    ensures
        final(out)@ == old(out)@ + entry_text(id),
{
    let def = program_table_entry(id);
    out.append(def.name);
    out.append(" T");
    push_decimal(out, def.tier as u64);
    out.append(" ");
    out.append(def.domain.name());
    proof {
        assert(final(out)@ =~= old(out)@ + entry_text(id));
    }
}

fn program_table_entry(id: ProgramId) -> (r: ProgramDef)
    ensures
        r == program_table(id),
{
    match program_def(id) {
        Some(def) => def,
        None => {
            proof { assert(false); }
            ProgramDef { id, name: "", domain: ProgramDomain::Survival, tier: 0, summary: "" }
        }
    }
}

impl KnownPrograms {
    /// The first `limit` known programs listed with tier and domain,
    /// separated by ", ".
    pub fn names(&self, limit: usize) -> (r: String)
        ensures
            r@ == names_text(self.known@, limit as nat),
    {
        let count = if limit < self.known.len() { limit } else { self.known.len() };
        let ghost shown = if (limit as nat) < self.known@.len() { self.known@.take(limit as int) } else { self.known@ };
        let ghost texts = shown.map_values(|id: ProgramId| entry_text(id));
        let mut out = String::new();
        let mut i: usize = 0;
        while i < count
            invariant
                count == shown.len(),
                count <= self.known@.len(),
                shown =~= self.known@.take(count as int),
                texts == shown.map_values(|id: ProgramId| entry_text(id)),
                i <= count,
                out@ == joined(texts.take(i as int), ", "@),
            decreases count - i,
        {
            assert(texts.take(i + 1).drop_last() =~= texts.take(i as int));
            assert(texts.take(i + 1).last() == entry_text(self.known@[i as int]));
            if i > 0 {
                out.append(", ");
            }
            push_entry(&mut out, self.known[i]);
            i = i + 1;
        }
        assert(texts.take(count as int) =~= texts);
        out
    }

    /// The summary of the most recently learned program.
    pub fn featured_summary(&self) -> (r: &'static str)
        ensures
            r@ == featured_text(self.known@),
    {
        let n = self.known.len();
        if n == 0 {
            "No program details available"
        } else {
            program_table_entry(self.known[n - 1]).summary
        }
    }
}

impl Default for KnownPrograms {
    /// A fresh mind: the starter programs, nothing granted yet.
    fn default() -> (r: Self)
        ensures
            r.known@ == starter_programs(),
            r.granted_by_world@ == Seq::<ProgramId>::empty(),
            r.last_grant_reason@ == "Inherited starter knowledge"@,
            r.wf(),
    {
        KnownPrograms::fresh()
    }
}

/// The reason text mentions `word`.
pub open spec fn mentions(reason: Seq<char>, word: &str) -> bool {
    seq_contains(reason, word@)
}

/// What a death for `reason` teaches a culture to look into.
pub open spec fn death_lessons(reason: Seq<char>) -> Seq<ProgramId> {
    if mentions(reason, "cold") || mentions(reason, "exposure") {
        seq![ProgramId::Firemaking, ProgramId::HearthKeeping, ProgramId::WarmClothing,
            ProgramId::ShelterBuilding, ProgramId::WeatherReading, ProgramId::ManaWarding]
    } else if mentions(reason, "starvation") {
        seq![ProgramId::Foraging, ProgramId::FoodStorage, ProgramId::Cooking,
            ProgramId::Agriculture, ProgramId::SeedSaving]
    } else if mentions(reason, "injury") {
        seq![ProgramId::FirstAid, ProgramId::HerbalMedicine, ProgramId::Watchkeeping,
            ProgramId::PredatorDefense]
    } else {
        seq![ProgramId::Storykeeping, ProgramId::Teaching, ProgramId::ResearchMethod]
    }
}

/// The programs that a death for `reason` makes a culture look into.
pub fn programs_for_death_reason(reason: &str) -> (r: Vec<ProgramId>)
    ensures
        r@ == death_lessons(reason@),
{
    let r = if str_contains(reason, "cold") || str_contains(reason, "exposure") {
        vec![ProgramId::Firemaking, ProgramId::HearthKeeping, ProgramId::WarmClothing,
            ProgramId::ShelterBuilding, ProgramId::WeatherReading, ProgramId::ManaWarding]
    } else if str_contains(reason, "starvation") {
        vec![ProgramId::Foraging, ProgramId::FoodStorage, ProgramId::Cooking,
            ProgramId::Agriculture, ProgramId::SeedSaving]
    } else if str_contains(reason, "injury") {
        vec![ProgramId::FirstAid, ProgramId::HerbalMedicine, ProgramId::Watchkeeping,
            ProgramId::PredatorDefense]
    } else {
        vec![ProgramId::Storykeeping, ProgramId::Teaching, ProgramId::ResearchMethod]
    };
    proof {
        assert(r@ =~= death_lessons(reason@));
    }
    r
}

/// The kinds of pressure the world builds up toward discoveries.
#[derive(Clone, Copy, Debug, PartialEq, Eq, Structural)]
pub enum DiscoveryPressure {
    Cold,
    Hunger,
    Care,
    Defense,
    Culture,
}

/// Which pressure eases the discovery of a program.
pub open spec fn program_pressure(program: ProgramId) -> DiscoveryPressure {
    match program {
        ProgramId::Firemaking | ProgramId::HearthKeeping | ProgramId::WarmClothing
        | ProgramId::ShelterBuilding | ProgramId::ShelterRepair | ProgramId::WeatherReading
        | ProgramId::ManaWarding => DiscoveryPressure::Cold,
        ProgramId::Foraging | ProgramId::FoodStorage | ProgramId::Cooking
        | ProgramId::Agriculture | ProgramId::SeedSaving | ProgramId::AnimalHusbandry
        | ProgramId::ManaAgriculture => DiscoveryPressure::Hunger,
        ProgramId::Childcare | ProgramId::Midwifery | ProgramId::Teaching
        | ProgramId::ConflictMediation | ProgramId::Governance => DiscoveryPressure::Care,
        ProgramId::Watchkeeping | ProgramId::PredatorDefense | ProgramId::FirstAid => DiscoveryPressure::Defense,
        _ => DiscoveryPressure::Culture,
    }
}

/// Which pressure eases the discovery of a program.
pub fn pressure_for_program(program: ProgramId) -> (r: DiscoveryPressure)
    ensures
        r == program_pressure(program),
{
    match program {
        ProgramId::Firemaking | ProgramId::HearthKeeping | ProgramId::WarmClothing
        | ProgramId::ShelterBuilding | ProgramId::ShelterRepair | ProgramId::WeatherReading
        | ProgramId::ManaWarding => DiscoveryPressure::Cold,
        ProgramId::Foraging | ProgramId::FoodStorage | ProgramId::Cooking
        | ProgramId::Agriculture | ProgramId::SeedSaving | ProgramId::AnimalHusbandry
        | ProgramId::ManaAgriculture => DiscoveryPressure::Hunger,
        ProgramId::Childcare | ProgramId::Midwifery | ProgramId::Teaching
        | ProgramId::ConflictMediation | ProgramId::Governance => DiscoveryPressure::Care,
        ProgramId::Watchkeeping | ProgramId::PredatorDefense | ProgramId::FirstAid => DiscoveryPressure::Defense,
        _ => DiscoveryPressure::Culture,
    }
}

/// Which pressure a death for `reason` raises.
pub open spec fn death_pressure(reason: Seq<char>) -> DiscoveryPressure {
    if mentions(reason, "cold") || mentions(reason, "exposure") {
        DiscoveryPressure::Cold
    } else if mentions(reason, "starv") {
        DiscoveryPressure::Hunger
    } else if mentions(reason, "predator") || mentions(reason, "wound") || mentions(reason, "injury") {
        DiscoveryPressure::Defense
    } else {
        DiscoveryPressure::Culture
    }
}

/// Which pressure a death for `reason` raises.
pub fn pressure_for_death(reason: &str) -> (r: DiscoveryPressure)
    ensures
        r == death_pressure(reason@),
{
    if str_contains(reason, "cold") || str_contains(reason, "exposure") {
        DiscoveryPressure::Cold
    } else if str_contains(reason, "starv") {
        DiscoveryPressure::Hunger
    } else if str_contains(reason, "predator") || str_contains(reason, "wound")
        || str_contains(reason, "injury") {
        DiscoveryPressure::Defense
    } else {
        DiscoveryPressure::Culture
    }
}

fn vec_contains(v: &Vec<ProgramId>, id: ProgramId) -> (r: bool)
    ensures
        r == v@.contains(id),
{
    let mut i: usize = 0;
    while i < v.len()
        invariant
            i <= v@.len(),
            forall|k: int| 0 <= k < i ==> v@[k] != id,
        decreases v@.len() - i,
    {
        if v[i] == id {
            assert(v@[i as int] == id);
            return true;
        }
        i = i + 1;
    }
    false
}

/// Adds each of `programs` to the world's unlocked list, in order, skipping
/// those already unlocked.
pub fn unlock_programs(unlocked: &mut Vec<ProgramId>, programs: &Vec<ProgramId>)
    ensures
        final(unlocked)@ == learned_all(old(unlocked)@, programs@),
{
    let mut i: usize = 0;
    while i < programs.len()
        invariant
            i <= programs@.len(),
            unlocked@ == learned_all(old(unlocked)@, programs@.take(i as int)),
        decreases programs@.len() - i,
    {
        assert(programs@.take(i + 1).drop_last() =~= programs@.take(i as int));
        let id = programs[i];
        if !vec_contains(unlocked, id) {
            unlocked.push(id);
        }
        i = i + 1;
    }
    assert(programs@.take(programs@.len() as int) =~= programs@);
}

/// The first candidate that passed its discovery check and is not yet
/// known, from position `i` on.
pub open spec fn first_new_discovery(known: Seq<ProgramId>, candidates: Seq<(ProgramId, bool)>, i: int) -> Option<ProgramId>
    decreases candidates.len() - i,
{
    if i < 0 || i >= candidates.len() {
        None
    } else if candidates[i].1 && !known.contains(candidates[i].0) {
        Some(candidates[i].0)
    } else {
        first_new_discovery(known, candidates, i + 1)
    }
}

/// An NPC works something out: of the candidates, in order, the first that
/// passed its discovery check and is not yet known is learned. At most one
/// program is learned per call.
pub fn npc_self_discover(programs: &mut KnownPrograms, candidates: &Vec<(ProgramId, bool)>) -> (r: Option<ProgramId>)
    ensures
        r == first_new_discovery(old(programs).known@, candidates@, 0),
        final(programs).known@ == (match r {
            Some(id) => old(programs).known@.push(id),
            None => old(programs).known@,
        }),
        final(programs).granted_by_world@ == old(programs).granted_by_world@,
        final(programs).last_grant_reason@ == old(programs).last_grant_reason@,
        old(programs).wf() ==> final(programs).wf(),
{
    let mut i: usize = 0;
    while i < candidates.len()
        invariant
            programs == old(programs),
            i <= candidates@.len(),
            first_new_discovery(programs.known@, candidates@, 0)
                == first_new_discovery(programs.known@, candidates@, i as int),
        decreases candidates@.len() - i,
    {
        let (id, passed) = candidates[i];
        if passed && !programs.knows(id) {
            programs.learn(id);
            return Some(id);
        }
        i = i + 1;
    }
    None
}

/// Programs an elder can pass on to a child nearby.
pub open spec fn kin_teachable(program: ProgramId) -> bool {
    match program {
        ProgramId::Foraging | ProgramId::WaterFinding | ProgramId::Firemaking
        | ProgramId::ShelterBuilding | ProgramId::Toolmaking | ProgramId::Storykeeping
        | ProgramId::Childcare | ProgramId::Teaching | ProgramId::FoodStorage => true,
        _ => false,
    }
}

/// The first of the teacher's programs, in the teacher's order from
/// position `i` on, that can be taught to a child and that the child does
/// not know yet.
pub open spec fn first_kin_lesson(known: Seq<ProgramId>, teacher: Seq<ProgramId>, i: int) -> Option<ProgramId>
    decreases teacher.len() - i,
{
    if i < 0 || i >= teacher.len() {
        None
    } else if kin_teachable(teacher[i]) && !known.contains(teacher[i]) {
        Some(teacher[i])
    } else {
        first_kin_lesson(known, teacher, i + 1)
    }
}

/// A child learns from a nearby elder: the first of the elder's programs,
/// in the elder's order, that can be taught to a child and that the child
/// does not know yet. At most one program is learned per lesson, and the
/// lesson is recorded as the reason of the child's latest knowledge.
pub fn kin_lesson(child: &mut KnownPrograms, teacher: &KnownPrograms) -> (r: Option<ProgramId>)
    ensures
        r == first_kin_lesson(old(child).known@, teacher.known@, 0),
        final(child).known@ == (match r {
            Some(id) => old(child).known@.push(id),
            None => old(child).known@,
        }),
        final(child).granted_by_world@ == old(child).granted_by_world@,
        r is Some ==> final(child).last_grant_reason@ == "learned from nearby kin and elders"@,
        r is None ==> final(child).last_grant_reason@ == old(child).last_grant_reason@,
        old(child).wf() ==> final(child).wf(),
{
    let mut i: usize = 0;
    while i < teacher.known.len()
        invariant
            child == old(child),
            i <= teacher.known@.len(),
            first_kin_lesson(child.known@, teacher.known@, 0)
                == first_kin_lesson(child.known@, teacher.known@, i as int),
        decreases teacher.known@.len() - i,
    {
        let id = teacher.known[i];
        let teachable = match id {
            ProgramId::Foraging | ProgramId::WaterFinding | ProgramId::Firemaking
            | ProgramId::ShelterBuilding | ProgramId::Toolmaking | ProgramId::Storykeeping
            | ProgramId::Childcare | ProgramId::Teaching | ProgramId::FoodStorage => true,
            _ => false,
        };
        if teachable && !child.knows(id) {
            child.learn(id);
            child.last_grant_reason = String::from_str("learned from nearby kin and elders");
            return Some(id);
        }
        i = i + 1;
    }
    None
}

/// A lesson teaches something new and teachable that the elder knows; no
/// lesson is given only when the child already knows every teachable
/// program of the elder's.
pub proof fn lemma_kin_lesson(known: Seq<ProgramId>, teacher: Seq<ProgramId>, i: int)
    requires
        0 <= i <= teacher.len(),
    ensures
        first_kin_lesson(known, teacher, i) matches Some(id) ==>
            kin_teachable(id) && !known.contains(id) && teacher.subrange(i, teacher.len() as int).contains(id),
        first_kin_lesson(known, teacher, i) is None ==>
            forall|k: int| i <= k < teacher.len() && kin_teachable(#[trigger] teacher[k]) ==> known.contains(teacher[k]),
    decreases teacher.len() - i,
{
    if i < teacher.len() {
        lemma_kin_lesson(known, teacher, i + 1);
        if let Some(id) = first_kin_lesson(known, teacher, i) {
            if !(kin_teachable(teacher[i]) && !known.contains(teacher[i])) {
                let rest = teacher.subrange(i + 1, teacher.len() as int);
                let k = choose|k: int| 0 <= k < rest.len() && #[trigger] rest[k] == id;
                assert(teacher.subrange(i, teacher.len() as int)[k + 1] == id);
            } else {
                assert(teacher.subrange(i, teacher.len() as int)[0] == id);
            }
        }
    }
}

/// Programs a child keeps from its parent whatever its luck.
pub open spec fn core_heritage(program: ProgramId) -> bool {
    match program {
        ProgramId::Foraging | ProgramId::WaterFinding | ProgramId::Firemaking
        | ProgramId::ShelterBuilding | ProgramId::Toolmaking | ProgramId::Storykeeping
        | ProgramId::Childcare | ProgramId::Teaching => true,
        _ => false,
    }
}

/// Whether a child keeps a program of its parent: always for core
/// knowledge, otherwise when the child is `fortunate` (its birth draw is
/// above 0.28).
pub fn inherited_program(program: ProgramId, fortunate: bool) -> (r: bool)
    ensures
        r == (core_heritage(program) || fortunate),
{
    let core = match program {
        ProgramId::Foraging | ProgramId::WaterFinding | ProgramId::Firemaking
        | ProgramId::ShelterBuilding | ProgramId::Toolmaking | ProgramId::Storykeeping
        | ProgramId::Childcare | ProgramId::Teaching => true,
        _ => false,
    };
    core || fortunate
}

/// The programs every newborn learns after what it inherits.
pub open spec fn newborn_programs() -> Seq<ProgramId> {
    seq![ProgramId::Foraging, ProgramId::WaterFinding, ProgramId::Storykeeping]
}

/// The parent's programs that a child keeps, in the parent's order.
pub open spec fn kept_programs(parent: Seq<ProgramId>, fortunate: bool) -> Seq<ProgramId> {
    parent.filter(|p: ProgramId| core_heritage(p) || fortunate)
}

/// What a child knows: the kept programs of its parent learned in order,
/// then the newborn programs.
pub open spec fn inherited_knowledge(parent: Seq<ProgramId>, fortunate: bool) -> Seq<ProgramId> {
    learned_all(learned_all(Seq::empty(), kept_programs(parent, fortunate)), newborn_programs())
}

/// The knowledge a newborn starts with. Without a parent mind it is a fresh
/// mind; otherwise it keeps what `inherited_program` lets it keep of the
/// parent's programs, learns the newborn programs, and records whom it
/// inherited from.
pub fn inherit_programs(parent: Option<&KnownPrograms>, parent_name: &str, fortunate: bool) -> (r: KnownPrograms)
    ensures
        r.wf(),
        r.granted_by_world@ == Seq::<ProgramId>::empty(),
        parent is None ==> r.known@ == starter_programs(),
        parent is None ==> r.last_grant_reason@ == "Inherited starter knowledge"@,
        parent is Some ==> r.known@ == inherited_knowledge(parent->0.known@, fortunate),
        parent is Some ==> r.last_grant_reason@ == "Inherited from "@ + parent_name@,
{
    let mut child = KnownPrograms::fresh();
    match parent {
        None => child,
        Some(p) => {
            child.known.clear();
            let ghost empty: Seq<ProgramId> = Seq::empty();
            assert(child.known@ =~= empty);
            let mut i: usize = 0;
            while i < p.known.len()
                invariant
                    i <= p.known@.len(),
                    child.wf(),
                    child.granted_by_world@ == Seq::<ProgramId>::empty(),
                    child.known@ == learned_all(Seq::empty(), kept_programs(p.known@.take(i as int), fortunate)),
                decreases p.known@.len() - i,
            {
                let program = p.known[i];
                proof {
                    let keep = |q: ProgramId| core_heritage(q) || fortunate;
                    assert(p.known@.take(i + 1).drop_last() =~= p.known@.take(i as int));
                    assert(p.known@.take(i + 1).last() == program);
                    reveal(Seq::filter);
                    let next = p.known@.take(i + 1);
                    assert(next.drop_last() =~= p.known@.take(i as int));
                    assert(next.last() == program);
                    let kept = kept_programs(p.known@.take(i as int), fortunate);
                    if keep(program) {
                        assert(kept_programs(next, fortunate) == kept.push(program));
                        assert(kept.push(program).drop_last() =~= kept);
                    } else {
                        assert(kept_programs(next, fortunate) == kept);
                    }
                }
                if inherited_program(program, fortunate) {
                    child.learn(program);
                }
                i = i + 1;
            }
            assert(p.known@.take(p.known@.len() as int) =~= p.known@);
            let ghost before = child.known@;
            child.learn(ProgramId::Foraging);
            child.learn(ProgramId::WaterFinding);
            child.learn(ProgramId::Storykeeping);
            proof {
                let n = newborn_programs();
                let e: Seq<ProgramId> = Seq::empty();
                assert(n.take(1).drop_last() =~= e);
                assert(n.take(2).drop_last() =~= n.take(1));
                assert(n.drop_last() =~= n.take(2));
                assert(learned_all(before, e) == before);
                assert(learned_all(before, n.take(1)) == learned(before, ProgramId::Foraging));
                assert(learned_all(before, n.take(2)) == learned(learned_all(before, n.take(1)), ProgramId::WaterFinding));
                assert(learned_all(before, n) == learned(learned_all(before, n.take(2)), ProgramId::Storykeeping));
            }
            let mut reason = String::from_str("Inherited from ");
            reason.append(parent_name);
            child.last_grant_reason = reason;
            child
        }
    }
}

/// How far a settlement has come by its people, homes and public works,
/// from band (0) to city (4).
pub open spec fn stage_level(npcs: nat, shelters: nat, civic_structures: nat) -> nat {
    if shelters >= 10 && civic_structures >= 6 && npcs >= 18 {
        4
    } else if shelters >= 7 && civic_structures >= 5 && npcs >= 12 {
        3
    } else if shelters >= 4 && civic_structures >= 3 && npcs >= 7 {
        2
    } else if shelters >= 2 && npcs >= 4 {
        1
    } else {
        0
    }
}

/// The name of a settlement stage.
pub open spec fn stage_name(level: nat) -> Seq<char> {
    if level == 4 { "City"@ } else if level == 3 { "Town"@ } else if level == 2 { "Village"@ }
    else if level == 1 { "Hamlet"@ } else { "Band"@ }
}

/// The stage a settlement has reached by its people, homes and public works.
pub open spec fn stage_of(npcs: nat, shelters: nat, civic_structures: nat) -> Seq<char> {
    stage_name(stage_level(npcs, shelters, civic_structures))
}

/// The stage a settlement has reached by its people, homes and public works.
pub fn settlement_stage(npcs: usize, shelters: usize, civic_structures: usize) -> (r: &'static str)
    ensures
        r@ == stage_of(npcs as nat, shelters as nat, civic_structures as nat),
{
    if shelters >= 10 && civic_structures >= 6 && npcs >= 18 {
        "City"
    } else if shelters >= 7 && civic_structures >= 5 && npcs >= 12 {
        "Town"
    } else if shelters >= 4 && civic_structures >= 3 && npcs >= 7 {
        "Village"
    } else if shelters >= 2 && npcs >= 4 {
        "Hamlet"
    } else {
        "Band"
    }
}

/// A program is known after learning a list exactly when it was known
/// before or is on the list.
pub proof fn lemma_learned_all_contains(known: Seq<ProgramId>, ids: Seq<ProgramId>, p: ProgramId)
    ensures
        learned_all(known, ids).contains(p) <==> (known.contains(p) || ids.contains(p)),
    decreases ids.len(),
{
    if ids.len() > 0 {
        lemma_learned_all_contains(known, ids.drop_last(), p);
        let before = learned_all(known, ids.drop_last());
        if before.contains(p) {
            assert(learned(before, ids.last()).contains(p)) by {
                if !before.contains(ids.last()) {
                    let k = choose|k: int| 0 <= k < before.len() && before[k] == p;
                    assert(before.push(ids.last())[k] == p);
                }
            }
        }
        if ids.last() == p {
            assert(learned(before, p).contains(p)) by {
                if !before.contains(p) {
                    assert(before.push(p)[before.len() as int] == p);
                }
            }
        }
        if ids.drop_last().contains(p) {
            let k = choose|k: int| 0 <= k < ids.drop_last().len() && ids.drop_last()[k] == p;
            assert(ids[k] == p);
        }
        if ids.contains(p) && !ids.drop_last().contains(p) {
            let k = choose|k: int| 0 <= k < ids.len() && ids[k] == p;
            if k < ids.len() - 1 {
                assert(ids.drop_last()[k] == p);
            }
        }
        if learned(before, ids.last()).contains(p) && !before.contains(p) {
            let k = choose|k: int| 0 <= k < learned(before, ids.last()).len() && learned(before, ids.last())[k] == p;
            assert(ids[ids.len() - 1] == p);
        }
    }
}

/// What children inherit: a child knows only what its parent knew and the
/// newborn programs; it always knows the newborn programs and every core
/// program its parent knew; and a fortunate child knows everything its
/// parent knew.
pub proof fn lemma_inheritance(parent: Seq<ProgramId>, fortunate: bool, p: ProgramId)
    ensures
        inherited_knowledge(parent, fortunate).contains(p) ==> (parent.contains(p) || newborn_programs().contains(p)),
        newborn_programs().contains(p) ==> inherited_knowledge(parent, fortunate).contains(p),
        parent.contains(p) && (core_heritage(p) || fortunate) ==> inherited_knowledge(parent, fortunate).contains(p),
{
    broadcast use vstd::seq_lib::group_filter_ensures;
    let keep = |q: ProgramId| core_heritage(q) || fortunate;
    let kept = kept_programs(parent, fortunate);
    let e: Seq<ProgramId> = Seq::empty();
    lemma_learned_all_contains(e, kept, p);
    lemma_learned_all_contains(learned_all(e, kept), newborn_programs(), p);
    if kept.contains(p) {
        parent.lemma_filter_contains_rev(keep, p);
    }
    if parent.contains(p) && keep(p) {
        let k = choose|k: int| 0 <= k < parent.len() && parent[k] == p;
        parent.lemma_filter_contains(keep, k);
    }
}

/// Growth never sets a settlement back: with at least as many people,
/// shelters and civic structures, its stage is at least as high.
pub proof fn lemma_stage_monotone(n1: nat, s1: nat, c1: nat, n2: nat, s2: nat, c2: nat)
    requires
        n1 <= n2,
        s1 <= s2,
        c1 <= c2,
    ensures
        stage_level(n1, s1, c1) <= stage_level(n2, s2, c2),
{
}

} // verus!
