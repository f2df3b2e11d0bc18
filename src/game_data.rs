use vstd::prelude::*;

verus! {

/// A game location with its own catch rate, cooldown penalty and economy.
#[derive(Debug, Clone, Copy, PartialEq, Eq, Hash, Structural)]
pub enum Biome {
    River,
    Volcanic,
    Ocean,
    Sky,
    Space,
    Alien,
}

#[derive(Debug, Clone, Copy, PartialEq, Eq, Hash, Structural)]
pub enum RodType {
    Plastic,
    Improved,
    Steel,
    Fiberglass,
    Heavy,
    Alloy,
    Lava,
    Magma,
    Oceanium,
    Golden,
    Superium,
    Infinity,
    Floating,
    Sky,
    Meteor,
    Space,
    Alien,
    Supporter,
}

#[derive(Debug, Clone, Copy, PartialEq, Eq, Hash, Structural)]
pub enum BoatType {
    Rowboat,
    FishingBoat,
    Speedboat,
    Pontoon,
    Sailboat,
    Yacht,
    LuxuryYacht,
    CruiseShip,
    GoldBoat,
    SkyCruiser,
    Satellite,
    SpaceShuttle,
    Cruiser,
    AlienRaft,
    AlienSubmarine,
}

#[derive(Debug, Clone, Copy, PartialEq, Eq, Hash, Structural)]
pub enum BaitType {
    Worms,
    Leeches,
    Magnet,
    WiseBait,
    Fish,
    ArtifactMagnet,
    MagicBait,
    SupportBait,
}

#[derive(Debug, Clone, Copy, PartialEq, Eq, Hash, Structural)]
pub enum TreasureQuality {
    Common,
    Uncommon,
    Rare,
    Epic,
    Legendary,
    Artifact,
    VoteUnder100,
    VoteOver100,
    Super,
}

#[derive(Debug, Clone, Copy, PartialEq, Eq, Hash, Structural)]
pub enum FishRarity {
    Common,
    Special,
}

#[derive(Debug, Clone, Copy, PartialEq, Eq, Hash, Structural)]
pub enum UpgradeCurrency {
    Money,
    LavaFish,
    DiamondFish,
    GoldFish,
    EmeraldFish,
    AzureFish,
    Hooks,
}

/// A fish species: its sell price, the XP it gives, and where it lives.
#[derive(Debug, Clone)]
pub struct Fish {
    pub name: String,
    pub price: u64,
    pub xp: u64,
    pub biomes: Vec<Biome>,
}

/// A fishing rod. `expected_fish_x2` is twice the expected catch per cast
/// (the sum of the smallest and largest catch); chances are per-mille.
#[derive(Debug, Clone, Copy, PartialEq, Eq, Structural)]
pub struct Rod {
    pub price: u64,
    pub expected_fish_x2: u64,
    pub treasure_chance_permille: u64,
    pub treasure_quality_bonus_permille: u64,
}

/// A boat and how much it shortens the fishing cooldown.
#[derive(Debug, Clone, Copy, PartialEq, Eq, Structural)]
pub struct Boat {
    pub price: u64,
    pub cooldown_reduction_ms: u64,
}

/// Static figures of a biome. `unlock_cost` is 0 where the game charges
/// nothing known for moving there.
#[derive(Debug, Clone, Copy, PartialEq, Eq, Structural)]
pub struct BiomeStats {
    pub base_cooldown_ms: u64,
    pub cooldown_penalty_ms: u64,
    pub catch_rate_permille: u64,
    pub unlock_cost: u64,
}

/// A purchasable upgrade, with its highest level and the cost of that level.
#[derive(Debug, Clone)]
pub struct Upgrade {
    pub name: String,
    pub max_level: u32,
    pub max_cost: u64,
    pub currency: UpgradeCurrency,
    pub description: String,
}

pub const ROD_COUNT: usize = 18;
pub const BOAT_COUNT: usize = 15;
pub const BIOME_COUNT: usize = 6;
pub const FISH_COUNT: usize = 17;
pub const UPGRADE_COUNT: usize = 30;
/// Every boat shortens the cooldown by the same amount.
pub const BOAT_REDUCTION_MS: u64 = 250;
/// Base fishing cooldown of every biome.
pub const BASE_COOLDOWN_MS: u64 = 3000;

pub open spec fn rod_spec(r: RodType) -> Rod {
    match r {
        RodType::Plastic => Rod { price: 0, expected_fish_x2: 14, treasure_chance_permille: 50, treasure_quality_bonus_permille: 0 },
        RodType::Improved => Rod { price: 500, expected_fish_x2: 15, treasure_chance_permille: 50, treasure_quality_bonus_permille: 0 },
        RodType::Steel => Rod { price: 8000, expected_fish_x2: 13, treasure_chance_permille: 50, treasure_quality_bonus_permille: 0 },
        RodType::Fiberglass => Rod { price: 50000, expected_fish_x2: 17, treasure_chance_permille: 50, treasure_quality_bonus_permille: 0 },
        RodType::Heavy => Rod { price: 100000, expected_fish_x2: 15, treasure_chance_permille: 85, treasure_quality_bonus_permille: 50 },
        RodType::Alloy => Rod { price: 250000, expected_fish_x2: 17, treasure_chance_permille: 50, treasure_quality_bonus_permille: 0 },
        RodType::Lava => Rod { price: 1000000, expected_fish_x2: 18, treasure_chance_permille: 50, treasure_quality_bonus_permille: 0 },
        RodType::Magma => Rod { price: 10000000, expected_fish_x2: 23, treasure_chance_permille: 50, treasure_quality_bonus_permille: 0 },
        RodType::Oceanium => Rod { price: 75000000, expected_fish_x2: 25, treasure_chance_permille: 50, treasure_quality_bonus_permille: 0 },
        RodType::Golden => Rod { price: 120000000, expected_fish_x2: 10, treasure_chance_permille: 130, treasure_quality_bonus_permille: 0 },
        RodType::Superium => Rod { price: 250000000, expected_fish_x2: 26, treasure_chance_permille: 55, treasure_quality_bonus_permille: 0 },
        RodType::Infinity => Rod { price: 1000000000, expected_fish_x2: 33, treasure_chance_permille: 60, treasure_quality_bonus_permille: 0 },
        RodType::Floating => Rod { price: 50000000000, expected_fish_x2: 45, treasure_chance_permille: 65, treasure_quality_bonus_permille: 0 },
        RodType::Sky => Rod { price: 250000000000, expected_fish_x2: 64, treasure_chance_permille: 67, treasure_quality_bonus_permille: 0 },
        RodType::Meteor => Rod { price: 500000000000, expected_fish_x2: 44, treasure_chance_permille: 150, treasure_quality_bonus_permille: 300 },
        RodType::Space => Rod { price: 1000000000000, expected_fish_x2: 70, treasure_chance_permille: 68, treasure_quality_bonus_permille: 0 },
        RodType::Alien => Rod { price: 5000000000000, expected_fish_x2: 79, treasure_chance_permille: 70, treasure_quality_bonus_permille: 100 },
        RodType::Supporter => Rod { price: 0, expected_fish_x2: 17, treasure_chance_permille: 65, treasure_quality_bonus_permille: 100 },
    }
}

/// The static figures of a rod.
pub fn rod_data(r: RodType) -> (d: Rod)
    ensures
        d == rod_spec(r),
{
    match r {
        RodType::Plastic => Rod { price: 0, expected_fish_x2: 14, treasure_chance_permille: 50, treasure_quality_bonus_permille: 0 },
        RodType::Improved => Rod { price: 500, expected_fish_x2: 15, treasure_chance_permille: 50, treasure_quality_bonus_permille: 0 },
        RodType::Steel => Rod { price: 8000, expected_fish_x2: 13, treasure_chance_permille: 50, treasure_quality_bonus_permille: 0 },
        RodType::Fiberglass => Rod { price: 50000, expected_fish_x2: 17, treasure_chance_permille: 50, treasure_quality_bonus_permille: 0 },
        RodType::Heavy => Rod { price: 100000, expected_fish_x2: 15, treasure_chance_permille: 85, treasure_quality_bonus_permille: 50 },
        RodType::Alloy => Rod { price: 250000, expected_fish_x2: 17, treasure_chance_permille: 50, treasure_quality_bonus_permille: 0 },
        RodType::Lava => Rod { price: 1000000, expected_fish_x2: 18, treasure_chance_permille: 50, treasure_quality_bonus_permille: 0 },
        RodType::Magma => Rod { price: 10000000, expected_fish_x2: 23, treasure_chance_permille: 50, treasure_quality_bonus_permille: 0 },
        RodType::Oceanium => Rod { price: 75000000, expected_fish_x2: 25, treasure_chance_permille: 50, treasure_quality_bonus_permille: 0 },
        RodType::Golden => Rod { price: 120000000, expected_fish_x2: 10, treasure_chance_permille: 130, treasure_quality_bonus_permille: 0 },
        RodType::Superium => Rod { price: 250000000, expected_fish_x2: 26, treasure_chance_permille: 55, treasure_quality_bonus_permille: 0 },
        RodType::Infinity => Rod { price: 1000000000, expected_fish_x2: 33, treasure_chance_permille: 60, treasure_quality_bonus_permille: 0 },
        RodType::Floating => Rod { price: 50000000000, expected_fish_x2: 45, treasure_chance_permille: 65, treasure_quality_bonus_permille: 0 },
        RodType::Sky => Rod { price: 250000000000, expected_fish_x2: 64, treasure_chance_permille: 67, treasure_quality_bonus_permille: 0 },
        RodType::Meteor => Rod { price: 500000000000, expected_fish_x2: 44, treasure_chance_permille: 150, treasure_quality_bonus_permille: 300 },
        RodType::Space => Rod { price: 1000000000000, expected_fish_x2: 70, treasure_chance_permille: 68, treasure_quality_bonus_permille: 0 },
        RodType::Alien => Rod { price: 5000000000000, expected_fish_x2: 79, treasure_chance_permille: 70, treasure_quality_bonus_permille: 100 },
        RodType::Supporter => Rod { price: 0, expected_fish_x2: 17, treasure_chance_permille: 65, treasure_quality_bonus_permille: 100 },
    }
}

pub open spec fn rod_name_spec(r: RodType) -> Seq<char> {
    match r {
        RodType::Plastic => "Plastic Rod"@,
        RodType::Improved => "Improved Rod"@,
        RodType::Steel => "Steel Rod"@,
        RodType::Fiberglass => "Fiberglass Rod"@,
        RodType::Heavy => "Heavy Rod"@,
        RodType::Alloy => "Alloy Rod"@,
        RodType::Lava => "Lava Rod"@,
        RodType::Magma => "Magma Rod"@,
        RodType::Oceanium => "Oceanium Rod"@,
        RodType::Golden => "Golden Rod"@,
        RodType::Superium => "Superium Rod"@,
        RodType::Infinity => "Infinity Rod"@,
        RodType::Floating => "Floating Rod"@,
        RodType::Sky => "Sky Rod"@,
        RodType::Meteor => "Meteor Rod"@,
        RodType::Space => "Space Rod"@,
        RodType::Alien => "Alien Rod"@,
        RodType::Supporter => "Supporter Rod"@,
    }
}

/// The display name of a rod.
pub fn rod_name(r: RodType) -> (s: &'static str)
    ensures
        s@ == rod_name_spec(r),
{
    match r {
        RodType::Plastic => "Plastic Rod",
        RodType::Improved => "Improved Rod",
        RodType::Steel => "Steel Rod",
        RodType::Fiberglass => "Fiberglass Rod",
        RodType::Heavy => "Heavy Rod",
        RodType::Alloy => "Alloy Rod",
        RodType::Lava => "Lava Rod",
        RodType::Magma => "Magma Rod",
        RodType::Oceanium => "Oceanium Rod",
        RodType::Golden => "Golden Rod",
        RodType::Superium => "Superium Rod",
        RodType::Infinity => "Infinity Rod",
        RodType::Floating => "Floating Rod",
        RodType::Sky => "Sky Rod",
        RodType::Meteor => "Meteor Rod",
        RodType::Space => "Space Rod",
        RodType::Alien => "Alien Rod",
        RodType::Supporter => "Supporter Rod",
    }
}

/// The rods in catalogue order.
pub open spec fn rod_at_spec(i: int) -> RodType {
    if i == 0 {
        RodType::Plastic
    } else if i == 1 {
        RodType::Improved
    } else if i == 2 {
        RodType::Steel
    } else if i == 3 {
        RodType::Fiberglass
    } else if i == 4 {
        RodType::Heavy
    } else if i == 5 {
        RodType::Alloy
    } else if i == 6 {
        RodType::Lava
    } else if i == 7 {
        RodType::Magma
    } else if i == 8 {
        RodType::Oceanium
    } else if i == 9 {
        RodType::Golden
    } else if i == 10 {
        RodType::Superium
    } else if i == 11 {
        RodType::Infinity
    } else if i == 12 {
        RodType::Floating
    } else if i == 13 {
        RodType::Sky
    } else if i == 14 {
        RodType::Meteor
    } else if i == 15 {
        RodType::Space
    } else if i == 16 {
        RodType::Alien
    } else {
        RodType::Supporter
    }
}

pub fn rod_at(i: usize) -> (r: RodType)
    requires
        i < ROD_COUNT,
    ensures
        r == rod_at_spec(i as int),
{
    if i == 0 {
        RodType::Plastic
    } else if i == 1 {
        RodType::Improved
    } else if i == 2 {
        RodType::Steel
    } else if i == 3 {
        RodType::Fiberglass
    } else if i == 4 {
        RodType::Heavy
    } else if i == 5 {
        RodType::Alloy
    } else if i == 6 {
        RodType::Lava
    } else if i == 7 {
        RodType::Magma
    } else if i == 8 {
        RodType::Oceanium
    } else if i == 9 {
        RodType::Golden
    } else if i == 10 {
        RodType::Superium
    } else if i == 11 {
        RodType::Infinity
    } else if i == 12 {
        RodType::Floating
    } else if i == 13 {
        RodType::Sky
    } else if i == 14 {
        RodType::Meteor
    } else if i == 15 {
        RodType::Space
    } else if i == 16 {
        RodType::Alien
    } else {
        RodType::Supporter
    }
}

pub open spec fn boat_spec(b: BoatType) -> Boat {
    match b {
        BoatType::Rowboat => Boat { price: 5000, cooldown_reduction_ms: BOAT_REDUCTION_MS },
        BoatType::FishingBoat => Boat { price: 25000, cooldown_reduction_ms: BOAT_REDUCTION_MS },
        BoatType::Speedboat => Boat { price: 100000, cooldown_reduction_ms: BOAT_REDUCTION_MS },
        BoatType::Pontoon => Boat { price: 250000, cooldown_reduction_ms: BOAT_REDUCTION_MS },
        BoatType::Sailboat => Boat { price: 1000000, cooldown_reduction_ms: BOAT_REDUCTION_MS },
        BoatType::Yacht => Boat { price: 20000000, cooldown_reduction_ms: BOAT_REDUCTION_MS },
        BoatType::LuxuryYacht => Boat { price: 100000000, cooldown_reduction_ms: BOAT_REDUCTION_MS },
        BoatType::CruiseShip => Boat { price: 500000000, cooldown_reduction_ms: BOAT_REDUCTION_MS },
        BoatType::GoldBoat => Boat { price: 2500000000, cooldown_reduction_ms: BOAT_REDUCTION_MS },
        BoatType::SkyCruiser => Boat { price: 10000000000, cooldown_reduction_ms: BOAT_REDUCTION_MS },
        BoatType::Satellite => Boat { price: 50000000000, cooldown_reduction_ms: BOAT_REDUCTION_MS },
        BoatType::SpaceShuttle => Boat { price: 250000000000, cooldown_reduction_ms: BOAT_REDUCTION_MS },
        BoatType::Cruiser => Boat { price: 1000000000000, cooldown_reduction_ms: BOAT_REDUCTION_MS },
        BoatType::AlienRaft => Boat { price: 2500000000000, cooldown_reduction_ms: BOAT_REDUCTION_MS },
        BoatType::AlienSubmarine => Boat { price: 5000000000000, cooldown_reduction_ms: BOAT_REDUCTION_MS },
    }
}

/// The static figures of a boat.
pub fn boat_data(b: BoatType) -> (d: Boat)
    ensures
        d == boat_spec(b),
{
    match b {
        BoatType::Rowboat => Boat { price: 5000, cooldown_reduction_ms: BOAT_REDUCTION_MS },
        BoatType::FishingBoat => Boat { price: 25000, cooldown_reduction_ms: BOAT_REDUCTION_MS },
        BoatType::Speedboat => Boat { price: 100000, cooldown_reduction_ms: BOAT_REDUCTION_MS },
        BoatType::Pontoon => Boat { price: 250000, cooldown_reduction_ms: BOAT_REDUCTION_MS },
        BoatType::Sailboat => Boat { price: 1000000, cooldown_reduction_ms: BOAT_REDUCTION_MS },
        BoatType::Yacht => Boat { price: 20000000, cooldown_reduction_ms: BOAT_REDUCTION_MS },
        BoatType::LuxuryYacht => Boat { price: 100000000, cooldown_reduction_ms: BOAT_REDUCTION_MS },
        BoatType::CruiseShip => Boat { price: 500000000, cooldown_reduction_ms: BOAT_REDUCTION_MS },
        BoatType::GoldBoat => Boat { price: 2500000000, cooldown_reduction_ms: BOAT_REDUCTION_MS },
        BoatType::SkyCruiser => Boat { price: 10000000000, cooldown_reduction_ms: BOAT_REDUCTION_MS },
        BoatType::Satellite => Boat { price: 50000000000, cooldown_reduction_ms: BOAT_REDUCTION_MS },
        BoatType::SpaceShuttle => Boat { price: 250000000000, cooldown_reduction_ms: BOAT_REDUCTION_MS },
        BoatType::Cruiser => Boat { price: 1000000000000, cooldown_reduction_ms: BOAT_REDUCTION_MS },
        BoatType::AlienRaft => Boat { price: 2500000000000, cooldown_reduction_ms: BOAT_REDUCTION_MS },
        BoatType::AlienSubmarine => Boat { price: 5000000000000, cooldown_reduction_ms: BOAT_REDUCTION_MS },
    }
}

pub open spec fn boat_name_spec(b: BoatType) -> Seq<char> {
    match b {
        BoatType::Rowboat => "Rowboat"@,
        BoatType::FishingBoat => "Fishing Boat"@,
        BoatType::Speedboat => "Speedboat"@,
        BoatType::Pontoon => "Pontoon"@,
        BoatType::Sailboat => "Sailboat"@,
        BoatType::Yacht => "Yacht"@,
        BoatType::LuxuryYacht => "Luxury Yacht"@,
        BoatType::CruiseShip => "Cruise Ship"@,
        BoatType::GoldBoat => "Gold Boat"@,
        BoatType::SkyCruiser => "Sky Cruiser"@,
        BoatType::Satellite => "Satellite"@,
        BoatType::SpaceShuttle => "Space Shuttle"@,
        BoatType::Cruiser => "Cruiser"@,
        BoatType::AlienRaft => "Alien Raft"@,
        BoatType::AlienSubmarine => "Alien Submarine"@,
    }
}

/// The display name of a boat.
pub fn boat_name(b: BoatType) -> (s: &'static str)
    ensures
        s@ == boat_name_spec(b),
{
    match b {
        BoatType::Rowboat => "Rowboat",
        BoatType::FishingBoat => "Fishing Boat",
        BoatType::Speedboat => "Speedboat",
        BoatType::Pontoon => "Pontoon",
        BoatType::Sailboat => "Sailboat",
        BoatType::Yacht => "Yacht",
        BoatType::LuxuryYacht => "Luxury Yacht",
        BoatType::CruiseShip => "Cruise Ship",
        BoatType::GoldBoat => "Gold Boat",
        BoatType::SkyCruiser => "Sky Cruiser",
        BoatType::Satellite => "Satellite",
        BoatType::SpaceShuttle => "Space Shuttle",
        BoatType::Cruiser => "Cruiser",
        BoatType::AlienRaft => "Alien Raft",
        BoatType::AlienSubmarine => "Alien Submarine",
    }
}

/// The boats in catalogue order.
pub open spec fn boat_at_spec(i: int) -> BoatType {
    if i == 0 {
        BoatType::Rowboat
    } else if i == 1 {
        BoatType::FishingBoat
    } else if i == 2 {
        BoatType::Speedboat
    } else if i == 3 {
        BoatType::Pontoon
    } else if i == 4 {
        BoatType::Sailboat
    } else if i == 5 {
        BoatType::Yacht
    } else if i == 6 {
        BoatType::LuxuryYacht
    } else if i == 7 {
        BoatType::CruiseShip
    } else if i == 8 {
        BoatType::GoldBoat
    } else if i == 9 {
        BoatType::SkyCruiser
    } else if i == 10 {
        BoatType::Satellite
    } else if i == 11 {
        BoatType::SpaceShuttle
    } else if i == 12 {
        BoatType::Cruiser
    } else if i == 13 {
        BoatType::AlienRaft
    } else {
        BoatType::AlienSubmarine
    }
}

pub fn boat_at(i: usize) -> (b: BoatType)
    requires
        i < BOAT_COUNT,
    ensures
        b == boat_at_spec(i as int),
{
    if i == 0 {
        BoatType::Rowboat
    } else if i == 1 {
        BoatType::FishingBoat
    } else if i == 2 {
        BoatType::Speedboat
    } else if i == 3 {
        BoatType::Pontoon
    } else if i == 4 {
        BoatType::Sailboat
    } else if i == 5 {
        BoatType::Yacht
    } else if i == 6 {
        BoatType::LuxuryYacht
    } else if i == 7 {
        BoatType::CruiseShip
    } else if i == 8 {
        BoatType::GoldBoat
    } else if i == 9 {
        BoatType::SkyCruiser
    } else if i == 10 {
        BoatType::Satellite
    } else if i == 11 {
        BoatType::SpaceShuttle
    } else if i == 12 {
        BoatType::Cruiser
    } else if i == 13 {
        BoatType::AlienRaft
    } else {
        BoatType::AlienSubmarine
    }
}

pub open spec fn biome_spec(b: Biome) -> BiomeStats {
    match b {
        Biome::River => BiomeStats { base_cooldown_ms: BASE_COOLDOWN_MS, cooldown_penalty_ms: 0, catch_rate_permille: 1000, unlock_cost: 0 },
        Biome::Volcanic => BiomeStats { base_cooldown_ms: BASE_COOLDOWN_MS, cooldown_penalty_ms: 500, catch_rate_permille: 600, unlock_cost: 25000 },
        Biome::Ocean => BiomeStats { base_cooldown_ms: BASE_COOLDOWN_MS, cooldown_penalty_ms: 1000, catch_rate_permille: 300, unlock_cost: 0 },
        Biome::Sky => BiomeStats { base_cooldown_ms: BASE_COOLDOWN_MS, cooldown_penalty_ms: 2000, catch_rate_permille: 120, unlock_cost: 0 },
        Biome::Space => BiomeStats { base_cooldown_ms: BASE_COOLDOWN_MS, cooldown_penalty_ms: 3000, catch_rate_permille: 65, unlock_cost: 0 },
        Biome::Alien => BiomeStats { base_cooldown_ms: BASE_COOLDOWN_MS, cooldown_penalty_ms: 4000, catch_rate_permille: 30, unlock_cost: 0 },
    }
}

/// The static figures of a biome.
pub fn biome_data(b: Biome) -> (d: BiomeStats)
    ensures
        d == biome_spec(b),
{
    match b {
        Biome::River => BiomeStats { base_cooldown_ms: BASE_COOLDOWN_MS, cooldown_penalty_ms: 0, catch_rate_permille: 1000, unlock_cost: 0 },
        Biome::Volcanic => BiomeStats { base_cooldown_ms: BASE_COOLDOWN_MS, cooldown_penalty_ms: 500, catch_rate_permille: 600, unlock_cost: 25000 },
        Biome::Ocean => BiomeStats { base_cooldown_ms: BASE_COOLDOWN_MS, cooldown_penalty_ms: 1000, catch_rate_permille: 300, unlock_cost: 0 },
        Biome::Sky => BiomeStats { base_cooldown_ms: BASE_COOLDOWN_MS, cooldown_penalty_ms: 2000, catch_rate_permille: 120, unlock_cost: 0 },
        Biome::Space => BiomeStats { base_cooldown_ms: BASE_COOLDOWN_MS, cooldown_penalty_ms: 3000, catch_rate_permille: 65, unlock_cost: 0 },
        Biome::Alien => BiomeStats { base_cooldown_ms: BASE_COOLDOWN_MS, cooldown_penalty_ms: 4000, catch_rate_permille: 30, unlock_cost: 0 },
    }
}

pub open spec fn biome_name_spec(b: Biome) -> Seq<char> {
    match b {
        Biome::River => "River"@,
        Biome::Volcanic => "Volcanic"@,
        Biome::Ocean => "Ocean"@,
        Biome::Sky => "Sky"@,
        Biome::Space => "Space"@,
        Biome::Alien => "Alien"@,
    }
}

/// The display name of a biome.
pub fn biome_name(b: Biome) -> (s: &'static str)
    ensures
        s@ == biome_name_spec(b),
{
    match b {
        Biome::River => "River",
        Biome::Volcanic => "Volcanic",
        Biome::Ocean => "Ocean",
        Biome::Sky => "Sky",
        Biome::Space => "Space",
        Biome::Alien => "Alien",
    }
}

/// The biomes in the order in which the game unlocks them.
pub open spec fn biome_at_spec(i: int) -> Biome {
    if i == 0 {
        Biome::River
    } else if i == 1 {
        Biome::Volcanic
    } else if i == 2 {
        Biome::Ocean
    } else if i == 3 {
        Biome::Sky
    } else if i == 4 {
        Biome::Space
    } else {
        Biome::Alien
    }
}

pub fn biome_at(i: usize) -> (b: Biome)
    requires
        i < BIOME_COUNT,
    ensures
        b == biome_at_spec(i as int),
{
    if i == 0 {
        Biome::River
    } else if i == 1 {
        Biome::Volcanic
    } else if i == 2 {
        Biome::Ocean
    } else if i == 3 {
        Biome::Sky
    } else if i == 4 {
        Biome::Space
    } else {
        Biome::Alien
    }
}

pub open spec fn fish_name_spec(i: int) -> Seq<char> {
    if i == 0 {
        "Raw Fish"@
    } else if i == 1 {
        "Raw Salmon"@
    } else if i == 2 {
        "Cod"@
    } else if i == 3 {
        "Tropical Fish"@
    } else if i == 4 {
        "Pufferfish"@
    } else if i == 5 {
        "Fiery Pufferfish"@
    } else if i == 6 {
        "Hot Cod"@
    } else if i == 7 {
        "Squid"@
    } else if i == 8 {
        "Turtle"@
    } else if i == 9 {
        "Dolphin"@
    } else if i == 10 {
        "Guardian"@
    } else if i == 11 {
        "Emerald Squid"@
    } else if i == 12 {
        "Rainbow Fish"@
    } else if i == 13 {
        "Space Fish"@
    } else if i == 14 {
        "Galactic Crab"@
    } else if i == 15 {
        "Shark"@
    } else {
        "Alien Fish"@
    }
}

/// The name of the `i`-th fish of the catalogue.
pub fn fish_name(i: usize) -> (s: &'static str)
    requires
        i < FISH_COUNT,
    ensures
        s@ == fish_name_spec(i as int),
{
    if i == 0 {
        "Raw Fish"
    } else if i == 1 {
        "Raw Salmon"
    } else if i == 2 {
        "Cod"
    } else if i == 3 {
        "Tropical Fish"
    } else if i == 4 {
        "Pufferfish"
    } else if i == 5 {
        "Fiery Pufferfish"
    } else if i == 6 {
        "Hot Cod"
    } else if i == 7 {
        "Squid"
    } else if i == 8 {
        "Turtle"
    } else if i == 9 {
        "Dolphin"
    } else if i == 10 {
        "Guardian"
    } else if i == 11 {
        "Emerald Squid"
    } else if i == 12 {
        "Rainbow Fish"
    } else if i == 13 {
        "Space Fish"
    } else if i == 14 {
        "Galactic Crab"
    } else if i == 15 {
        "Shark"
    } else {
        "Alien Fish"
    }
}

pub open spec fn fish_price_spec(i: int) -> u64 {
    if i == 0 {
        1
    } else if i == 1 {
        3
    } else if i == 2 {
        10
    } else if i == 3 {
        50
    } else if i == 4 {
        150
    } else if i == 5 {
        250
    } else if i == 6 {
        500
    } else if i == 7 {
        1200
    } else if i == 8 {
        4000
    } else if i == 9 {
        20000
    } else if i == 10 {
        29000
    } else if i == 11 {
        42000
    } else if i == 12 {
        125000
    } else if i == 13 {
        200000
    } else if i == 14 {
        600000
    } else if i == 15 {
        2000000
    } else {
        5000000
    }
}

/// The sell price of the `i`-th fish of the catalogue.
pub fn fish_price(i: usize) -> (p: u64)
    requires
        i < FISH_COUNT,
    ensures
        p == fish_price_spec(i as int),
{
    if i == 0 {
        1
    } else if i == 1 {
        3
    } else if i == 2 {
        10
    } else if i == 3 {
        50
    } else if i == 4 {
        150
    } else if i == 5 {
        250
    } else if i == 6 {
        500
    } else if i == 7 {
        1200
    } else if i == 8 {
        4000
    } else if i == 9 {
        20000
    } else if i == 10 {
        29000
    } else if i == 11 {
        42000
    } else if i == 12 {
        125000
    } else if i == 13 {
        200000
    } else if i == 14 {
        600000
    } else if i == 15 {
        2000000
    } else {
        5000000
    }
}

pub open spec fn fish_xp_spec(i: int) -> u64 {
    if i == 0 {
        1
    } else if i == 1 {
        2
    } else if i == 2 {
        5
    } else if i == 3 {
        10
    } else if i == 4 {
        25
    } else if i == 5 {
        50
    } else if i == 6 {
        100
    } else if i == 7 {
        175
    } else if i == 8 {
        400
    } else if i == 9 {
        800
    } else if i == 10 {
        1100
    } else if i == 11 {
        1900
    } else if i == 12 {
        4800
    } else if i == 13 {
        8000
    } else if i == 14 {
        15000
    } else if i == 15 {
        35000
    } else {
        65000
    }
}

pub fn fish_xp(i: usize) -> (p: u64)
    requires
        i < FISH_COUNT,
    ensures
        p == fish_xp_spec(i as int),
{
    if i == 0 {
        1
    } else if i == 1 {
        2
    } else if i == 2 {
        5
    } else if i == 3 {
        10
    } else if i == 4 {
        25
    } else if i == 5 {
        50
    } else if i == 6 {
        100
    } else if i == 7 {
        175
    } else if i == 8 {
        400
    } else if i == 9 {
        800
    } else if i == 10 {
        1100
    } else if i == 11 {
        1900
    } else if i == 12 {
        4800
    } else if i == 13 {
        8000
    } else if i == 14 {
        15000
    } else if i == 15 {
        35000
    } else {
        65000
    }
}

/// Whether the `i`-th fish of the catalogue lives in biome `b`.
pub open spec fn fish_lives_in_spec(i: int, b: Biome) -> bool {
    if i == 0 {
        b == Biome::River
    } else if i == 1 {
        b == Biome::River || b == Biome::Volcanic || b == Biome::Space
    } else if i == 2 {
        b == Biome::River || b == Biome::Volcanic
    } else if i == 3 {
        b == Biome::River || b == Biome::Volcanic || b == Biome::Ocean
    } else if i == 4 {
        b == Biome::River || b == Biome::Ocean
    } else if i == 5 {
        b == Biome::Volcanic
    } else if i == 6 {
        b == Biome::Volcanic
    } else if i == 7 {
        b == Biome::Ocean || b == Biome::Sky
    } else if i == 8 {
        b == Biome::Ocean
    } else if i == 9 {
        b == Biome::Ocean
    } else if i == 10 {
        b == Biome::Sky
    } else if i == 11 {
        b == Biome::Sky || b == Biome::Alien
    } else if i == 12 {
        b == Biome::Sky || b == Biome::Space || b == Biome::Alien
    } else if i == 13 {
        b == Biome::Space || b == Biome::Alien
    } else if i == 14 {
        b == Biome::Space
    } else if i == 15 {
        b == Biome::Alien
    } else {
        b == Biome::Alien
    }
}

pub fn fish_lives_in(i: usize, b: Biome) -> (r: bool)
    requires
        i < FISH_COUNT,
    ensures
        r == fish_lives_in_spec(i as int, b),
{
    if i == 0 {
        b == Biome::River
    } else if i == 1 {
        b == Biome::River || b == Biome::Volcanic || b == Biome::Space
    } else if i == 2 {
        b == Biome::River || b == Biome::Volcanic
    } else if i == 3 {
        b == Biome::River || b == Biome::Volcanic || b == Biome::Ocean
    } else if i == 4 {
        b == Biome::River || b == Biome::Ocean
    } else if i == 5 {
        b == Biome::Volcanic
    } else if i == 6 {
        b == Biome::Volcanic
    } else if i == 7 {
        b == Biome::Ocean || b == Biome::Sky
    } else if i == 8 {
        b == Biome::Ocean
    } else if i == 9 {
        b == Biome::Ocean
    } else if i == 10 {
        b == Biome::Sky
    } else if i == 11 {
        b == Biome::Sky || b == Biome::Alien
    } else if i == 12 {
        b == Biome::Sky || b == Biome::Space || b == Biome::Alien
    } else if i == 13 {
        b == Biome::Space || b == Biome::Alien
    } else if i == 14 {
        b == Biome::Space
    } else if i == 15 {
        b == Biome::Alien
    } else {
        b == Biome::Alien
    }
}

/// The `i`-th fish of the catalogue as a record.
pub fn fish_at(i: usize) -> (f: Fish)
    requires
        i < FISH_COUNT,
    ensures
        f.name@ == fish_name_spec(i as int),
        f.price == fish_price_spec(i as int),
        f.xp == fish_xp_spec(i as int),
        forall|k: int| 0 <= k < f.biomes@.len() ==> fish_lives_in_spec(i as int, #[trigger] f.biomes@[k]),
        forall|b: Biome| fish_lives_in_spec(i as int, b) ==> #[trigger] f.biomes@.contains(b),
{
    let mut biomes: Vec<Biome> = Vec::new();
    let mut k: usize = 0;
    while k < BIOME_COUNT
        invariant
            k <= BIOME_COUNT,
            i < FISH_COUNT,
            forall|j: int| 0 <= j < biomes@.len() ==> fish_lives_in_spec(i as int, #[trigger] biomes@[j]),
            forall|j: int| 0 <= j < k && fish_lives_in_spec(i as int, biome_at_spec(j)) ==> #[trigger] biomes@.contains(biome_at_spec(j)),
        decreases BIOME_COUNT - k,
    {
        let b = biome_at(k);
        let ghost before = biomes@;
        if fish_lives_in(i, b) {
            biomes.push(b);
            assert(biomes@[before.len() as int] == b);
        }
        assert forall|j: int| 0 <= j < k + 1 && fish_lives_in_spec(i as int, biome_at_spec(j)) implies #[trigger] biomes@.contains(biome_at_spec(j)) by {
            if j < k {
                assert(before.contains(biome_at_spec(j)));
                let t = choose|t: int| 0 <= t < before.len() && before[t] == biome_at_spec(j);
                assert(biomes@[t] == before[t]);
            } else {
                assert(biomes@[before.len() as int] == biome_at_spec(j));
            }
        }
        k = k + 1;
    }
    assert forall|b: Biome| fish_lives_in_spec(i as int, b) implies #[trigger] biomes@.contains(b) by {
        let j: int = match b {
            Biome::River => 0,
            Biome::Volcanic => 1,
            Biome::Ocean => 2,
            Biome::Sky => 3,
            Biome::Space => 4,
            Biome::Alien => 5,
        };
        assert(biome_at_spec(j) == b);
    }
    Fish { name: String::from_str(fish_name(i)), price: fish_price(i), xp: fish_xp(i), biomes }
}

pub open spec fn upgrade_currency_spec(i: int) -> UpgradeCurrency {
    if i == 0 {
        UpgradeCurrency::Money
    } else if i == 1 {
        UpgradeCurrency::Money
    } else if i == 2 {
        UpgradeCurrency::Money
    } else if i == 3 {
        UpgradeCurrency::Money
    } else if i == 4 {
        UpgradeCurrency::Money
    } else if i == 5 {
        UpgradeCurrency::Money
    } else if i == 6 {
        UpgradeCurrency::Money
    } else if i == 7 {
        UpgradeCurrency::Money
    } else if i == 8 {
        UpgradeCurrency::Money
    } else if i == 9 {
        UpgradeCurrency::LavaFish
    } else if i == 10 {
        UpgradeCurrency::DiamondFish
    } else if i == 11 {
        UpgradeCurrency::DiamondFish
    } else if i == 12 {
        UpgradeCurrency::DiamondFish
    } else if i == 13 {
        UpgradeCurrency::DiamondFish
    } else if i == 14 {
        UpgradeCurrency::DiamondFish
    } else if i == 15 {
        UpgradeCurrency::DiamondFish
    } else if i == 16 {
        UpgradeCurrency::GoldFish
    } else if i == 17 {
        UpgradeCurrency::EmeraldFish
    } else if i == 18 {
        UpgradeCurrency::LavaFish
    } else if i == 19 {
        UpgradeCurrency::AzureFish
    } else if i == 20 {
        UpgradeCurrency::AzureFish
    } else if i == 21 {
        UpgradeCurrency::AzureFish
    } else if i == 22 {
        UpgradeCurrency::AzureFish
    } else if i == 23 {
        UpgradeCurrency::AzureFish
    } else if i == 24 {
        UpgradeCurrency::Hooks
    } else if i == 25 {
        UpgradeCurrency::Hooks
    } else if i == 26 {
        UpgradeCurrency::Hooks
    } else if i == 27 {
        UpgradeCurrency::Hooks
    } else if i == 28 {
        UpgradeCurrency::Hooks
    } else {
        UpgradeCurrency::Hooks
    }
}

pub open spec fn upgrade_max_level_spec(i: int) -> u32 {
    if i == 0 {
        21
    } else if i == 1 {
        18
    } else if i == 2 {
        9
    } else if i == 3 {
        11
    } else if i == 4 {
        12
    } else if i == 5 {
        7
    } else if i == 6 {
        5
    } else if i == 7 {
        5
    } else if i == 8 {
        10
    } else if i == 9 {
        20
    } else if i == 10 {
        4
    } else if i == 11 {
        4
    } else if i == 12 {
        4
    } else if i == 13 {
        4
    } else if i == 14 {
        4
    } else if i == 15 {
        4
    } else if i == 16 {
        10
    } else if i == 17 {
        10
    } else if i == 18 {
        10
    } else if i == 19 {
        26
    } else if i == 20 {
        26
    } else if i == 21 {
        26
    } else if i == 22 {
        26
    } else if i == 23 {
        26
    } else if i == 24 {
        5
    } else if i == 25 {
        5
    } else if i == 26 {
        5
    } else if i == 27 {
        5
    } else if i == 28 {
        5
    } else {
        10
    }
}

pub open spec fn upgrade_max_cost_spec(i: int) -> u64 {
    if i == 0 {
        14902000
    } else if i == 1 {
        4058000
    } else if i == 2 {
        220500
    } else if i == 3 {
        6087000
    } else if i == 4 {
        777310000
    } else if i == 5 {
        521500
    } else if i == 6 {
        555550000
    } else if i == 7 {
        131100000
    } else if i == 8 {
        2990000
    } else if i == 9 {
        3360
    } else if i == 10 {
        385
    } else if i == 11 {
        385
    } else if i == 12 {
        385
    } else if i == 13 {
        385
    } else if i == 14 {
        395
    } else if i == 15 {
        385
    } else if i == 16 {
        4000
    } else if i == 17 {
        4400
    } else if i == 18 {
        3200
    } else if i == 19 {
        26
    } else if i == 20 {
        26
    } else if i == 21 {
        26
    } else if i == 22 {
        26
    } else if i == 23 {
        26
    } else if i == 24 {
        1050
    } else if i == 25 {
        1050
    } else if i == 26 {
        1050
    } else if i == 27 {
        1050
    } else if i == 28 {
        1050
    } else {
        1185
    }
}

pub open spec fn upgrade_name_spec(i: int) -> Seq<char> {
    if i == 0 {
        "Better Fish"@
    } else if i == 1 {
        "Salesman"@
    } else if i == 2 {
        "Bait Efficiency"@
    } else if i == 3 {
        "More Chests"@
    } else if i == 4 {
        "Worker Motivation"@
    } else if i == 5 {
        "Artifact Specialist"@
    } else if i == 6 {
        "Experienced"@
    } else if i == 7 {
        "Better Chests"@
    } else if i == 8 {
        "Better Dailies"@
    } else if i == 9 {
        "Fish Ovens"@
    } else if i == 10 {
        "Bait Lover"@
    } else if i == 11 {
        "Aquatic Expert"@
    } else if i == 12 {
        "Worker Extender"@
    } else if i == 13 {
        "Ultimate Salesman"@
    } else if i == 14 {
        "Highly Experienced"@
    } else if i == 15 {
        "Boost Booster"@
    } else if i == 16 {
        "Statistician"@
    } else if i == 17 {
        "Duplicator"@
    } else if i == 18 {
        "Charmer"@
    } else if i == 19 {
        "International Ties"@
    } else if i == 20 {
        "Business Education"@
    } else if i == 21 {
        "Fish Whisperer"@
    } else if i == 22 {
        "Ancient One"@
    } else if i == 23 {
        "Virtual Fisher"@
    } else if i == 24 {
        "Pet Helper"@
    } else if i == 25 {
        "Bait Helper"@
    } else if i == 26 {
        "Super Crates"@
    } else if i == 27 {
        "Worker Crates"@
    } else if i == 28 {
        "Fishing Frenzy"@
    } else {
        "Duplicator 2.0"@
    }
}

/// The `i`-th upgrade of the catalogue.
pub fn upgrade_at(i: usize) -> (u: Upgrade)
    requires
        i < UPGRADE_COUNT,
    ensures
        u.name@ == upgrade_name_spec(i as int),
        u.max_level == upgrade_max_level_spec(i as int),
        u.max_cost == upgrade_max_cost_spec(i as int),
        u.currency == upgrade_currency_spec(i as int),
{
    let (name, max_level, max_cost, currency, description): (&str, u32, u64, UpgradeCurrency, &str) = if i == 0 {
            ("Better Fish", 21, 14902000, UpgradeCurrency::Money, "Increases Fish Quality by 5%.")
        } else if i == 1 {
            ("Salesman", 18, 4058000, UpgradeCurrency::Money, "Increases sell price by 5% per upgrade.")
        } else if i == 2 {
            ("Bait Efficiency", 9, 220500, UpgradeCurrency::Money, "Lowers the chance of consuming bait by 5%.")
        } else if i == 3 {
            ("More Chests", 11, 6087000, UpgradeCurrency::Money, "Increases Treasure Chance by 5%.")
        } else if i == 4 {
            ("Worker Motivation", 12, 777310000, UpgradeCurrency::Money, "Increases Fish Catch from workers by 10%.")
        } else if i == 5 {
            ("Artifact Specialist", 7, 521500, UpgradeCurrency::Money, "Improves Treasure rewards by 10% excluding charms.")
        } else if i == 6 {
            ("Experienced", 5, 555550000, UpgradeCurrency::Money, "Increases XP Gain by 10%.")
        } else if i == 7 {
            ("Better Chests", 5, 131100000, UpgradeCurrency::Money, "Increases Treasure Quality by 10%.")
        } else if i == 8 {
            ("Better Dailies", 10, 2990000, UpgradeCurrency::Money, "Increases Daily Rewards items by 10%.")
        } else if i == 9 {
            ("Fish Ovens", 20, 3360, UpgradeCurrency::LavaFish, "Increases Sell Price by 5%.")
        } else if i == 10 {
            ("Bait Lover", 4, 385, UpgradeCurrency::DiamondFish, "Increases effectiveness of bait by 15%.")
        } else if i == 11 {
            ("Aquatic Expert", 4, 385, UpgradeCurrency::DiamondFish, "Increases Fish Catch by 5%.")
        } else if i == 12 {
            ("Worker Extender", 4, 385, UpgradeCurrency::DiamondFish, "Increases the length of Worker Boosts by 10%.")
        } else if i == 13 {
            ("Ultimate Salesman", 4, 385, UpgradeCurrency::DiamondFish, "Increases Sell Price by 15%.")
        } else if i == 14 {
            ("Highly Experienced", 4, 395, UpgradeCurrency::DiamondFish, "Increases XP Gain by 15%.")
        } else if i == 15 {
            ("Boost Booster", 4, 385, UpgradeCurrency::DiamondFish, "Increases Treasure Quality, Fish Quality, and Worker speed.")
        } else if i == 16 {
            ("Statistician", 10, 4000, UpgradeCurrency::GoldFish, "Increases all Multipliers by 2%.")
        } else if i == 17 {
            ("Duplicator", 10, 4400, UpgradeCurrency::EmeraldFish, "Increases chance to duplicate fish by 2%.")
        } else if i == 18 {
            ("Charmer", 10, 3200, UpgradeCurrency::LavaFish, "Increases Charms found by 2.5%.")
        } else if i == 19 {
            ("International Ties", 26, 26, UpgradeCurrency::AzureFish, "Increases all multipliers by 10%.")
        } else if i == 20 {
            ("Business Education", 26, 26, UpgradeCurrency::AzureFish, "Increases Sell Price by 40%.")
        } else if i == 21 {
            ("Fish Whisperer", 26, 26, UpgradeCurrency::AzureFish, "Increases Fish Catch by 25%.")
        } else if i == 22 {
            ("Ancient One", 26, 26, UpgradeCurrency::AzureFish, "Increases XP Gain by 35%.")
        } else if i == 23 {
            ("Virtual Fisher", 26, 26, UpgradeCurrency::AzureFish, "Increases Fish Quality, Sell Price, and XP Gain.")
        } else if i == 24 {
            ("Pet Helper", 5, 1050, UpgradeCurrency::Hooks, "Increases max Pet Level.")
        } else if i == 25 {
            ("Bait Helper", 5, 1050, UpgradeCurrency::Hooks, "Increases effectiveness of Bait.")
        } else if i == 26 {
            ("Super Crates", 5, 1050, UpgradeCurrency::Hooks, "Unlocks Super Crates.")
        } else if i == 27 {
            ("Worker Crates", 5, 1050, UpgradeCurrency::Hooks, "Unlocks Worker Crates.")
        } else if i == 28 {
            ("Fishing Frenzy", 5, 1050, UpgradeCurrency::Hooks, "Increases Worker fish speed.")
        } else {
            ("Duplicator 2.0", 10, 1185, UpgradeCurrency::Hooks, "Increases Duplication chance.")
        };
    Upgrade {
        name: String::from_str(name),
        max_level,
        max_cost,
        currency,
        description: String::from_str(description),
    }
}


/// A treasure chest's drop table; chances, multiplier and expected charm
/// count are per mille.
#[derive(Debug, Clone, Copy, PartialEq, Eq, Structural)]
pub struct TreasureDrop {
    pub quality: TreasureQuality,
    pub multiplier_permille: u64,
    pub chance_gold_fish: u64,
    pub chance_emerald_fish: u64,
    pub chance_lava_fish: u64,
    pub chance_diamond_fish: u64,
    pub chance_charm: u64,
    pub chance_money_xp: u64,
    pub chance_super_crate: u64,
    pub expected_charms_permille: u64,
}

pub open spec fn treasure_spec(q: TreasureQuality) -> TreasureDrop {
    match q {
        TreasureQuality::Common => TreasureDrop { quality: TreasureQuality::Common, multiplier_permille: 1000, chance_gold_fish: 150, chance_emerald_fish: 20, chance_lava_fish: 10, chance_diamond_fish: 0, chance_charm: 0, chance_money_xp: 820, chance_super_crate: 0, expected_charms_permille: 1000 },
        TreasureQuality::Uncommon => TreasureDrop { quality: TreasureQuality::Uncommon, multiplier_permille: 1000, chance_gold_fish: 250, chance_emerald_fish: 50, chance_lava_fish: 19, chance_diamond_fish: 10, chance_charm: 0, chance_money_xp: 671, chance_super_crate: 0, expected_charms_permille: 1000 },
        TreasureQuality::Rare => TreasureDrop { quality: TreasureQuality::Rare, multiplier_permille: 1400, chance_gold_fish: 380, chance_emerald_fish: 150, chance_lava_fish: 65, chance_diamond_fish: 60, chance_charm: 20, chance_money_xp: 325, chance_super_crate: 0, expected_charms_permille: 1000 },
        TreasureQuality::Epic => TreasureDrop { quality: TreasureQuality::Epic, multiplier_permille: 1700, chance_gold_fish: 250, chance_emerald_fish: 250, chance_lava_fish: 100, chance_diamond_fish: 150, chance_charm: 250, chance_money_xp: 0, chance_super_crate: 0, expected_charms_permille: 1000 },
        TreasureQuality::Legendary => TreasureDrop { quality: TreasureQuality::Legendary, multiplier_permille: 2200, chance_gold_fish: 150, chance_emerald_fish: 100, chance_lava_fish: 150, chance_diamond_fish: 200, chance_charm: 400, chance_money_xp: 0, chance_super_crate: 0, expected_charms_permille: 1000 },
        TreasureQuality::Artifact => TreasureDrop { quality: TreasureQuality::Artifact, multiplier_permille: 3000, chance_gold_fish: 50, chance_emerald_fish: 50, chance_lava_fish: 50, chance_diamond_fish: 100, chance_charm: 750, chance_money_xp: 0, chance_super_crate: 0, expected_charms_permille: 2000 },
        TreasureQuality::VoteUnder100 => TreasureDrop { quality: TreasureQuality::VoteUnder100, multiplier_permille: 5000, chance_gold_fish: 100, chance_emerald_fish: 400, chance_lava_fish: 0, chance_diamond_fish: 0, chance_charm: 500, chance_money_xp: 0, chance_super_crate: 0, expected_charms_permille: 1000 },
        TreasureQuality::VoteOver100 => TreasureDrop { quality: TreasureQuality::VoteOver100, multiplier_permille: 5000, chance_gold_fish: 0, chance_emerald_fish: 0, chance_lava_fish: 0, chance_diamond_fish: 500, chance_charm: 500, chance_money_xp: 0, chance_super_crate: 0, expected_charms_permille: 1000 },
        TreasureQuality::Super => TreasureDrop { quality: TreasureQuality::Super, multiplier_permille: 7500, chance_gold_fish: 0, chance_emerald_fish: 0, chance_lava_fish: 0, chance_diamond_fish: 0, chance_charm: 500, chance_money_xp: 50, chance_super_crate: 450, expected_charms_permille: 1000 },
    }
}

/// The drop table of a chest quality.
pub fn treasure_data(q: TreasureQuality) -> (d: TreasureDrop)
    ensures
        d == treasure_spec(q),
{
    match q {
        TreasureQuality::Common => TreasureDrop { quality: TreasureQuality::Common, multiplier_permille: 1000, chance_gold_fish: 150, chance_emerald_fish: 20, chance_lava_fish: 10, chance_diamond_fish: 0, chance_charm: 0, chance_money_xp: 820, chance_super_crate: 0, expected_charms_permille: 1000 },
        TreasureQuality::Uncommon => TreasureDrop { quality: TreasureQuality::Uncommon, multiplier_permille: 1000, chance_gold_fish: 250, chance_emerald_fish: 50, chance_lava_fish: 19, chance_diamond_fish: 10, chance_charm: 0, chance_money_xp: 671, chance_super_crate: 0, expected_charms_permille: 1000 },
        TreasureQuality::Rare => TreasureDrop { quality: TreasureQuality::Rare, multiplier_permille: 1400, chance_gold_fish: 380, chance_emerald_fish: 150, chance_lava_fish: 65, chance_diamond_fish: 60, chance_charm: 20, chance_money_xp: 325, chance_super_crate: 0, expected_charms_permille: 1000 },
        TreasureQuality::Epic => TreasureDrop { quality: TreasureQuality::Epic, multiplier_permille: 1700, chance_gold_fish: 250, chance_emerald_fish: 250, chance_lava_fish: 100, chance_diamond_fish: 150, chance_charm: 250, chance_money_xp: 0, chance_super_crate: 0, expected_charms_permille: 1000 },
        TreasureQuality::Legendary => TreasureDrop { quality: TreasureQuality::Legendary, multiplier_permille: 2200, chance_gold_fish: 150, chance_emerald_fish: 100, chance_lava_fish: 150, chance_diamond_fish: 200, chance_charm: 400, chance_money_xp: 0, chance_super_crate: 0, expected_charms_permille: 1000 },
        TreasureQuality::Artifact => TreasureDrop { quality: TreasureQuality::Artifact, multiplier_permille: 3000, chance_gold_fish: 50, chance_emerald_fish: 50, chance_lava_fish: 50, chance_diamond_fish: 100, chance_charm: 750, chance_money_xp: 0, chance_super_crate: 0, expected_charms_permille: 2000 },
        TreasureQuality::VoteUnder100 => TreasureDrop { quality: TreasureQuality::VoteUnder100, multiplier_permille: 5000, chance_gold_fish: 100, chance_emerald_fish: 400, chance_lava_fish: 0, chance_diamond_fish: 0, chance_charm: 500, chance_money_xp: 0, chance_super_crate: 0, expected_charms_permille: 1000 },
        TreasureQuality::VoteOver100 => TreasureDrop { quality: TreasureQuality::VoteOver100, multiplier_permille: 5000, chance_gold_fish: 0, chance_emerald_fish: 0, chance_lava_fish: 0, chance_diamond_fish: 500, chance_charm: 500, chance_money_xp: 0, chance_super_crate: 0, expected_charms_permille: 1000 },
        TreasureQuality::Super => TreasureDrop { quality: TreasureQuality::Super, multiplier_permille: 7500, chance_gold_fish: 0, chance_emerald_fish: 0, chance_lava_fish: 0, chance_diamond_fish: 0, chance_charm: 500, chance_money_xp: 50, chance_super_crate: 450, expected_charms_permille: 1000 },
    }
}

/// A bait; bonuses and the XP multiplier are per mille (1000 leaves XP
/// as it is), and may be negative.
#[derive(Debug, Clone)]
pub struct Bait {
    pub name: String,
    pub price: u64,
    pub fish_catch_bonus: i64,
    pub fish_quality_bonus: i64,
    pub treasure_chance_bonus: i64,
    pub treasure_quality_bonus: i64,
    pub xp_multiplier: i64,
    pub extra_fish_per_cast: u64,
}

/// The figures of a bait.
pub fn bait_data(b: BaitType) -> (r: Bait)
    ensures
        r.price == match b {
            BaitType::Worms => 4u64,
            BaitType::Leeches => 25u64,
            BaitType::Magnet => 25u64,
            BaitType::WiseBait => 35u64,
            BaitType::Fish => 70u64,
            BaitType::ArtifactMagnet => 75u64,
            BaitType::MagicBait => 250u64,
            BaitType::SupportBait => 500u64,
        },
{
    let (name, price, catch, quality, chance, tq, xp, extra): (&str, u64, i64, i64, i64, i64, i64, u64) = match b {
        BaitType::Worms => ("Worms", 4, 0, 0, 0, 0, 900, 2),
        BaitType::Leeches => ("Leeches", 25, 200, 200, 0, 0, 800, 3),
        BaitType::Magnet => ("Magnet", 25, -100, -100, 500, 0, 1200, 0),
        BaitType::WiseBait => ("Wise Bait", 35, 0, 0, 0, 0, 2500, 0),
        BaitType::Fish => ("Fish", 70, 500, 1000, 0, 0, 700, 1),
        BaitType::ArtifactMagnet => ("Artifact Magnet", 75, -300, -300, 400, 500, 1300, 0),
        BaitType::MagicBait => ("Magic Bait", 250, 1000, 500, 150, 150, 800, 2),
        BaitType::SupportBait => ("Support Bait", 500, 0, 0, 0, 0, 1000, 0),
    };
    Bait {
        name: String::from_str(name),
        price,
        fish_catch_bonus: catch,
        fish_quality_bonus: quality,
        treasure_chance_bonus: chance,
        treasure_quality_bonus: tq,
        xp_multiplier: xp,
        extra_fish_per_cast: extra,
    }
}

/// A pet; bonuses are per mille.
#[derive(Debug, Clone)]
pub struct Pet {
    pub name: String,
    pub catch_bonus: u64,
    pub xp_bonus: u64,
}

pub const PET_COUNT: usize = 3;

/// The `i`-th pet of the catalogue.
pub fn pet_at(i: usize) -> (r: Pet)
    requires
        i < PET_COUNT,
    ensures
        r.catch_bonus == if i == 0 { 50u64 } else if i == 1 { 100u64 } else { 150u64 },
{
    let (name, catch, xp): (&str, u64, u64) = if i == 0 {
        ("Dolphin", 50, 100)
    } else if i == 1 {
        ("Puffer", 100, 0)
    } else {
        ("Shark", 150, 50)
    };
    Pet { name: String::from_str(name), catch_bonus: catch, xp_bonus: xp }
}

/// A rod's catch multiplier in a biome, per mille: only the supporter rod
/// has one that differs from 1.
pub open spec fn rod_biome_multiplier_spec(r: RodType, b: Biome) -> u64 {
    if r == RodType::Supporter {
        match b {
            Biome::River => 1000,
            Biome::Volcanic => 1200,
            Biome::Ocean => 1400,
            Biome::Sky => 2000,
            Biome::Space => 3200,
            Biome::Alien => 4000,
        }
    } else {
        1000
    }
}

pub fn rod_biome_multiplier(r: RodType, b: Biome) -> (m: u64)
    ensures
        m == rod_biome_multiplier_spec(r, b),
        1000 <= m <= 4000,
{
    if r == RodType::Supporter {
        match b {
            Biome::River => 1000,
            Biome::Volcanic => 1200,
            Biome::Ocean => 1400,
            Biome::Sky => 2000,
            Biome::Space => 3200,
            Biome::Alien => 4000,
        }
    } else {
        1000
    }
}

} // verus!
