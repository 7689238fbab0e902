//! Kinds of entities, by the name that identifies each in text keys.

use vstd::prelude::*;

verus! {

/// A kind of entity.
#[derive(Debug, Clone, Copy, PartialEq, Eq, Hash, Structural)]
pub enum EntityType {
    Arrow,
    Bat,
    Blaze,
    Boat,
    Cat,
    Chicken,
    Cow,
    Creeper,
    DragonBreath,
    DroppedItem,
    Drowned,
    EndCrystal,
    EnderDragon,
    Enderman,
    ExperienceOrb,
    FishingHook,
    Ghast,
    HeartParticle,
    Horse,
    Husk,
    IronGolem,
    MagmaCube,
    Minecart,
    Pig,
    Piglin,
    Pillager,
    Ravager,
    RemotePlayer,
    Sheep,
    Shulker,
    Skeleton,
    Slime,
    Spider,
    SplashPotion,
    Squid,
    Villager,
    Witch,
    Wither,
    WitherSkeleton,
    WitherSkull,
    Wolf,
    Zombie,
}

impl EntityType {
    /// Name of the kind as written in the source (its `Debug` form).
    pub open spec fn spec_debug_name(self) -> Seq<char> {
        match self {
            EntityType::Arrow => "Arrow"@,
            EntityType::Bat => "Bat"@,
            EntityType::Blaze => "Blaze"@,
            EntityType::Boat => "Boat"@,
            EntityType::Cat => "Cat"@,
            EntityType::Chicken => "Chicken"@,
            EntityType::Cow => "Cow"@,
            EntityType::Creeper => "Creeper"@,
            EntityType::DragonBreath => "DragonBreath"@,
            EntityType::DroppedItem => "DroppedItem"@,
            EntityType::Drowned => "Drowned"@,
            EntityType::EndCrystal => "EndCrystal"@,
            EntityType::EnderDragon => "EnderDragon"@,
            EntityType::Enderman => "Enderman"@,
            EntityType::ExperienceOrb => "ExperienceOrb"@,
            EntityType::FishingHook => "FishingHook"@,
            EntityType::Ghast => "Ghast"@,
            EntityType::HeartParticle => "HeartParticle"@,
            EntityType::Horse => "Horse"@,
            EntityType::Husk => "Husk"@,
            EntityType::IronGolem => "IronGolem"@,
            EntityType::MagmaCube => "MagmaCube"@,
            EntityType::Minecart => "Minecart"@,
            EntityType::Pig => "Pig"@,
            EntityType::Piglin => "Piglin"@,
            EntityType::Pillager => "Pillager"@,
            EntityType::Ravager => "Ravager"@,
            EntityType::RemotePlayer => "RemotePlayer"@,
            EntityType::Sheep => "Sheep"@,
            EntityType::Shulker => "Shulker"@,
            EntityType::Skeleton => "Skeleton"@,
            EntityType::Slime => "Slime"@,
            EntityType::Spider => "Spider"@,
            EntityType::SplashPotion => "SplashPotion"@,
            EntityType::Squid => "Squid"@,
            EntityType::Villager => "Villager"@,
            EntityType::Witch => "Witch"@,
            EntityType::Wither => "Wither"@,
            EntityType::WitherSkeleton => "WitherSkeleton"@,
            EntityType::WitherSkull => "WitherSkull"@,
            EntityType::Wolf => "Wolf"@,
            EntityType::Zombie => "Zombie"@,
        }
    }

    /// Name of the kind as written in the source (its `Debug` form).
    pub fn debug_name(self) -> (r: &'static str)
        ensures
            r@ == self.spec_debug_name(),
    {
        match self {
            EntityType::Arrow => "Arrow",
            EntityType::Bat => "Bat",
            EntityType::Blaze => "Blaze",
            EntityType::Boat => "Boat",
            EntityType::Cat => "Cat",
            EntityType::Chicken => "Chicken",
            EntityType::Cow => "Cow",
            EntityType::Creeper => "Creeper",
            EntityType::DragonBreath => "DragonBreath",
            EntityType::DroppedItem => "DroppedItem",
            EntityType::Drowned => "Drowned",
            EntityType::EndCrystal => "EndCrystal",
            EntityType::EnderDragon => "EnderDragon",
            EntityType::Enderman => "Enderman",
            EntityType::ExperienceOrb => "ExperienceOrb",
            EntityType::FishingHook => "FishingHook",
            EntityType::Ghast => "Ghast",
            EntityType::HeartParticle => "HeartParticle",
            EntityType::Horse => "Horse",
            EntityType::Husk => "Husk",
            EntityType::IronGolem => "IronGolem",
            EntityType::MagmaCube => "MagmaCube",
            EntityType::Minecart => "Minecart",
            EntityType::Pig => "Pig",
            EntityType::Piglin => "Piglin",
            EntityType::Pillager => "Pillager",
            EntityType::Ravager => "Ravager",
            EntityType::RemotePlayer => "RemotePlayer",
            EntityType::Sheep => "Sheep",
            EntityType::Shulker => "Shulker",
            EntityType::Skeleton => "Skeleton",
            EntityType::Slime => "Slime",
            EntityType::Spider => "Spider",
            EntityType::SplashPotion => "SplashPotion",
            EntityType::Squid => "Squid",
            EntityType::Villager => "Villager",
            EntityType::Witch => "Witch",
            EntityType::Wither => "Wither",
            EntityType::WitherSkeleton => "WitherSkeleton",
            EntityType::WitherSkull => "WitherSkull",
            EntityType::Wolf => "Wolf",
            EntityType::Zombie => "Zombie",
        }
    }
}

} // verus!
