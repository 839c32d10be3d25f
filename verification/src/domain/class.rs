//! The character classes.

use vstd::prelude::*;

use crate::domain::realm::Realm;
use crate::domain::stat::Stat;

verus! {

/// The highest identifier that any class has.
pub const MAX_CLASS_ID: u16 = 59;

/// A character class. Each class belongs to one realm.
#[derive(Debug, Clone, Copy, PartialEq, Eq, Hash, Structural)]
pub enum Class {
    /// The paladin, a class of Albion.
    Paladin,
    /// The armsman, a class of Albion.
    Armsman,
    /// The scout, a class of Albion.
    Scout,
    /// The minstrel, a class of Albion.
    Minstrel,
    /// The theurgist, a class of Albion.
    Theurgist,
    /// The cleric, a class of Albion.
    Cleric,
    /// The wizard, a class of Albion.
    Wizard,
    /// The sorcerer, a class of Albion.
    Sorcerer,
    /// The infiltrator, a class of Albion.
    Infiltrator,
    /// The friar, a class of Albion.
    Friar,
    /// The mercenary, a class of Albion.
    Mercenary,
    /// The necromancer, a class of Albion.
    Necromancer,
    /// The cabalist, a class of Albion.
    Cabalist,
    /// The reaver, a class of Albion.
    Reaver,
    /// The heretic, a class of Albion.
    Heretic,
    /// The thane, a class of Midgard.
    Thane,
    /// The warrior, a class of Midgard.
    Warrior,
    /// The shadowblade, a class of Midgard.
    Shadowblade,
    /// The skald, a class of Midgard.
    Skald,
    /// The hunter, a class of Midgard.
    Hunter,
    /// The healer, a class of Midgard.
    Healer,
    /// The spiritmaster, a class of Midgard.
    Spiritmaster,
    /// The shaman, a class of Midgard.
    Shaman,
    /// The runemaster, a class of Midgard.
    Runemaster,
    /// The bonedancer, a class of Midgard.
    Bonedancer,
    /// The berserker, a class of Midgard.
    Berserker,
    /// The savage, a class of Midgard.
    Savage,
    /// The valkyrie, a class of Midgard.
    Valkyrie,
    /// The warlock, a class of Midgard.
    Warlock,
    /// The eldritch, a class of Hibernia.
    Eldritch,
    /// The enchanter, a class of Hibernia.
    Enchanter,
    /// The mentalist, a class of Hibernia.
    Mentalist,
    /// The blademaster, a class of Hibernia.
    Blademaster,
    /// The hero, a class of Hibernia.
    Hero,
    /// The champion, a class of Hibernia.
    Champion,
    /// The warden, a class of Hibernia.
    Warden,
    /// The druid, a class of Hibernia.
    Druid,
    /// The bard, a class of Hibernia.
    Bard,
    /// The nightshade, a class of Hibernia.
    Nightshade,
    /// The ranger, a class of Hibernia.
    Ranger,
    /// The animist, a class of Hibernia.
    Animist,
    /// The valewalker, a class of Hibernia.
    Valewalker,
    /// The banshee, a class of Hibernia.
    Banshee,
}

impl Class {
    /// The numeric identifier of the class.
    pub open spec fn spec_id(&self) -> i32 {
        match self {
            Class::Paladin => 1,
            Class::Armsman => 2,
            Class::Scout => 3,
            Class::Minstrel => 4,
            Class::Theurgist => 5,
            Class::Cleric => 6,
            Class::Wizard => 7,
            Class::Sorcerer => 8,
            Class::Infiltrator => 9,
            Class::Friar => 10,
            Class::Mercenary => 11,
            Class::Necromancer => 12,
            Class::Cabalist => 13,
            Class::Reaver => 19,
            Class::Heretic => 33,
            Class::Thane => 21,
            Class::Warrior => 22,
            Class::Shadowblade => 23,
            Class::Skald => 24,
            Class::Hunter => 25,
            Class::Healer => 26,
            Class::Spiritmaster => 27,
            Class::Shaman => 28,
            Class::Runemaster => 29,
            Class::Bonedancer => 30,
            Class::Berserker => 31,
            Class::Savage => 32,
            Class::Valkyrie => 34,
            Class::Warlock => 59,
            Class::Eldritch => 40,
            Class::Enchanter => 41,
            Class::Mentalist => 42,
            Class::Blademaster => 43,
            Class::Hero => 44,
            Class::Champion => 45,
            Class::Warden => 46,
            Class::Druid => 47,
            Class::Bard => 48,
            Class::Nightshade => 49,
            Class::Ranger => 50,
            Class::Animist => 55,
            Class::Valewalker => 56,
            Class::Banshee => 39,
        }
    }

    /// Returns the numeric identifier of the class.
    #[verifier::when_used_as_spec(spec_id)]
    pub fn id(&self) -> (id: i32)
        ensures
            id == self.spec_id(),
            1 <= id <= 59,
    {
        match self {
            Class::Paladin => 1,
            Class::Armsman => 2,
            Class::Scout => 3,
            Class::Minstrel => 4,
            Class::Theurgist => 5,
            Class::Cleric => 6,
            Class::Wizard => 7,
            Class::Sorcerer => 8,
            Class::Infiltrator => 9,
            Class::Friar => 10,
            Class::Mercenary => 11,
            Class::Necromancer => 12,
            Class::Cabalist => 13,
            Class::Reaver => 19,
            Class::Heretic => 33,
            Class::Thane => 21,
            Class::Warrior => 22,
            Class::Shadowblade => 23,
            Class::Skald => 24,
            Class::Hunter => 25,
            Class::Healer => 26,
            Class::Spiritmaster => 27,
            Class::Shaman => 28,
            Class::Runemaster => 29,
            Class::Bonedancer => 30,
            Class::Berserker => 31,
            Class::Savage => 32,
            Class::Valkyrie => 34,
            Class::Warlock => 59,
            Class::Eldritch => 40,
            Class::Enchanter => 41,
            Class::Mentalist => 42,
            Class::Blademaster => 43,
            Class::Hero => 44,
            Class::Champion => 45,
            Class::Warden => 46,
            Class::Druid => 47,
            Class::Bard => 48,
            Class::Nightshade => 49,
            Class::Ranger => 50,
            Class::Animist => 55,
            Class::Valewalker => 56,
            Class::Banshee => 39,
        }
    }

    /// Finds the class with identifier `id`, if there is one.
    pub fn from_repr(id: u16) -> (class: Option<Class>)
        ensures
            class == Self::spec_from_repr(id),
            match class {
                Some(c) => c.spec_id() == id,
                None => forall|c: Class| c.spec_id() != id,
            },
    {
        let class = match id {
            1u16 => Some(Class::Paladin),
            2u16 => Some(Class::Armsman),
            3u16 => Some(Class::Scout),
            4u16 => Some(Class::Minstrel),
            5u16 => Some(Class::Theurgist),
            6u16 => Some(Class::Cleric),
            7u16 => Some(Class::Wizard),
            8u16 => Some(Class::Sorcerer),
            9u16 => Some(Class::Infiltrator),
            10u16 => Some(Class::Friar),
            11u16 => Some(Class::Mercenary),
            12u16 => Some(Class::Necromancer),
            13u16 => Some(Class::Cabalist),
            19u16 => Some(Class::Reaver),
            33u16 => Some(Class::Heretic),
            21u16 => Some(Class::Thane),
            22u16 => Some(Class::Warrior),
            23u16 => Some(Class::Shadowblade),
            24u16 => Some(Class::Skald),
            25u16 => Some(Class::Hunter),
            26u16 => Some(Class::Healer),
            27u16 => Some(Class::Spiritmaster),
            28u16 => Some(Class::Shaman),
            29u16 => Some(Class::Runemaster),
            30u16 => Some(Class::Bonedancer),
            31u16 => Some(Class::Berserker),
            32u16 => Some(Class::Savage),
            34u16 => Some(Class::Valkyrie),
            59u16 => Some(Class::Warlock),
            40u16 => Some(Class::Eldritch),
            41u16 => Some(Class::Enchanter),
            42u16 => Some(Class::Mentalist),
            43u16 => Some(Class::Blademaster),
            44u16 => Some(Class::Hero),
            45u16 => Some(Class::Champion),
            46u16 => Some(Class::Warden),
            47u16 => Some(Class::Druid),
            48u16 => Some(Class::Bard),
            49u16 => Some(Class::Nightshade),
            50u16 => Some(Class::Ranger),
            55u16 => Some(Class::Animist),
            56u16 => Some(Class::Valewalker),
            39u16 => Some(Class::Banshee),
            _ => None,
        };
        proof {
            if let Some(found) = class {
                assert(found.spec_id() == id);
                let c = choose|c: Class| c.spec_id() == id;
                assert(c.spec_id() == id);
                assert(c == found);
            }
        }
        class
    }

    /// The one with identifier `id`, if there is one.
    pub open spec fn spec_from_repr(id: u16) -> Option<Class> {
        if exists|c: Class| c.spec_id() == id {
            Some(choose|c: Class| c.spec_id() == id)
        } else {
            None
        }
    }

    /// The realm that the class belongs to.
    pub open spec fn spec_realm(&self) -> Realm {
        match self {
            Class::Paladin
            | Class::Armsman
            | Class::Scout
            | Class::Minstrel
            | Class::Theurgist
            | Class::Cleric
            | Class::Wizard
            | Class::Sorcerer
            | Class::Infiltrator
            | Class::Friar
            | Class::Mercenary
            | Class::Necromancer
            | Class::Cabalist
            | Class::Reaver
            | Class::Heretic => Realm::Albion,
            Class::Thane
            | Class::Warrior
            | Class::Shadowblade
            | Class::Skald
            | Class::Hunter
            | Class::Healer
            | Class::Spiritmaster
            | Class::Shaman
            | Class::Runemaster
            | Class::Bonedancer
            | Class::Berserker
            | Class::Savage
            | Class::Valkyrie
            | Class::Warlock => Realm::Midgard,
            Class::Eldritch
            | Class::Enchanter
            | Class::Mentalist
            | Class::Blademaster
            | Class::Hero
            | Class::Champion
            | Class::Warden
            | Class::Druid
            | Class::Bard
            | Class::Nightshade
            | Class::Ranger
            | Class::Animist
            | Class::Valewalker
            | Class::Banshee => Realm::Hibernia,
        }
    }

    /// Returns the realm that the class belongs to, which is never `Realm::All`.
    pub fn realm(&self) -> (realm: &'static Realm)
        ensures
            *realm == self.spec_realm(),
            *realm != Realm::All,
    {
        match self {
            Class::Paladin
            | Class::Armsman
            | Class::Scout
            | Class::Minstrel
            | Class::Theurgist
            | Class::Cleric
            | Class::Wizard
            | Class::Sorcerer
            | Class::Infiltrator
            | Class::Friar
            | Class::Mercenary
            | Class::Necromancer
            | Class::Cabalist
            | Class::Reaver
            | Class::Heretic => &Realm::Albion,
            Class::Thane
            | Class::Warrior
            | Class::Shadowblade
            | Class::Skald
            | Class::Hunter
            | Class::Healer
            | Class::Spiritmaster
            | Class::Shaman
            | Class::Runemaster
            | Class::Bonedancer
            | Class::Berserker
            | Class::Savage
            | Class::Valkyrie
            | Class::Warlock => &Realm::Midgard,
            Class::Eldritch
            | Class::Enchanter
            | Class::Mentalist
            | Class::Blademaster
            | Class::Hero
            | Class::Champion
            | Class::Warden
            | Class::Druid
            | Class::Bard
            | Class::Nightshade
            | Class::Ranger
            | Class::Animist
            | Class::Valewalker
            | Class::Banshee => &Realm::Hibernia,
        }
    }

    /// The name under which the solver knows the class.
    pub open spec fn spec_name(&self) -> Seq<char> {
        match self {
            Class::Paladin => "paladin"@,
            Class::Armsman => "armsman"@,
            Class::Scout => "scout"@,
            Class::Minstrel => "minstrel"@,
            Class::Theurgist => "theurgist"@,
            Class::Cleric => "cleric"@,
            Class::Wizard => "wizard"@,
            Class::Sorcerer => "sorcerer"@,
            Class::Infiltrator => "infiltrator"@,
            Class::Friar => "friar"@,
            Class::Mercenary => "mercenary"@,
            Class::Necromancer => "necromancer"@,
            Class::Cabalist => "cabalist"@,
            Class::Reaver => "reaver"@,
            Class::Heretic => "heretic"@,
            Class::Thane => "thane"@,
            Class::Warrior => "warrior"@,
            Class::Shadowblade => "shadowblade"@,
            Class::Skald => "skald"@,
            Class::Hunter => "hunter"@,
            Class::Healer => "healer"@,
            Class::Spiritmaster => "spiritmaster"@,
            Class::Shaman => "shaman"@,
            Class::Runemaster => "runemaster"@,
            Class::Bonedancer => "bonedancer"@,
            Class::Berserker => "berserker"@,
            Class::Savage => "savage"@,
            Class::Valkyrie => "valkyrie"@,
            Class::Warlock => "warlock"@,
            Class::Eldritch => "eldritch"@,
            Class::Enchanter => "enchanter"@,
            Class::Mentalist => "mentalist"@,
            Class::Blademaster => "blademaster"@,
            Class::Hero => "hero"@,
            Class::Champion => "champion"@,
            Class::Warden => "warden"@,
            Class::Druid => "druid"@,
            Class::Bard => "bard"@,
            Class::Nightshade => "nightshade"@,
            Class::Ranger => "ranger"@,
            Class::Animist => "animist"@,
            Class::Valewalker => "valewalker"@,
            Class::Banshee => "banshee"@,
        }
    }

    /// Returns the name under which the solver knows the class: the class's
    /// name in lower case.
    pub fn name(&self) -> (name: &'static str)
        ensures
            name@ == self.spec_name(),
    {
        match self {
            Class::Paladin => "paladin",
            Class::Armsman => "armsman",
            Class::Scout => "scout",
            Class::Minstrel => "minstrel",
            Class::Theurgist => "theurgist",
            Class::Cleric => "cleric",
            Class::Wizard => "wizard",
            Class::Sorcerer => "sorcerer",
            Class::Infiltrator => "infiltrator",
            Class::Friar => "friar",
            Class::Mercenary => "mercenary",
            Class::Necromancer => "necromancer",
            Class::Cabalist => "cabalist",
            Class::Reaver => "reaver",
            Class::Heretic => "heretic",
            Class::Thane => "thane",
            Class::Warrior => "warrior",
            Class::Shadowblade => "shadowblade",
            Class::Skald => "skald",
            Class::Hunter => "hunter",
            Class::Healer => "healer",
            Class::Spiritmaster => "spiritmaster",
            Class::Shaman => "shaman",
            Class::Runemaster => "runemaster",
            Class::Bonedancer => "bonedancer",
            Class::Berserker => "berserker",
            Class::Savage => "savage",
            Class::Valkyrie => "valkyrie",
            Class::Warlock => "warlock",
            Class::Eldritch => "eldritch",
            Class::Enchanter => "enchanter",
            Class::Mentalist => "mentalist",
            Class::Blademaster => "blademaster",
            Class::Hero => "hero",
            Class::Champion => "champion",
            Class::Warden => "warden",
            Class::Druid => "druid",
            Class::Bard => "bard",
            Class::Nightshade => "nightshade",
            Class::Ranger => "ranger",
            Class::Animist => "animist",
            Class::Valewalker => "valewalker",
            Class::Banshee => "banshee",
        }
    }

    /// The attribute that the class casts from, for a class that casts.
    pub open spec fn spec_acuity_stat(&self) -> Option<Stat> {
        match self {
            Class::Theurgist
            | Class::Wizard
            | Class::Sorcerer
            | Class::Necromancer
            | Class::Cabalist
            | Class::Eldritch
            | Class::Enchanter
            | Class::Mentalist
            | Class::Champion
            | Class::Animist
            | Class::Valewalker
            | Class::Banshee => Some(Stat::Intelligence),
            Class::Paladin
            | Class::Cleric
            | Class::Friar
            | Class::Reaver
            | Class::Heretic
            | Class::Thane
            | Class::Healer
            | Class::Spiritmaster
            | Class::Shaman
            | Class::Runemaster
            | Class::Bonedancer
            | Class::Valkyrie
            | Class::Warlock => Some(Stat::Piety),
            Class::Warden
            | Class::Druid => Some(Stat::Empathy),
            Class::Minstrel
            | Class::Skald
            | Class::Bard => Some(Stat::Charisma),
            _ => None,
        }
    }

    /// Returns the attribute that the class casts from, for a class that casts.
    /// A bonus to acuity counts as a bonus to this attribute.
    pub fn acuity_stat(&self) -> (stat: Option<Stat>)
        ensures
            stat == self.spec_acuity_stat(),
    {
        match self {
            Class::Theurgist
            | Class::Wizard
            | Class::Sorcerer
            | Class::Necromancer
            | Class::Cabalist
            | Class::Eldritch
            | Class::Enchanter
            | Class::Mentalist
            | Class::Champion
            | Class::Animist
            | Class::Valewalker
            | Class::Banshee => Some(Stat::Intelligence),
            Class::Paladin
            | Class::Cleric
            | Class::Friar
            | Class::Reaver
            | Class::Heretic
            | Class::Thane
            | Class::Healer
            | Class::Spiritmaster
            | Class::Shaman
            | Class::Runemaster
            | Class::Bonedancer
            | Class::Valkyrie
            | Class::Warlock => Some(Stat::Piety),
            Class::Warden
            | Class::Druid => Some(Stat::Empathy),
            Class::Minstrel
            | Class::Skald
            | Class::Bard => Some(Stat::Charisma),
            _ => None,
        }
    }

    /// The skill lines that the class can train, in the order in which they
    /// are written out for the solver.
    pub open spec fn spec_skill_lines(&self) -> Seq<Stat> {
        match self {
            Class::Paladin => seq![Stat::Slashing, Stat::Crushing, Stat::Thrusting, Stat::TwoHanded, Stat::Shield, Stat::Parry, Stat::Chants],
            Class::Armsman => seq![Stat::Slashing, Stat::Crushing, Stat::Thrusting, Stat::Polearm, Stat::TwoHanded, Stat::Crossbow, Stat::Shield, Stat::Parry],
            Class::Scout => seq![Stat::Slashing, Stat::Thrusting, Stat::LongBow, Stat::Shield, Stat::Stealth],
            Class::Minstrel => seq![Stat::Slashing, Stat::Thrusting, Stat::Instruments, Stat::Stealth],
            Class::Theurgist => seq![Stat::Earth, Stat::Cold, Stat::Wind],
            Class::Cleric => seq![Stat::Rejuvenation, Stat::Enhancement, Stat::Smiting],
            Class::Wizard => seq![Stat::Earth, Stat::Cold, Stat::Fire],
            Class::Sorcerer => seq![Stat::Body, Stat::Matter, Stat::Mind],
            Class::Infiltrator => seq![Stat::Slashing, Stat::Thrusting, Stat::DualWield, Stat::CriticalStrike, Stat::Envenom, Stat::Stealth],
            Class::Friar => seq![Stat::Rejuvenation, Stat::Enhancement, Stat::Staff, Stat::Parry],
            Class::Mercenary => seq![Stat::Slashing, Stat::Crushing, Stat::Thrusting, Stat::DualWield, Stat::Shield, Stat::Parry],
            Class::Necromancer => seq![Stat::DeathServant, Stat::Deathsight, Stat::PainWorking],
            Class::Cabalist => seq![Stat::Body, Stat::Matter, Stat::Spirit],
            Class::Reaver => seq![Stat::Slashing, Stat::Crushing, Stat::Thrusting, Stat::FlexibleWeapon, Stat::Shield, Stat::Parry, Stat::SoulRending],
            Class::Heretic => seq![Stat::Crushing, Stat::FlexibleWeapon, Stat::Shield, Stat::Rejuvenation, Stat::Enhancement],
            Class::Thane => seq![Stat::Sword, Stat::Hammer, Stat::Axe, Stat::Shield, Stat::Parry, Stat::Stormcalling],
            Class::Warrior => seq![Stat::Sword, Stat::Hammer, Stat::Axe, Stat::ThrownWeapon, Stat::Shield, Stat::Parry],
            Class::Shadowblade => seq![Stat::Sword, Stat::Axe, Stat::LeftAxe, Stat::CriticalStrike, Stat::Envenom, Stat::Stealth],
            Class::Skald => seq![Stat::Sword, Stat::Hammer, Stat::Axe, Stat::Parry, Stat::Battlesongs],
            Class::Hunter => seq![Stat::Sword, Stat::Spear, Stat::Composite, Stat::Stealth, Stat::Beastcraft],
            Class::Healer => seq![Stat::Mending, Stat::Augmentation, Stat::Pacification],
            Class::Spiritmaster => seq![Stat::Darkness, Stat::Suppression, Stat::Summoning],
            Class::Shaman => seq![Stat::Mending, Stat::Augmentation, Stat::Subterranean],
            Class::Runemaster => seq![Stat::Darkness, Stat::Suppression, Stat::Runecarving],
            Class::Bonedancer => seq![Stat::Darkness, Stat::Suppression, Stat::BoneArmy],
            Class::Berserker => seq![Stat::Sword, Stat::Hammer, Stat::Axe, Stat::LeftAxe, Stat::Parry],
            Class::Savage => seq![Stat::Sword, Stat::Hammer, Stat::Axe, Stat::HandToHand, Stat::Parry, Stat::Savagery],
            Class::Valkyrie => seq![Stat::Sword, Stat::Spear, Stat::Shield, Stat::Parry],
            Class::Warlock => Seq::empty(),
            Class::Eldritch => seq![Stat::Light, Stat::Mana, Stat::Void],
            Class::Enchanter => seq![Stat::Light, Stat::Mana, Stat::Enchantments],
            Class::Mentalist => seq![Stat::Light, Stat::Mana, Stat::Mentalism],
            Class::Blademaster => seq![Stat::Blade, Stat::Blunt, Stat::Piercing, Stat::CelticDual, Stat::Shield, Stat::Parry],
            Class::Hero => seq![Stat::Blade, Stat::Blunt, Stat::Piercing, Stat::LargeWeapon, Stat::CelticSpear, Stat::Shield, Stat::Parry],
            Class::Champion => seq![Stat::Blade, Stat::Blunt, Stat::Piercing, Stat::LargeWeapon, Stat::Shield, Stat::Parry, Stat::Valor],
            Class::Warden => seq![Stat::Blade, Stat::Blunt, Stat::Shield, Stat::Parry, Stat::Nurture, Stat::Regrowth],
            Class::Druid => seq![Stat::Nurture, Stat::Regrowth, Stat::Nature],
            Class::Bard => seq![Stat::Blade, Stat::Blunt, Stat::Nurture, Stat::Regrowth, Stat::Music],
            Class::Nightshade => seq![Stat::Blade, Stat::Piercing, Stat::CelticDual, Stat::CriticalStrike, Stat::Envenom, Stat::Stealth],
            Class::Ranger => seq![Stat::Blade, Stat::Piercing, Stat::CelticDual, Stat::RecurveBow, Stat::Stealth, Stat::Pathfinding],
            Class::Animist => seq![Stat::Arboreal, Stat::Creeping, Stat::Verdant],
            Class::Valewalker => seq![Stat::Arboreal, Stat::Scythe, Stat::Parry],
            Class::Banshee => Seq::empty(),
        }
    }

    /// Returns the skill lines that the class can train.
    pub fn skill_lines(&self) -> (lines: Vec<Stat>)
        ensures
            lines@ == self.spec_skill_lines(),
    {
        let lines = match self {
            Class::Paladin => vec![Stat::Slashing, Stat::Crushing, Stat::Thrusting, Stat::TwoHanded, Stat::Shield, Stat::Parry, Stat::Chants],
            Class::Armsman => vec![Stat::Slashing, Stat::Crushing, Stat::Thrusting, Stat::Polearm, Stat::TwoHanded, Stat::Crossbow, Stat::Shield, Stat::Parry],
            Class::Scout => vec![Stat::Slashing, Stat::Thrusting, Stat::LongBow, Stat::Shield, Stat::Stealth],
            Class::Minstrel => vec![Stat::Slashing, Stat::Thrusting, Stat::Instruments, Stat::Stealth],
            Class::Theurgist => vec![Stat::Earth, Stat::Cold, Stat::Wind],
            Class::Cleric => vec![Stat::Rejuvenation, Stat::Enhancement, Stat::Smiting],
            Class::Wizard => vec![Stat::Earth, Stat::Cold, Stat::Fire],
            Class::Sorcerer => vec![Stat::Body, Stat::Matter, Stat::Mind],
            Class::Infiltrator => vec![Stat::Slashing, Stat::Thrusting, Stat::DualWield, Stat::CriticalStrike, Stat::Envenom, Stat::Stealth],
            Class::Friar => vec![Stat::Rejuvenation, Stat::Enhancement, Stat::Staff, Stat::Parry],
            Class::Mercenary => vec![Stat::Slashing, Stat::Crushing, Stat::Thrusting, Stat::DualWield, Stat::Shield, Stat::Parry],
            Class::Necromancer => vec![Stat::DeathServant, Stat::Deathsight, Stat::PainWorking],
            Class::Cabalist => vec![Stat::Body, Stat::Matter, Stat::Spirit],
            Class::Reaver => vec![Stat::Slashing, Stat::Crushing, Stat::Thrusting, Stat::FlexibleWeapon, Stat::Shield, Stat::Parry, Stat::SoulRending],
            Class::Heretic => vec![Stat::Crushing, Stat::FlexibleWeapon, Stat::Shield, Stat::Rejuvenation, Stat::Enhancement],
            Class::Thane => vec![Stat::Sword, Stat::Hammer, Stat::Axe, Stat::Shield, Stat::Parry, Stat::Stormcalling],
            Class::Warrior => vec![Stat::Sword, Stat::Hammer, Stat::Axe, Stat::ThrownWeapon, Stat::Shield, Stat::Parry],
            Class::Shadowblade => vec![Stat::Sword, Stat::Axe, Stat::LeftAxe, Stat::CriticalStrike, Stat::Envenom, Stat::Stealth],
            Class::Skald => vec![Stat::Sword, Stat::Hammer, Stat::Axe, Stat::Parry, Stat::Battlesongs],
            Class::Hunter => vec![Stat::Sword, Stat::Spear, Stat::Composite, Stat::Stealth, Stat::Beastcraft],
            Class::Healer => vec![Stat::Mending, Stat::Augmentation, Stat::Pacification],
            Class::Spiritmaster => vec![Stat::Darkness, Stat::Suppression, Stat::Summoning],
            Class::Shaman => vec![Stat::Mending, Stat::Augmentation, Stat::Subterranean],
            Class::Runemaster => vec![Stat::Darkness, Stat::Suppression, Stat::Runecarving],
            Class::Bonedancer => vec![Stat::Darkness, Stat::Suppression, Stat::BoneArmy],
            Class::Berserker => vec![Stat::Sword, Stat::Hammer, Stat::Axe, Stat::LeftAxe, Stat::Parry],
            Class::Savage => vec![Stat::Sword, Stat::Hammer, Stat::Axe, Stat::HandToHand, Stat::Parry, Stat::Savagery],
            Class::Valkyrie => vec![Stat::Sword, Stat::Spear, Stat::Shield, Stat::Parry],
            Class::Warlock => Vec::new(),
            Class::Eldritch => vec![Stat::Light, Stat::Mana, Stat::Void],
            Class::Enchanter => vec![Stat::Light, Stat::Mana, Stat::Enchantments],
            Class::Mentalist => vec![Stat::Light, Stat::Mana, Stat::Mentalism],
            Class::Blademaster => vec![Stat::Blade, Stat::Blunt, Stat::Piercing, Stat::CelticDual, Stat::Shield, Stat::Parry],
            Class::Hero => vec![Stat::Blade, Stat::Blunt, Stat::Piercing, Stat::LargeWeapon, Stat::CelticSpear, Stat::Shield, Stat::Parry],
            Class::Champion => vec![Stat::Blade, Stat::Blunt, Stat::Piercing, Stat::LargeWeapon, Stat::Shield, Stat::Parry, Stat::Valor],
            Class::Warden => vec![Stat::Blade, Stat::Blunt, Stat::Shield, Stat::Parry, Stat::Nurture, Stat::Regrowth],
            Class::Druid => vec![Stat::Nurture, Stat::Regrowth, Stat::Nature],
            Class::Bard => vec![Stat::Blade, Stat::Blunt, Stat::Nurture, Stat::Regrowth, Stat::Music],
            Class::Nightshade => vec![Stat::Blade, Stat::Piercing, Stat::CelticDual, Stat::CriticalStrike, Stat::Envenom, Stat::Stealth],
            Class::Ranger => vec![Stat::Blade, Stat::Piercing, Stat::CelticDual, Stat::RecurveBow, Stat::Stealth, Stat::Pathfinding],
            Class::Animist => vec![Stat::Arboreal, Stat::Creeping, Stat::Verdant],
            Class::Valewalker => vec![Stat::Arboreal, Stat::Scythe, Stat::Parry],
            Class::Banshee => Vec::new(),
        };
        assert(lines@ =~= self.spec_skill_lines());
        lines
    }

    /// The name under which a reader knows the class.
    pub open spec fn spec_to_string(&self) -> Seq<char> {
        match self {
            Class::Paladin => "Paladin"@,
            Class::Armsman => "Armsman"@,
            Class::Scout => "Scout"@,
            Class::Minstrel => "Minstrel"@,
            Class::Theurgist => "Theurgist"@,
            Class::Cleric => "Cleric"@,
            Class::Wizard => "Wizard"@,
            Class::Sorcerer => "Sorcerer"@,
            Class::Infiltrator => "Infiltrator"@,
            Class::Friar => "Friar"@,
            Class::Mercenary => "Mercenary"@,
            Class::Necromancer => "Necromancer"@,
            Class::Cabalist => "Cabalist"@,
            Class::Reaver => "Reaver"@,
            Class::Heretic => "Heretic"@,
            Class::Thane => "Thane"@,
            Class::Warrior => "Warrior"@,
            Class::Shadowblade => "Shadowblade"@,
            Class::Skald => "Skald"@,
            Class::Hunter => "Hunter"@,
            Class::Healer => "Healer"@,
            Class::Spiritmaster => "Spiritmaster"@,
            Class::Shaman => "Shaman"@,
            Class::Runemaster => "Runemaster"@,
            Class::Bonedancer => "Bonedancer"@,
            Class::Berserker => "Berserker"@,
            Class::Savage => "Savage"@,
            Class::Valkyrie => "Valkyrie"@,
            Class::Warlock => "Warlock"@,
            Class::Eldritch => "Eldritch"@,
            Class::Enchanter => "Enchanter"@,
            Class::Mentalist => "Mentalist"@,
            Class::Blademaster => "Blademaster"@,
            Class::Hero => "Hero"@,
            Class::Champion => "Champion"@,
            Class::Warden => "Warden"@,
            Class::Druid => "Druid"@,
            Class::Bard => "Bard"@,
            Class::Nightshade => "Nightshade"@,
            Class::Ranger => "Ranger"@,
            Class::Animist => "Animist"@,
            Class::Valewalker => "Valewalker"@,
            Class::Banshee => "Banshee"@,
        }
    }

    /// Returns the name under which a reader knows the class.
    pub fn to_string(&self) -> (text: String)
        ensures
            text@ == self.spec_to_string(),
    {
        let text = match self {
            Class::Paladin => "Paladin",
            Class::Armsman => "Armsman",
            Class::Scout => "Scout",
            Class::Minstrel => "Minstrel",
            Class::Theurgist => "Theurgist",
            Class::Cleric => "Cleric",
            Class::Wizard => "Wizard",
            Class::Sorcerer => "Sorcerer",
            Class::Infiltrator => "Infiltrator",
            Class::Friar => "Friar",
            Class::Mercenary => "Mercenary",
            Class::Necromancer => "Necromancer",
            Class::Cabalist => "Cabalist",
            Class::Reaver => "Reaver",
            Class::Heretic => "Heretic",
            Class::Thane => "Thane",
            Class::Warrior => "Warrior",
            Class::Shadowblade => "Shadowblade",
            Class::Skald => "Skald",
            Class::Hunter => "Hunter",
            Class::Healer => "Healer",
            Class::Spiritmaster => "Spiritmaster",
            Class::Shaman => "Shaman",
            Class::Runemaster => "Runemaster",
            Class::Bonedancer => "Bonedancer",
            Class::Berserker => "Berserker",
            Class::Savage => "Savage",
            Class::Valkyrie => "Valkyrie",
            Class::Warlock => "Warlock",
            Class::Eldritch => "Eldritch",
            Class::Enchanter => "Enchanter",
            Class::Mentalist => "Mentalist",
            Class::Blademaster => "Blademaster",
            Class::Hero => "Hero",
            Class::Champion => "Champion",
            Class::Warden => "Warden",
            Class::Druid => "Druid",
            Class::Bard => "Bard",
            Class::Nightshade => "Nightshade",
            Class::Ranger => "Ranger",
            Class::Animist => "Animist",
            Class::Valewalker => "Valewalker",
            Class::Banshee => "Banshee",
        };
        text.to_owned()
    }

    /// The classes with an identifier below `n`, by rising identifier.
    pub open spec fn below(n: int) -> Seq<Class>
        decreases n,
    {
        if n <= 0 {
            Seq::empty()
        } else {
            match Self::spec_from_repr((n - 1) as u16) {
                Some(class) => Self::below(n - 1).push(class),
                None => Self::below(n - 1),
            }
        }
    }

    /// Every class, by rising identifier.
    pub open spec fn spec_all() -> Seq<Class> {
        Self::below(MAX_CLASS_ID + 1)
    }

    /// Returns every class once, by rising identifier.
    pub fn all() -> (classes: Vec<Class>)
        ensures
            classes@ == Self::spec_all(),
    {
        let mut classes: Vec<Class> = Vec::new();
        let mut id: u16 = 0;
        while id <= MAX_CLASS_ID
            invariant
                id <= MAX_CLASS_ID + 1,
                classes@ == Self::below(id as int),
            decreases MAX_CLASS_ID + 1 - id,
        {
            match Class::from_repr(id) {
                Some(class) => {
                    classes.push(class);
                },
                None => {},
            }
            id += 1;
        }
        classes
    }

    /// Returns the classes of the realm `realm`, by rising identifier.
    pub fn of_realm(realm: Realm) -> (classes: Vec<Class>)
        ensures
            classes@ == Self::spec_all().filter(|class: Class| class.spec_realm() == realm),
    {
        let all = Class::all();
        let mut classes: Vec<Class> = Vec::new();
        let mut i: usize = 0;
        while i < all.len()
            invariant
                i <= all@.len(),
                classes@ == all@.take(i as int).filter(|class: Class| class.spec_realm() == realm),
            decreases all@.len() - i,
        {
            let class = all[i];
            proof {
                let test = |class: Class| class.spec_realm() == realm;
                let next = all@.take(i as int + 1);
                assert(next.drop_last() =~= all@.take(i as int));
                assert(next.last() == class);
                reveal(Seq::filter);
            }
            if *class.realm() == realm {
                classes.push(class);
            }
            i += 1;
        }
        assert(all@.take(i as int) =~= all@);
        classes
    }
}

/// The classes below `n` are those with an identifier below `n`, each once and
/// by rising identifier.
pub proof fn lemma_classes_below(n: int)
    requires
        0 <= n <= u16::MAX + 1,
    ensures
        forall|i: int, j: int|
            0 <= i < j < Class::below(n).len() ==> (#[trigger] Class::below(n)[i]).spec_id() < (
            #[trigger] Class::below(n)[j]).spec_id(),
        forall|i: int| 0 <= i < Class::below(n).len() ==> (#[trigger] Class::below(n)[i]).spec_id()
            < n,
        forall|class: Class| class.spec_id() < n ==> Class::below(n).contains(class),
    decreases n,
{
    if n > 0 {
        lemma_classes_below(n - 1);
        let before = Class::below(n - 1);
        let id = (n - 1) as u16;
        match Class::spec_from_repr(id) {
            Some(found) => {
                assert(found.spec_id() == id);
                assert(Class::below(n) == before.push(found));
                assert forall|class: Class| class.spec_id() < n implies Class::below(n).contains(
                    class,
                ) by {
                    if class.spec_id() < n - 1 {
                        assert(before.contains(class));
                        let i = choose|i: int| 0 <= i < before.len() && before[i] == class;
                        assert(Class::below(n)[i] == class);
                    } else {
                        assert(class.spec_id() == found.spec_id());
                        assert(class == found);
                        assert(Class::below(n)[before.len() as int] == class);
                    }
                }
            },
            None => {
                assert forall|class: Class| class.spec_id() < n implies Class::below(n).contains(
                    class,
                ) by {
                    assert(class.spec_id() != id);
                    assert(before.contains(class));
                }
            },
        }
    }
}

/// Every class is listed, and by rising identifier, so that none is listed
/// twice.
pub proof fn lemma_all_classes_once(class: Class)
    ensures
        Class::spec_all().contains(class),
        forall|i: int, j: int|
            0 <= i < j < Class::spec_all().len() ==> (#[trigger] Class::spec_all()[i]).spec_id() < (
            #[trigger] Class::spec_all()[j]).spec_id(),
{
    lemma_classes_below(MAX_CLASS_ID + 1);
}

} // verus!
