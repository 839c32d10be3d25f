//! Names: what the library writes into facts in place of a stat, a class or
//! a slot.
//!
//! The solver reads a word as a constant where it begins with a lower-case
//! letter and goes on with lower-case letters, digits and underscores. Every
//! name that the library writes is such a word.

use vstd::prelude::*;

use crate::domain::class::Class;
use crate::domain::item_slot::ItemSlot;
use crate::domain::stat::{stat_info, Stat};

verus! {

/// Whether the character can stand in a constant.
pub open spec fn is_name_char(c: char) -> bool {
    'a' <= c <= 'z' || '0' <= c <= '9' || c == '_'
}

/// Whether the text is a constant of the solver's language.
pub open spec fn is_constant(text: Seq<char>) -> bool {
    &&& text.len() > 0
    &&& 'a' <= text[0] <= 'z'
    &&& forall|i: int| 0 <= i < text.len() ==> is_name_char(#[trigger] text[i])
}

/// The names of some of the stats are constants.
proof fn lemma_stat_names_0(stat: Stat)
    requires
        stat == Stat::Strength
            || stat == Stat::Dexterity
            || stat == Stat::Constitution
            || stat == Stat::Quickness
            || stat == Stat::Intelligence
            || stat == Stat::Piety
            || stat == Stat::Empathy
            || stat == Stat::Charisma
            || stat == Stat::Acuity
            || stat == Stat::Hitpoints
            || stat == Stat::StrengthCap
            || stat == Stat::DexterityCap,
    ensures
        is_constant(stat.spec_name()),
        stat.spec_name() != "unknown"@,
{
    reveal(stat_info);
    reveal_strlit("unknown");
    reveal_strlit("strength");
    reveal_strlit("dexterity");
    reveal_strlit("constitution");
    reveal_strlit("quickness");
    reveal_strlit("intelligence");
    reveal_strlit("piety");
    reveal_strlit("empathy");
    reveal_strlit("charisma");
    reveal_strlit("acuity");
    reveal_strlit("hitpoints");
    reveal_strlit("strength_cap");
    reveal_strlit("dexterity_cap");
    assert("unknown"@.len() == 7 && "unknown"@[0] == 'u');
    assert(stat.spec_name().len() != 7 || stat.spec_name()[0] != 'u');
}

/// The names of some of the stats are constants.
proof fn lemma_stat_names_1(stat: Stat)
    requires
        stat == Stat::ConstitutionCap
            || stat == Stat::QuicknessCap
            || stat == Stat::IntelligenceCap
            || stat == Stat::PietyCap
            || stat == Stat::EmpathyCap
            || stat == Stat::CharismaCap
            || stat == Stat::AcuityCap
            || stat == Stat::HitpointsCap
            || stat == Stat::PowerPoolCap
            || stat == Stat::BodyResist
            || stat == Stat::ColdResist
            || stat == Stat::CrushResist,
    ensures
        is_constant(stat.spec_name()),
        stat.spec_name() != "unknown"@,
{
    reveal(stat_info);
    reveal_strlit("unknown");
    reveal_strlit("constitution_cap");
    reveal_strlit("quickness_cap");
    reveal_strlit("intelligence_cap");
    reveal_strlit("piety_cap");
    reveal_strlit("empathy_cap");
    reveal_strlit("charisma_cap");
    reveal_strlit("acuity_cap");
    reveal_strlit("hitpoints_cap");
    reveal_strlit("power_pool_cap");
    reveal_strlit("body_resist");
    reveal_strlit("cold_resist");
    reveal_strlit("crush_resist");
    assert("unknown"@.len() == 7 && "unknown"@[0] == 'u');
    assert(stat.spec_name().len() != 7 || stat.spec_name()[0] != 'u');
}

/// The names of some of the stats are constants.
proof fn lemma_stat_names_2(stat: Stat)
    requires
        stat == Stat::EnergyResist
            || stat == Stat::HeatResist
            || stat == Stat::MatterResist
            || stat == Stat::SlashResist
            || stat == Stat::SpiritResist
            || stat == Stat::ThrustResist
            || stat == Stat::EssenceResist
            || stat == Stat::Body
            || stat == Stat::Chants
            || stat == Stat::DeathServant
            || stat == Stat::Deathsight
            || stat == Stat::Earth,
    ensures
        is_constant(stat.spec_name()),
        stat.spec_name() != "unknown"@,
{
    reveal(stat_info);
    reveal_strlit("unknown");
    reveal_strlit("energy_resist");
    reveal_strlit("heat_resist");
    reveal_strlit("matter_resist");
    reveal_strlit("slash_resist");
    reveal_strlit("spirit_resist");
    reveal_strlit("thrust_resist");
    reveal_strlit("essence_resist");
    reveal_strlit("body");
    reveal_strlit("chants");
    reveal_strlit("death_servant");
    reveal_strlit("deathsight");
    reveal_strlit("earth");
    assert("unknown"@.len() == 7 && "unknown"@[0] == 'u');
    assert(stat.spec_name().len() != 7 || stat.spec_name()[0] != 'u');
}

/// The names of some of the stats are constants.
proof fn lemma_stat_names_3(stat: Stat)
    requires
        stat == Stat::Enhancement
            || stat == Stat::Fire
            || stat == Stat::Cold
            || stat == Stat::Instruments
            || stat == Stat::Matter
            || stat == Stat::Mind
            || stat == Stat::PainWorking
            || stat == Stat::Rejuvenation
            || stat == Stat::Smiting
            || stat == Stat::SoulRending
            || stat == Stat::Spirit
            || stat == Stat::Wind,
    ensures
        is_constant(stat.spec_name()),
        stat.spec_name() != "unknown"@,
{
    reveal(stat_info);
    reveal_strlit("unknown");
    reveal_strlit("enhancement");
    reveal_strlit("fire");
    reveal_strlit("cold");
    reveal_strlit("instruments");
    reveal_strlit("matter");
    reveal_strlit("mind");
    reveal_strlit("pain_working");
    reveal_strlit("rejuvenation");
    reveal_strlit("smiting");
    reveal_strlit("soul_rending");
    reveal_strlit("spirit");
    reveal_strlit("wind");
    assert("unknown"@.len() == 7 && "unknown"@[0] == 'u');
    assert(stat.spec_name().len() != 7 || stat.spec_name()[0] != 'u');
}

/// The names of some of the stats are constants.
proof fn lemma_stat_names_4(stat: Stat)
    requires
        stat == Stat::Mending
            || stat == Stat::Augmentation
            || stat == Stat::Darkness
            || stat == Stat::Suppression
            || stat == Stat::Runecarving
            || stat == Stat::Stormcalling
            || stat == Stat::Beastcraft
            || stat == Stat::Light
            || stat == Stat::Void
            || stat == Stat::Mana
            || stat == Stat::Battlesongs
            || stat == Stat::Enchantments,
    ensures
        is_constant(stat.spec_name()),
        stat.spec_name() != "unknown"@,
{
    reveal(stat_info);
    reveal_strlit("unknown");
    reveal_strlit("mending");
    reveal_strlit("augmentation");
    reveal_strlit("darkness");
    reveal_strlit("suppression");
    reveal_strlit("runecarving");
    reveal_strlit("stormcalling");
    reveal_strlit("beastcraft");
    reveal_strlit("light");
    reveal_strlit("void");
    reveal_strlit("mana");
    reveal_strlit("battlesongs");
    reveal_strlit("enchantments");
    assert("unknown"@.len() == 7 && "unknown"@[0] == 'u');
    assert(stat.spec_name().len() != 7 || stat.spec_name()[0] != 'u');
}

/// The names of some of the stats are constants.
proof fn lemma_stat_names_5(stat: Stat)
    requires
        stat == Stat::Mentalism
            || stat == Stat::Regrowth
            || stat == Stat::Nurture
            || stat == Stat::Nature
            || stat == Stat::Music
            || stat == Stat::Valor
            || stat == Stat::Subterranean
            || stat == Stat::BoneArmy
            || stat == Stat::Verdant
            || stat == Stat::Creeping
            || stat == Stat::Arboreal
            || stat == Stat::Pacification,
    ensures
        is_constant(stat.spec_name()),
        stat.spec_name() != "unknown"@,
{
    reveal(stat_info);
    reveal_strlit("unknown");
    reveal_strlit("mentalism");
    reveal_strlit("regrowth");
    reveal_strlit("nurture");
    reveal_strlit("nature");
    reveal_strlit("music");
    reveal_strlit("valor");
    reveal_strlit("subterranean");
    reveal_strlit("bone_army");
    reveal_strlit("verdant");
    reveal_strlit("creeping");
    reveal_strlit("arboreal");
    reveal_strlit("pacification");
    assert("unknown"@.len() == 7 && "unknown"@[0] == 'u');
    assert(stat.spec_name().len() != 7 || stat.spec_name()[0] != 'u');
}

/// The names of some of the stats are constants.
proof fn lemma_stat_names_6(stat: Stat)
    requires
        stat == Stat::Summoning
            || stat == Stat::AllMagicSkills
            || stat == Stat::TwoHanded
            || stat == Stat::Crushing
            || stat == Stat::FlexibleWeapon
            || stat == Stat::Polearm
            || stat == Stat::Slashing
            || stat == Stat::Staff
            || stat == Stat::Thrusting
            || stat == Stat::Sword
            || stat == Stat::Hammer
            || stat == Stat::Axe,
    ensures
        is_constant(stat.spec_name()),
        stat.spec_name() != "unknown"@,
{
    reveal(stat_info);
    reveal_strlit("unknown");
    reveal_strlit("summoning");
    reveal_strlit("all_magic_skills");
    reveal_strlit("two_handed");
    reveal_strlit("crushing");
    reveal_strlit("flexible_weapon");
    reveal_strlit("polearm");
    reveal_strlit("slashing");
    reveal_strlit("staff");
    reveal_strlit("thrusting");
    reveal_strlit("sword");
    reveal_strlit("hammer");
    reveal_strlit("axe");
    assert("unknown"@.len() == 7 && "unknown"@[0] == 'u');
    assert(stat.spec_name().len() != 7 || stat.spec_name()[0] != 'u');
}

/// The names of some of the stats are constants.
proof fn lemma_stat_names_7(stat: Stat)
    requires
        stat == Stat::Spear
            || stat == Stat::Blade
            || stat == Stat::Blunt
            || stat == Stat::Piercing
            || stat == Stat::LargeWeapon
            || stat == Stat::CelticSpear
            || stat == Stat::Scythe
            || stat == Stat::HandToHand
            || stat == Stat::AllMeleeSkills
            || stat == Stat::AllArcherySkills
            || stat == Stat::ShortBow
            || stat == Stat::RecurveBow,
    ensures
        is_constant(stat.spec_name()),
        stat.spec_name() != "unknown"@,
{
    reveal(stat_info);
    reveal_strlit("unknown");
    reveal_strlit("spear");
    reveal_strlit("blade");
    reveal_strlit("blunt");
    reveal_strlit("piercing");
    reveal_strlit("large_weapon");
    reveal_strlit("celtic_spear");
    reveal_strlit("scythe");
    reveal_strlit("hand_to_hand");
    reveal_strlit("all_melee_skills");
    reveal_strlit("all_archery_skills");
    reveal_strlit("short_bow");
    reveal_strlit("recurve_bow");
    assert("unknown"@.len() == 7 && "unknown"@[0] == 'u');
    assert(stat.spec_name().len() != 7 || stat.spec_name()[0] != 'u');
}

/// The names of some of the stats are constants.
proof fn lemma_stat_names_8(stat: Stat)
    requires
        stat == Stat::Composite
            || stat == Stat::LongBow
            || stat == Stat::ThrownWeapon
            || stat == Stat::Crossbow
            || stat == Stat::AllDualWieldingSkills
            || stat == Stat::CelticDual
            || stat == Stat::LeftAxe
            || stat == Stat::DualWield
            || stat == Stat::CriticalStrike
            || stat == Stat::Shield
            || stat == Stat::Parry
            || stat == Stat::Envenom,
    ensures
        is_constant(stat.spec_name()),
        stat.spec_name() != "unknown"@,
{
    reveal(stat_info);
    reveal_strlit("unknown");
    reveal_strlit("composite");
    reveal_strlit("long_bow");
    reveal_strlit("thrown_weapon");
    reveal_strlit("crossbow");
    reveal_strlit("all_dual_wielding_skills");
    reveal_strlit("celtic_dual");
    reveal_strlit("left_axe");
    reveal_strlit("dual_wield");
    reveal_strlit("critical_strike");
    reveal_strlit("shield");
    reveal_strlit("parry");
    reveal_strlit("envenom");
    assert("unknown"@.len() == 7 && "unknown"@[0] == 'u');
    assert(stat.spec_name().len() != 7 || stat.spec_name()[0] != 'u');
}

/// The names of some of the stats are constants.
proof fn lemma_stat_names_9(stat: Stat)
    requires
        stat == Stat::Stealth
            || stat == Stat::Savagery
            || stat == Stat::Nightshade
            || stat == Stat::Pathfinding
            || stat == Stat::ArmorFactor
            || stat == Stat::SpellRange
            || stat == Stat::MeleeSpeed
            || stat == Stat::MeleeDamage
            || stat == Stat::RangedDamage
            || stat == Stat::ArcherySpeed
            || stat == Stat::BuffEffectiveness
            || stat == Stat::CastingSpeed,
    ensures
        is_constant(stat.spec_name()),
        stat.spec_name() != "unknown"@,
{
    reveal(stat_info);
    reveal_strlit("unknown");
    reveal_strlit("stealth");
    reveal_strlit("savagery");
    reveal_strlit("nightshade");
    reveal_strlit("pathfinding");
    reveal_strlit("armor_factor");
    reveal_strlit("spell_range");
    reveal_strlit("melee_speed");
    reveal_strlit("melee_damage");
    reveal_strlit("ranged_damage");
    reveal_strlit("archery_speed");
    reveal_strlit("buff_effectiveness");
    reveal_strlit("casting_speed");
    assert("unknown"@.len() == 7 && "unknown"@[0] == 'u');
    assert(stat.spec_name().len() != 7 || stat.spec_name()[0] != 'u');
}

/// The names of some of the stats are constants.
proof fn lemma_stat_names_10(stat: Stat)
    requires
        stat == Stat::DebuffEffectiveness
            || stat == Stat::HealingEffectiveness
            || stat == Stat::PowerPoolToa
            || stat == Stat::ResistPierce
            || stat == Stat::SpellDamage
            || stat == Stat::SpellDuration
            || stat == Stat::StyleDamage
            || stat == Stat::ArcaneSyphon
            || stat == Stat::Fatigue
            || stat == Stat::AllFocusLevels
            || stat == Stat::UnknownRangerStuff
            || stat == Stat::UnknownStuffAgain,
    ensures
        is_constant(stat.spec_name()),
        stat.spec_name() != "unknown"@,
{
    reveal(stat_info);
    reveal_strlit("unknown");
    reveal_strlit("debuff_effectiveness");
    reveal_strlit("healing_effectiveness");
    reveal_strlit("power_pool_toa");
    reveal_strlit("resist_pierce");
    reveal_strlit("spell_damage");
    reveal_strlit("spell_duration");
    reveal_strlit("style_damage");
    reveal_strlit("arcane_syphon");
    reveal_strlit("fatigue");
    reveal_strlit("all_focus_levels");
    reveal_strlit("unknown_ranger_stuff");
    reveal_strlit("unknown_stuff_again");
    assert("unknown"@.len() == 7 && "unknown"@[0] == 'u');
    assert(stat.spec_name().len() != 7 || stat.spec_name()[0] != 'u');
}

/// The names of some of the stats are constants.
proof fn lemma_stat_names_11(stat: Stat)
    requires
        stat == Stat::UnknownStuffAgain2,
    ensures
        is_constant(stat.spec_name()),
        stat.spec_name() != "unknown"@,
{
    reveal(stat_info);
    reveal_strlit("unknown");
    reveal_strlit("unknown_stuff_again2");
    assert("unknown"@.len() == 7 && "unknown"@[0] == 'u');
    assert(stat.spec_name().len() != 7 || stat.spec_name()[0] != 'u');
}

/// The name of every stat is a constant of the solver's language, and every
/// stat has a name of its own in the table of the stats: none goes by the name
/// of the entry for an identifier that no stat has.
pub proof fn lemma_stat_names_are_constants(stat: Stat)
    ensures
        is_constant(stat.spec_name()),
        stat.spec_name() != "unknown"@,
{
    match stat {
        Stat::Strength
        | Stat::Dexterity
        | Stat::Constitution
        | Stat::Quickness
        | Stat::Intelligence
        | Stat::Piety
        | Stat::Empathy
        | Stat::Charisma
        | Stat::Acuity
        | Stat::Hitpoints
        | Stat::StrengthCap
        | Stat::DexterityCap => {
            lemma_stat_names_0(stat);
        },
        Stat::ConstitutionCap
        | Stat::QuicknessCap
        | Stat::IntelligenceCap
        | Stat::PietyCap
        | Stat::EmpathyCap
        | Stat::CharismaCap
        | Stat::AcuityCap
        | Stat::HitpointsCap
        | Stat::PowerPoolCap
        | Stat::BodyResist
        | Stat::ColdResist
        | Stat::CrushResist => {
            lemma_stat_names_1(stat);
        },
        Stat::EnergyResist
        | Stat::HeatResist
        | Stat::MatterResist
        | Stat::SlashResist
        | Stat::SpiritResist
        | Stat::ThrustResist
        | Stat::EssenceResist
        | Stat::Body
        | Stat::Chants
        | Stat::DeathServant
        | Stat::Deathsight
        | Stat::Earth => {
            lemma_stat_names_2(stat);
        },
        Stat::Enhancement
        | Stat::Fire
        | Stat::Cold
        | Stat::Instruments
        | Stat::Matter
        | Stat::Mind
        | Stat::PainWorking
        | Stat::Rejuvenation
        | Stat::Smiting
        | Stat::SoulRending
        | Stat::Spirit
        | Stat::Wind => {
            lemma_stat_names_3(stat);
        },
        Stat::Mending
        | Stat::Augmentation
        | Stat::Darkness
        | Stat::Suppression
        | Stat::Runecarving
        | Stat::Stormcalling
        | Stat::Beastcraft
        | Stat::Light
        | Stat::Void
        | Stat::Mana
        | Stat::Battlesongs
        | Stat::Enchantments => {
            lemma_stat_names_4(stat);
        },
        Stat::Mentalism
        | Stat::Regrowth
        | Stat::Nurture
        | Stat::Nature
        | Stat::Music
        | Stat::Valor
        | Stat::Subterranean
        | Stat::BoneArmy
        | Stat::Verdant
        | Stat::Creeping
        | Stat::Arboreal
        | Stat::Pacification => {
            lemma_stat_names_5(stat);
        },
        Stat::Summoning
        | Stat::AllMagicSkills
        | Stat::TwoHanded
        | Stat::Crushing
        | Stat::FlexibleWeapon
        | Stat::Polearm
        | Stat::Slashing
        | Stat::Staff
        | Stat::Thrusting
        | Stat::Sword
        | Stat::Hammer
        | Stat::Axe => {
            lemma_stat_names_6(stat);
        },
        Stat::Spear
        | Stat::Blade
        | Stat::Blunt
        | Stat::Piercing
        | Stat::LargeWeapon
        | Stat::CelticSpear
        | Stat::Scythe
        | Stat::HandToHand
        | Stat::AllMeleeSkills
        | Stat::AllArcherySkills
        | Stat::ShortBow
        | Stat::RecurveBow => {
            lemma_stat_names_7(stat);
        },
        Stat::Composite
        | Stat::LongBow
        | Stat::ThrownWeapon
        | Stat::Crossbow
        | Stat::AllDualWieldingSkills
        | Stat::CelticDual
        | Stat::LeftAxe
        | Stat::DualWield
        | Stat::CriticalStrike
        | Stat::Shield
        | Stat::Parry
        | Stat::Envenom => {
            lemma_stat_names_8(stat);
        },
        Stat::Stealth
        | Stat::Savagery
        | Stat::Nightshade
        | Stat::Pathfinding
        | Stat::ArmorFactor
        | Stat::SpellRange
        | Stat::MeleeSpeed
        | Stat::MeleeDamage
        | Stat::RangedDamage
        | Stat::ArcherySpeed
        | Stat::BuffEffectiveness
        | Stat::CastingSpeed => {
            lemma_stat_names_9(stat);
        },
        Stat::DebuffEffectiveness
        | Stat::HealingEffectiveness
        | Stat::PowerPoolToa
        | Stat::ResistPierce
        | Stat::SpellDamage
        | Stat::SpellDuration
        | Stat::StyleDamage
        | Stat::ArcaneSyphon
        | Stat::Fatigue
        | Stat::AllFocusLevels
        | Stat::UnknownRangerStuff
        | Stat::UnknownStuffAgain => {
            lemma_stat_names_10(stat);
        },
        Stat::UnknownStuffAgain2 => {
            lemma_stat_names_11(stat);
        },
    }
}

/// The names of some of the classes are constants.
proof fn lemma_class_names_0(class: Class)
    requires
        class == Class::Paladin
            || class == Class::Armsman
            || class == Class::Scout
            || class == Class::Minstrel
            || class == Class::Theurgist
            || class == Class::Cleric
            || class == Class::Wizard
            || class == Class::Sorcerer
            || class == Class::Infiltrator
            || class == Class::Friar
            || class == Class::Mercenary
            || class == Class::Necromancer
            || class == Class::Cabalist
            || class == Class::Reaver
            || class == Class::Heretic,
    ensures
        is_constant(class.spec_name()),
{
    reveal_strlit("paladin");
    reveal_strlit("armsman");
    reveal_strlit("scout");
    reveal_strlit("minstrel");
    reveal_strlit("theurgist");
    reveal_strlit("cleric");
    reveal_strlit("wizard");
    reveal_strlit("sorcerer");
    reveal_strlit("infiltrator");
    reveal_strlit("friar");
    reveal_strlit("mercenary");
    reveal_strlit("necromancer");
    reveal_strlit("cabalist");
    reveal_strlit("reaver");
    reveal_strlit("heretic");
}

/// The names of some of the classes are constants.
proof fn lemma_class_names_1(class: Class)
    requires
        class == Class::Thane
            || class == Class::Warrior
            || class == Class::Shadowblade
            || class == Class::Skald
            || class == Class::Hunter
            || class == Class::Healer
            || class == Class::Spiritmaster
            || class == Class::Shaman
            || class == Class::Runemaster
            || class == Class::Bonedancer
            || class == Class::Berserker
            || class == Class::Savage
            || class == Class::Valkyrie
            || class == Class::Warlock
            || class == Class::Eldritch,
    ensures
        is_constant(class.spec_name()),
{
    reveal_strlit("thane");
    reveal_strlit("warrior");
    reveal_strlit("shadowblade");
    reveal_strlit("skald");
    reveal_strlit("hunter");
    reveal_strlit("healer");
    reveal_strlit("spiritmaster");
    reveal_strlit("shaman");
    reveal_strlit("runemaster");
    reveal_strlit("bonedancer");
    reveal_strlit("berserker");
    reveal_strlit("savage");
    reveal_strlit("valkyrie");
    reveal_strlit("warlock");
    reveal_strlit("eldritch");
}

/// The names of some of the classes are constants.
proof fn lemma_class_names_2(class: Class)
    requires
        class == Class::Enchanter
            || class == Class::Mentalist
            || class == Class::Blademaster
            || class == Class::Hero
            || class == Class::Champion
            || class == Class::Warden
            || class == Class::Druid
            || class == Class::Bard
            || class == Class::Nightshade
            || class == Class::Ranger
            || class == Class::Animist
            || class == Class::Valewalker
            || class == Class::Banshee,
    ensures
        is_constant(class.spec_name()),
{
    reveal_strlit("enchanter");
    reveal_strlit("mentalist");
    reveal_strlit("blademaster");
    reveal_strlit("hero");
    reveal_strlit("champion");
    reveal_strlit("warden");
    reveal_strlit("druid");
    reveal_strlit("bard");
    reveal_strlit("nightshade");
    reveal_strlit("ranger");
    reveal_strlit("animist");
    reveal_strlit("valewalker");
    reveal_strlit("banshee");
}

/// The name of every class is a constant of the solver's language.
pub proof fn lemma_class_names_are_constants(class: Class)
    ensures
        is_constant(class.spec_name()),
{
    match class {
        Class::Paladin
        | Class::Armsman
        | Class::Scout
        | Class::Minstrel
        | Class::Theurgist
        | Class::Cleric
        | Class::Wizard
        | Class::Sorcerer
        | Class::Infiltrator
        | Class::Friar
        | Class::Mercenary
        | Class::Necromancer
        | Class::Cabalist
        | Class::Reaver
        | Class::Heretic => {
            lemma_class_names_0(class);
        },
        Class::Thane
        | Class::Warrior
        | Class::Shadowblade
        | Class::Skald
        | Class::Hunter
        | Class::Healer
        | Class::Spiritmaster
        | Class::Shaman
        | Class::Runemaster
        | Class::Bonedancer
        | Class::Berserker
        | Class::Savage
        | Class::Valkyrie
        | Class::Warlock
        | Class::Eldritch => {
            lemma_class_names_1(class);
        },
        Class::Enchanter
        | Class::Mentalist
        | Class::Blademaster
        | Class::Hero
        | Class::Champion
        | Class::Warden
        | Class::Druid
        | Class::Bard
        | Class::Nightshade
        | Class::Ranger
        | Class::Animist
        | Class::Valewalker
        | Class::Banshee => {
            lemma_class_names_2(class);
        },
    }
}

/// The name of every slot is a constant of the solver's language.
pub proof fn lemma_slot_names_are_constants(slot: ItemSlot)
    ensures
        is_constant(slot.spec_name()),
{
    reveal_strlit("arms");
    reveal_strlit("belt");
    reveal_strlit("bracer");
    reveal_strlit("chest");
    reveal_strlit("cloak");
    reveal_strlit("feet");
    reveal_strlit("hands");
    reveal_strlit("head");
    reveal_strlit("jewel");
    reveal_strlit("left_hand");
    reveal_strlit("legs");
    reveal_strlit("necklace");
    reveal_strlit("ranged");
    reveal_strlit("right_hand");
    reveal_strlit("ring");
    reveal_strlit("two_handed");
}

/// The character of `text` at the place `at` as a number, or 0 where the text
/// is shorter.
pub open spec fn letter(text: Seq<char>, at: int) -> int {
    if 0 <= at < text.len() {
        text[at] as int
    } else {
        0
    }
}

/// A number that tells the names of the stats apart: it is made of the length
/// of the name and of five of its characters.
pub open spec fn stat_mark_of(text: Seq<char>) -> int {
    (((((text.len()) * 128 + letter(text, 0)) * 128 + letter(text, 2)) * 128 + letter(text, 3)) * 128 + letter(text, 8)) * 128 + letter(text, 11)
}

/// The mark of the name of each stat.
pub open spec fn stat_mark(stat: Stat) -> int {
    match stat {
        Stat::Strength => 305988714496,
        Stat::Dexterity => 336334765184,
        Stat::Constitution => 439124556398,
        Stat::Quickness => 339792689536,
        Stat::Intelligence => 440747520741,
        Stat::Piety => 202077175808,
        Stat::Empathy => 267866619904,
        Stat::Charisma => 301658308608,
        Stat::Acuity => 232443756544,
        Stat::Hitpoints => 337400052096,
        Stat::StrengthCap => 443427680240,
        Stat::DexterityCap => 473773718753,
        Stat::ConstitutionCap => 576563509870,
        Stat::QuicknessCap => 477231643105,
        Stat::IntelligenceCap => 578186474213,
        Stat::PietyCap => 339516143616,
        Stat::EmpathyCap => 405305586048,
        Stat::CharismaCap => 439097274352,
        Stat::AcuityCap => 369882722432,
        Stat::HitpointsCap => 474839005665,
        Stat::PowerPoolCap => 511352338403,
        Stat::BodyResist => 404475507840,
        Stat::ColdResist => 404760376448,
        Stat::CrushResist => 439139236340,
        Stat::EnergyResist => 474002273011,
        Stat::HeatResist => 406079747200,
        Stat::MatterResist => 476181246707,
        Stat::SlashResist => 443392260596,
        Stat::SpiritResist => 477768758003,
        Stat::ThrustResist => 478056116979,
        Stat::EssenceResist => 508391160169,
        Stat::Body => 163957325824,
        Stat::Chants => 232938766336,
        Stat::DeathServant => 473725483374,
        Stat::Deathsight => 370646266880,
        Stat::Earth => 199151648768,
        Stat::Enhancement => 405288809088,
        Stat::Fire => 165060100096,
        Stat::Cold => 164242194432,
        Stat::Instruments => 406385932032,
        Stat::Matter => 235663065088,
        Stat::Mind => 166930743296,
        Stat::PainWorking => 442603648487,
        Stat::Rejuvenation => 443142732398,
        Stat::Smiting => 271610347520,
        Stat::SoulRending => 443434087015,
        Stat::Spirit => 237250576384,
        Stat::Wind => 169615097856,
        Stat::Mending => 270009958400,
        Stat::Augmentation => 438572907118,
        Stat::Darkness => 301962280960,
        Stat::Suppression => 409063928960,
        Stat::Runecarving => 408791118976,
        Stat::Stormcalling => 443421603431,
        Stat::Beastcraft => 370109379328,
        Stat::Light => 201007431680,
        Stat::Void => 169336176640,
        Stat::Mana => 166930694144,
        Stat::Battlesongs => 404508980992,
        Stat::Enchantments => 439638176499,
        Stat::Mentalism => 338729711232,
        Stat::Regrowth => 305697423360,
        Stat::Nurture => 270287044608,
        Stat::Nature => 235931516928,
        Stat::Music => 201301049344,
        Stat::Valor => 203702386688,
        Stat::Subterranean => 443394373486,
        Stat::BoneArmy => 335776676992,
        Stat::Verdant => 272434266112,
        Stat::Creeping => 301666484224,
        Stat::Arboreal => 301123485696,
        Stat::Pacification => 442590984814,
        Stat::Summoning => 340338111360,
        Stat::AllMagicSkills => 576022114795,
        Stat::TwoHanded => 374970249856,
        Stat::Crushing => 301700268032,
        Stat::FlexibleWeapon => 542990282721,
        Stat::Polearm => 270811086848,
        Stat::Slashing => 305953292288,
        Stat::Staff => 202873864192,
        Stat::Thrusting => 340617163648,
        Stat::Sword => 202903420928,
        Stat::Hammer => 234306093056,
        Stat::Axe => 129329266688,
        Stat::Spear => 202882170880,
        Stat::Blade => 198310428672,
        Stat::Blunt => 198352535552,
        Stat::Piercing => 305156358144,
        Stat::LargeWeapon => 441548665070,
        Stat::CelticSpear => 439120377970,
        Stat::Scythe => 237284163584,
        Stat::HandToHand => 440466486372,
        Stat::AllMeleeSkills => 576022115051,
        Stat::AllArcherySkills => 644741591775,
        Stat::ShortBow => 340342389632,
        Stat::RecurveBow => 408768311552,
        Stat::Composite => 336043192960,
        Stat::LongBow => 304101310464,
        Stat::ThrownWeapon => 478056018671,
        Stat::Crossbow => 301687685120,
        Stat::AllDualWieldingSkills => 850900021221,
        Stat::CelticDual => 404760640128,
        Stat::LeftAxe => 304084746240,
        Stat::DualWield => 370646136320,
        Stat::CriticalStrike => 542193299442,
        Stat::Shield => 237250363392,
        Stat::Parry => 202104406016,
        Stat::Envenom => 267879268352,
        Stat::Stealth => 271601647616,
        Stat::Savagery => 305997037568,
        Stat::Nightshade => 373343007232,
        Stat::Pathfinding => 408266880128,
        Stat::ArmorFactor => 438585520626,
        Stat::SpellRange => 409040795392,
        Stat::MeleeSpeed => 407444746880,
        Stat::MeleeDamage => 441804486373,
        Stat::RangedDamage => 477510627559,
        Stat::ArcherySpeed => 472924174821,
        Stat::BuffEffectiveness => 644997559017,
        Stat::CastingSpeed => 473494796773,
        Stat::DebuffEffectiveness => 714245763939,
        Stat::HealingEffectiveness => 749676999397,
        Stat::PowerPoolToa => 511352338420,
        Stat::ResistPierce => 477521147107,
        Stat::SpellDamage => 443400533733,
        Stat::SpellDuration => 512120011113,
        Stat::StyleDamage => 443442476773,
        Stat::ArcaneSyphon => 472924060911,
        Stat::Fatigue => 268143575040,
        Stat::AllFocusLevels => 576022116837,
        Stat::UnknownRangerStuff => 718827927911,
        Stat::UnknownStuffAgain => 684468189670,
        Stat::UnknownStuffAgain2 => 718827928038,
    }
}

/// The names of some of the stats have their marks.
proof fn lemma_stat_marks_0(stat: Stat)
    requires
        stat == Stat::Strength
            || stat == Stat::Dexterity
            || stat == Stat::Constitution
            || stat == Stat::Quickness
            || stat == Stat::Intelligence
            || stat == Stat::Piety
            || stat == Stat::Empathy
            || stat == Stat::Charisma
            || stat == Stat::Acuity
            || stat == Stat::Hitpoints
            || stat == Stat::StrengthCap
            || stat == Stat::DexterityCap,
    ensures
        stat_mark_of(stat.spec_name()) == stat_mark(stat),
{
    reveal(stat_info);
    reveal_strlit("strength");
    reveal_strlit("dexterity");
    reveal_strlit("constitution");
    reveal_strlit("quickness");
    reveal_strlit("intelligence");
    reveal_strlit("piety");
    reveal_strlit("empathy");
    reveal_strlit("charisma");
    reveal_strlit("acuity");
    reveal_strlit("hitpoints");
    reveal_strlit("strength_cap");
    reveal_strlit("dexterity_cap");
}

/// The names of some of the stats have their marks.
proof fn lemma_stat_marks_1(stat: Stat)
    requires
        stat == Stat::ConstitutionCap
            || stat == Stat::QuicknessCap
            || stat == Stat::IntelligenceCap
            || stat == Stat::PietyCap
            || stat == Stat::EmpathyCap
            || stat == Stat::CharismaCap
            || stat == Stat::AcuityCap
            || stat == Stat::HitpointsCap
            || stat == Stat::PowerPoolCap
            || stat == Stat::BodyResist
            || stat == Stat::ColdResist
            || stat == Stat::CrushResist,
    ensures
        stat_mark_of(stat.spec_name()) == stat_mark(stat),
{
    reveal(stat_info);
    reveal_strlit("constitution_cap");
    reveal_strlit("quickness_cap");
    reveal_strlit("intelligence_cap");
    reveal_strlit("piety_cap");
    reveal_strlit("empathy_cap");
    reveal_strlit("charisma_cap");
    reveal_strlit("acuity_cap");
    reveal_strlit("hitpoints_cap");
    reveal_strlit("power_pool_cap");
    reveal_strlit("body_resist");
    reveal_strlit("cold_resist");
    reveal_strlit("crush_resist");
}

/// The names of some of the stats have their marks.
proof fn lemma_stat_marks_2(stat: Stat)
    requires
        stat == Stat::EnergyResist
            || stat == Stat::HeatResist
            || stat == Stat::MatterResist
            || stat == Stat::SlashResist
            || stat == Stat::SpiritResist
            || stat == Stat::ThrustResist
            || stat == Stat::EssenceResist
            || stat == Stat::Body
            || stat == Stat::Chants
            || stat == Stat::DeathServant
            || stat == Stat::Deathsight
            || stat == Stat::Earth,
    ensures
        stat_mark_of(stat.spec_name()) == stat_mark(stat),
{
    reveal(stat_info);
    reveal_strlit("energy_resist");
    reveal_strlit("heat_resist");
    reveal_strlit("matter_resist");
    reveal_strlit("slash_resist");
    reveal_strlit("spirit_resist");
    reveal_strlit("thrust_resist");
    reveal_strlit("essence_resist");
    reveal_strlit("body");
    reveal_strlit("chants");
    reveal_strlit("death_servant");
    reveal_strlit("deathsight");
    reveal_strlit("earth");
}

/// The names of some of the stats have their marks.
proof fn lemma_stat_marks_3(stat: Stat)
    requires
        stat == Stat::Enhancement
            || stat == Stat::Fire
            || stat == Stat::Cold
            || stat == Stat::Instruments
            || stat == Stat::Matter
            || stat == Stat::Mind
            || stat == Stat::PainWorking
            || stat == Stat::Rejuvenation
            || stat == Stat::Smiting
            || stat == Stat::SoulRending
            || stat == Stat::Spirit
            || stat == Stat::Wind,
    ensures
        stat_mark_of(stat.spec_name()) == stat_mark(stat),
{
    reveal(stat_info);
    reveal_strlit("enhancement");
    reveal_strlit("fire");
    reveal_strlit("cold");
    reveal_strlit("instruments");
    reveal_strlit("matter");
    reveal_strlit("mind");
    reveal_strlit("pain_working");
    reveal_strlit("rejuvenation");
    reveal_strlit("smiting");
    reveal_strlit("soul_rending");
    reveal_strlit("spirit");
    reveal_strlit("wind");
}

/// The names of some of the stats have their marks.
proof fn lemma_stat_marks_4(stat: Stat)
    requires
        stat == Stat::Mending
            || stat == Stat::Augmentation
            || stat == Stat::Darkness
            || stat == Stat::Suppression
            || stat == Stat::Runecarving
            || stat == Stat::Stormcalling
            || stat == Stat::Beastcraft
            || stat == Stat::Light
            || stat == Stat::Void
            || stat == Stat::Mana
            || stat == Stat::Battlesongs
            || stat == Stat::Enchantments,
    ensures
        stat_mark_of(stat.spec_name()) == stat_mark(stat),
{
    reveal(stat_info);
    reveal_strlit("mending");
    reveal_strlit("augmentation");
    reveal_strlit("darkness");
    reveal_strlit("suppression");
    reveal_strlit("runecarving");
    reveal_strlit("stormcalling");
    reveal_strlit("beastcraft");
    reveal_strlit("light");
    reveal_strlit("void");
    reveal_strlit("mana");
    reveal_strlit("battlesongs");
    reveal_strlit("enchantments");
}

/// The names of some of the stats have their marks.
proof fn lemma_stat_marks_5(stat: Stat)
    requires
        stat == Stat::Mentalism
            || stat == Stat::Regrowth
            || stat == Stat::Nurture
            || stat == Stat::Nature
            || stat == Stat::Music
            || stat == Stat::Valor
            || stat == Stat::Subterranean
            || stat == Stat::BoneArmy
            || stat == Stat::Verdant
            || stat == Stat::Creeping
            || stat == Stat::Arboreal
            || stat == Stat::Pacification,
    ensures
        stat_mark_of(stat.spec_name()) == stat_mark(stat),
{
    reveal(stat_info);
    reveal_strlit("mentalism");
    reveal_strlit("regrowth");
    reveal_strlit("nurture");
    reveal_strlit("nature");
    reveal_strlit("music");
    reveal_strlit("valor");
    reveal_strlit("subterranean");
    reveal_strlit("bone_army");
    reveal_strlit("verdant");
    reveal_strlit("creeping");
    reveal_strlit("arboreal");
    reveal_strlit("pacification");
}

/// The names of some of the stats have their marks.
proof fn lemma_stat_marks_6(stat: Stat)
    requires
        stat == Stat::Summoning
            || stat == Stat::AllMagicSkills
            || stat == Stat::TwoHanded
            || stat == Stat::Crushing
            || stat == Stat::FlexibleWeapon
            || stat == Stat::Polearm
            || stat == Stat::Slashing
            || stat == Stat::Staff
            || stat == Stat::Thrusting
            || stat == Stat::Sword
            || stat == Stat::Hammer
            || stat == Stat::Axe,
    ensures
        stat_mark_of(stat.spec_name()) == stat_mark(stat),
{
    reveal(stat_info);
    reveal_strlit("summoning");
    reveal_strlit("all_magic_skills");
    reveal_strlit("two_handed");
    reveal_strlit("crushing");
    reveal_strlit("flexible_weapon");
    reveal_strlit("polearm");
    reveal_strlit("slashing");
    reveal_strlit("staff");
    reveal_strlit("thrusting");
    reveal_strlit("sword");
    reveal_strlit("hammer");
    reveal_strlit("axe");
}

/// The names of some of the stats have their marks.
proof fn lemma_stat_marks_7(stat: Stat)
    requires
        stat == Stat::Spear
            || stat == Stat::Blade
            || stat == Stat::Blunt
            || stat == Stat::Piercing
            || stat == Stat::LargeWeapon
            || stat == Stat::CelticSpear
            || stat == Stat::Scythe
            || stat == Stat::HandToHand
            || stat == Stat::AllMeleeSkills
            || stat == Stat::AllArcherySkills
            || stat == Stat::ShortBow
            || stat == Stat::RecurveBow,
    ensures
        stat_mark_of(stat.spec_name()) == stat_mark(stat),
{
    reveal(stat_info);
    reveal_strlit("spear");
    reveal_strlit("blade");
    reveal_strlit("blunt");
    reveal_strlit("piercing");
    reveal_strlit("large_weapon");
    reveal_strlit("celtic_spear");
    reveal_strlit("scythe");
    reveal_strlit("hand_to_hand");
    reveal_strlit("all_melee_skills");
    reveal_strlit("all_archery_skills");
    reveal_strlit("short_bow");
    reveal_strlit("recurve_bow");
}

/// The names of some of the stats have their marks.
proof fn lemma_stat_marks_8(stat: Stat)
    requires
        stat == Stat::Composite
            || stat == Stat::LongBow
            || stat == Stat::ThrownWeapon
            || stat == Stat::Crossbow
            || stat == Stat::AllDualWieldingSkills
            || stat == Stat::CelticDual
            || stat == Stat::LeftAxe
            || stat == Stat::DualWield
            || stat == Stat::CriticalStrike
            || stat == Stat::Shield
            || stat == Stat::Parry
            || stat == Stat::Envenom,
    ensures
        stat_mark_of(stat.spec_name()) == stat_mark(stat),
{
    reveal(stat_info);
    reveal_strlit("composite");
    reveal_strlit("long_bow");
    reveal_strlit("thrown_weapon");
    reveal_strlit("crossbow");
    reveal_strlit("all_dual_wielding_skills");
    reveal_strlit("celtic_dual");
    reveal_strlit("left_axe");
    reveal_strlit("dual_wield");
    reveal_strlit("critical_strike");
    reveal_strlit("shield");
    reveal_strlit("parry");
    reveal_strlit("envenom");
}

/// The names of some of the stats have their marks.
proof fn lemma_stat_marks_9(stat: Stat)
    requires
        stat == Stat::Stealth
            || stat == Stat::Savagery
            || stat == Stat::Nightshade
            || stat == Stat::Pathfinding
            || stat == Stat::ArmorFactor
            || stat == Stat::SpellRange
            || stat == Stat::MeleeSpeed
            || stat == Stat::MeleeDamage
            || stat == Stat::RangedDamage
            || stat == Stat::ArcherySpeed
            || stat == Stat::BuffEffectiveness
            || stat == Stat::CastingSpeed,
    ensures
        stat_mark_of(stat.spec_name()) == stat_mark(stat),
{
    reveal(stat_info);
    reveal_strlit("stealth");
    reveal_strlit("savagery");
    reveal_strlit("nightshade");
    reveal_strlit("pathfinding");
    reveal_strlit("armor_factor");
    reveal_strlit("spell_range");
    reveal_strlit("melee_speed");
    reveal_strlit("melee_damage");
    reveal_strlit("ranged_damage");
    reveal_strlit("archery_speed");
    reveal_strlit("buff_effectiveness");
    reveal_strlit("casting_speed");
}

/// The names of some of the stats have their marks.
proof fn lemma_stat_marks_10(stat: Stat)
    requires
        stat == Stat::DebuffEffectiveness
            || stat == Stat::HealingEffectiveness
            || stat == Stat::PowerPoolToa
            || stat == Stat::ResistPierce
            || stat == Stat::SpellDamage
            || stat == Stat::SpellDuration
            || stat == Stat::StyleDamage
            || stat == Stat::ArcaneSyphon
            || stat == Stat::Fatigue
            || stat == Stat::AllFocusLevels
            || stat == Stat::UnknownRangerStuff
            || stat == Stat::UnknownStuffAgain,
    ensures
        stat_mark_of(stat.spec_name()) == stat_mark(stat),
{
    reveal(stat_info);
    reveal_strlit("debuff_effectiveness");
    reveal_strlit("healing_effectiveness");
    reveal_strlit("power_pool_toa");
    reveal_strlit("resist_pierce");
    reveal_strlit("spell_damage");
    reveal_strlit("spell_duration");
    reveal_strlit("style_damage");
    reveal_strlit("arcane_syphon");
    reveal_strlit("fatigue");
    reveal_strlit("all_focus_levels");
    reveal_strlit("unknown_ranger_stuff");
    reveal_strlit("unknown_stuff_again");
}

/// The names of some of the stats have their marks.
proof fn lemma_stat_marks_11(stat: Stat)
    requires
        stat == Stat::UnknownStuffAgain2,
    ensures
        stat_mark_of(stat.spec_name()) == stat_mark(stat),
{
    reveal(stat_info);
    reveal_strlit("unknown_stuff_again2");
}

/// No two stats go by the same name: the facts that name a stat name one
/// stat.
pub proof fn lemma_stat_names_differ(a: Stat, b: Stat)
    requires
        a.spec_name() == b.spec_name(),
    ensures
        a == b,
{
    lemma_stat_mark(a);
    lemma_stat_mark(b);
    assert(stat_mark(a) == stat_mark(b));
}

/// The name of a stat has the mark of the stat.
proof fn lemma_stat_mark(stat: Stat)
    ensures
        stat_mark_of(stat.spec_name()) == stat_mark(stat),
{
    match stat {
        Stat::Strength
        | Stat::Dexterity
        | Stat::Constitution
        | Stat::Quickness
        | Stat::Intelligence
        | Stat::Piety
        | Stat::Empathy
        | Stat::Charisma
        | Stat::Acuity
        | Stat::Hitpoints
        | Stat::StrengthCap
        | Stat::DexterityCap => {
            lemma_stat_marks_0(stat);
        },
        Stat::ConstitutionCap
        | Stat::QuicknessCap
        | Stat::IntelligenceCap
        | Stat::PietyCap
        | Stat::EmpathyCap
        | Stat::CharismaCap
        | Stat::AcuityCap
        | Stat::HitpointsCap
        | Stat::PowerPoolCap
        | Stat::BodyResist
        | Stat::ColdResist
        | Stat::CrushResist => {
            lemma_stat_marks_1(stat);
        },
        Stat::EnergyResist
        | Stat::HeatResist
        | Stat::MatterResist
        | Stat::SlashResist
        | Stat::SpiritResist
        | Stat::ThrustResist
        | Stat::EssenceResist
        | Stat::Body
        | Stat::Chants
        | Stat::DeathServant
        | Stat::Deathsight
        | Stat::Earth => {
            lemma_stat_marks_2(stat);
        },
        Stat::Enhancement
        | Stat::Fire
        | Stat::Cold
        | Stat::Instruments
        | Stat::Matter
        | Stat::Mind
        | Stat::PainWorking
        | Stat::Rejuvenation
        | Stat::Smiting
        | Stat::SoulRending
        | Stat::Spirit
        | Stat::Wind => {
            lemma_stat_marks_3(stat);
        },
        Stat::Mending
        | Stat::Augmentation
        | Stat::Darkness
        | Stat::Suppression
        | Stat::Runecarving
        | Stat::Stormcalling
        | Stat::Beastcraft
        | Stat::Light
        | Stat::Void
        | Stat::Mana
        | Stat::Battlesongs
        | Stat::Enchantments => {
            lemma_stat_marks_4(stat);
        },
        Stat::Mentalism
        | Stat::Regrowth
        | Stat::Nurture
        | Stat::Nature
        | Stat::Music
        | Stat::Valor
        | Stat::Subterranean
        | Stat::BoneArmy
        | Stat::Verdant
        | Stat::Creeping
        | Stat::Arboreal
        | Stat::Pacification => {
            lemma_stat_marks_5(stat);
        },
        Stat::Summoning
        | Stat::AllMagicSkills
        | Stat::TwoHanded
        | Stat::Crushing
        | Stat::FlexibleWeapon
        | Stat::Polearm
        | Stat::Slashing
        | Stat::Staff
        | Stat::Thrusting
        | Stat::Sword
        | Stat::Hammer
        | Stat::Axe => {
            lemma_stat_marks_6(stat);
        },
        Stat::Spear
        | Stat::Blade
        | Stat::Blunt
        | Stat::Piercing
        | Stat::LargeWeapon
        | Stat::CelticSpear
        | Stat::Scythe
        | Stat::HandToHand
        | Stat::AllMeleeSkills
        | Stat::AllArcherySkills
        | Stat::ShortBow
        | Stat::RecurveBow => {
            lemma_stat_marks_7(stat);
        },
        Stat::Composite
        | Stat::LongBow
        | Stat::ThrownWeapon
        | Stat::Crossbow
        | Stat::AllDualWieldingSkills
        | Stat::CelticDual
        | Stat::LeftAxe
        | Stat::DualWield
        | Stat::CriticalStrike
        | Stat::Shield
        | Stat::Parry
        | Stat::Envenom => {
            lemma_stat_marks_8(stat);
        },
        Stat::Stealth
        | Stat::Savagery
        | Stat::Nightshade
        | Stat::Pathfinding
        | Stat::ArmorFactor
        | Stat::SpellRange
        | Stat::MeleeSpeed
        | Stat::MeleeDamage
        | Stat::RangedDamage
        | Stat::ArcherySpeed
        | Stat::BuffEffectiveness
        | Stat::CastingSpeed => {
            lemma_stat_marks_9(stat);
        },
        Stat::DebuffEffectiveness
        | Stat::HealingEffectiveness
        | Stat::PowerPoolToa
        | Stat::ResistPierce
        | Stat::SpellDamage
        | Stat::SpellDuration
        | Stat::StyleDamage
        | Stat::ArcaneSyphon
        | Stat::Fatigue
        | Stat::AllFocusLevels
        | Stat::UnknownRangerStuff
        | Stat::UnknownStuffAgain => {
            lemma_stat_marks_10(stat);
        },
        Stat::UnknownStuffAgain2 => {
            lemma_stat_marks_11(stat);
        },
    }
}

/// A number that tells the names of the classes apart: it is made of the
/// length of the name and of two of its characters.
pub open spec fn class_mark_of(text: Seq<char>) -> int {
    ((text.len()) * 128 + letter(text, 0)) * 128 + letter(text, 3)
}

/// The mark of the name of each class.
pub open spec fn class_mark(class: Class) -> int {
    match class {
        Class::Paladin => 129121,
        Class::Armsman => 127219,
        Class::Scout => 96757,
        Class::Minstrel => 145139,
        Class::Theurgist => 162421,
        Class::Cleric => 111090,
        Class::Wizard => 113633,
        Class::Sorcerer => 145891,
        Class::Infiltrator => 193769,
        Class::Friar => 95073,
        Class::Mercenary => 161507,
        Class::Necromancer => 194418,
        Class::Cabalist => 143841,
        Class::Reaver => 113014,
        Class::Heretic => 128101,
        Class::Thane => 96878,
        Class::Warrior => 130034,
        Class::Shadowblade => 195044,
        Class::Skald => 96748,
        Class::Hunter => 111732,
        Class::Healer => 111724,
        Class::Spiritmaster => 211442,
        Class::Shaman => 113133,
        Class::Runemaster => 178533,
        Class::Bonedancer => 176485,
        Class::Berserker => 160115,
        Class::Savage => 113121,
        Class::Valkyrie => 146283,
        Class::Warlock => 130028,
        Class::Eldritch => 144114,
        Class::Enchanter => 160488,
        Class::Mentalist => 161524,
        Class::Blademaster => 192868,
        Class::Hero => 78959,
        Class::Champion => 143853,
        Class::Warden => 113636,
        Class::Druid => 94825,
        Class::Bard => 78180,
        Class::Nightshade => 178024,
        Class::Ranger => 112999,
        Class::Animist => 127213,
        Class::Valewalker => 179045,
        Class::Banshee => 127347,
    }
}

/// The name of a class has the mark of the class.
proof fn lemma_class_mark(class: Class)
    ensures
        class_mark_of(class.spec_name()) == class_mark(class),
{
    reveal_strlit("paladin");
    reveal_strlit("armsman");
    reveal_strlit("scout");
    reveal_strlit("minstrel");
    reveal_strlit("theurgist");
    reveal_strlit("cleric");
    reveal_strlit("wizard");
    reveal_strlit("sorcerer");
    reveal_strlit("infiltrator");
    reveal_strlit("friar");
    reveal_strlit("mercenary");
    reveal_strlit("necromancer");
    reveal_strlit("cabalist");
    reveal_strlit("reaver");
    reveal_strlit("heretic");
    reveal_strlit("thane");
    reveal_strlit("warrior");
    reveal_strlit("shadowblade");
    reveal_strlit("skald");
    reveal_strlit("hunter");
    reveal_strlit("healer");
    reveal_strlit("spiritmaster");
    reveal_strlit("shaman");
    reveal_strlit("runemaster");
    reveal_strlit("bonedancer");
    reveal_strlit("berserker");
    reveal_strlit("savage");
    reveal_strlit("valkyrie");
    reveal_strlit("warlock");
    reveal_strlit("eldritch");
    reveal_strlit("enchanter");
    reveal_strlit("mentalist");
    reveal_strlit("blademaster");
    reveal_strlit("hero");
    reveal_strlit("champion");
    reveal_strlit("warden");
    reveal_strlit("druid");
    reveal_strlit("bard");
    reveal_strlit("nightshade");
    reveal_strlit("ranger");
    reveal_strlit("animist");
    reveal_strlit("valewalker");
    reveal_strlit("banshee");
}

/// No two classes go by the same name.
pub proof fn lemma_class_names_differ(a: Class, b: Class)
    requires
        a.spec_name() == b.spec_name(),
    ensures
        a == b,
{
    lemma_class_mark(a);
    lemma_class_mark(b);
    assert(class_mark(a) == class_mark(b));
}

} // verus!
