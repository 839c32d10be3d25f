//! Stats: the attributes, resistances, skill lines and bonuses an item can grant.
//!
//! A stat is known to the game by a numeric identifier and to the solver by a
//! lower-case name. Each stat carries a utility per point, held here in
//! hundredths so that the solver sees integer coefficients, and a cap.

use vstd::prelude::*;

use crate::domain::stat_category::StatCategory;

verus! {

/// One stat of the game.
#[derive(Debug, Clone, Copy, PartialEq, Eq, Hash, Structural)]
pub enum Stat {
    /// The strength attribute.
    Strength,
    /// The dexterity attribute.
    Dexterity,
    /// The constitution attribute.
    Constitution,
    /// The quickness attribute.
    Quickness,
    /// The intelligence attribute.
    Intelligence,
    /// The piety attribute.
    Piety,
    /// The empathy attribute.
    Empathy,
    /// The charisma attribute.
    Charisma,
    /// The acuity attribute.
    Acuity,
    /// The hitpoints attribute.
    Hitpoints,
    /// Raises the cap of strength.
    StrengthCap,
    /// Raises the cap of dexterity.
    DexterityCap,
    /// Raises the cap of constitution.
    ConstitutionCap,
    /// Raises the cap of quickness.
    QuicknessCap,
    /// Raises the cap of intelligence.
    IntelligenceCap,
    /// Raises the cap of piety.
    PietyCap,
    /// Raises the cap of empathy.
    EmpathyCap,
    /// Raises the cap of charisma.
    CharismaCap,
    /// Raises the cap of acuity.
    AcuityCap,
    /// Raises the cap of hitpoints.
    HitpointsCap,
    /// Raises the cap of power pool.
    PowerPoolCap,
    /// Resistance against body damage.
    BodyResist,
    /// Resistance against cold damage.
    ColdResist,
    /// Resistance against crush damage.
    CrushResist,
    /// Resistance against energy damage.
    EnergyResist,
    /// Resistance against heat damage.
    HeatResist,
    /// Resistance against matter damage.
    MatterResist,
    /// Resistance against slash damage.
    SlashResist,
    /// Resistance against spirit damage.
    SpiritResist,
    /// Resistance against thrust damage.
    ThrustResist,
    /// Resistance against essence damage.
    EssenceResist,
    /// The body magic skill line.
    Body,
    /// The chants magic skill line.
    Chants,
    /// The death servant magic skill line.
    DeathServant,
    /// The deathsight magic skill line.
    Deathsight,
    /// The earth magic skill line.
    Earth,
    /// The enhancement magic skill line.
    Enhancement,
    /// The fire magic skill line.
    Fire,
    /// The cold magic skill line.
    Cold,
    /// The instruments magic skill line.
    Instruments,
    /// The matter magic skill line.
    Matter,
    /// The mind magic skill line.
    Mind,
    /// The pain working magic skill line.
    PainWorking,
    /// The rejuvenation magic skill line.
    Rejuvenation,
    /// The smiting magic skill line.
    Smiting,
    /// The soul rending magic skill line.
    SoulRending,
    /// The spirit magic skill line.
    Spirit,
    /// The wind magic skill line.
    Wind,
    /// The mending magic skill line.
    Mending,
    /// The augmentation magic skill line.
    Augmentation,
    /// The darkness magic skill line.
    Darkness,
    /// The suppression magic skill line.
    Suppression,
    /// The runecarving magic skill line.
    Runecarving,
    /// The stormcalling magic skill line.
    Stormcalling,
    /// The beastcraft magic skill line.
    Beastcraft,
    /// The light magic skill line.
    Light,
    /// The void magic skill line.
    Void,
    /// The mana magic skill line.
    Mana,
    /// The battlesongs magic skill line.
    Battlesongs,
    /// The enchantments magic skill line.
    Enchantments,
    /// The mentalism magic skill line.
    Mentalism,
    /// The regrowth magic skill line.
    Regrowth,
    /// The nurture magic skill line.
    Nurture,
    /// The nature magic skill line.
    Nature,
    /// The music magic skill line.
    Music,
    /// The valor magic skill line.
    Valor,
    /// The subterranean magic skill line.
    Subterranean,
    /// The bone army magic skill line.
    BoneArmy,
    /// The verdant magic skill line.
    Verdant,
    /// The creeping magic skill line.
    Creeping,
    /// The arboreal magic skill line.
    Arboreal,
    /// The pacification magic skill line.
    Pacification,
    /// The summoning magic skill line.
    Summoning,
    /// Every magic skill line at once.
    AllMagicSkills,
    /// The two handed melee skill line.
    TwoHanded,
    /// The crushing melee skill line.
    Crushing,
    /// The flexible weapon melee skill line.
    FlexibleWeapon,
    /// The polearm melee skill line.
    Polearm,
    /// The slashing melee skill line.
    Slashing,
    /// The staff melee skill line.
    Staff,
    /// The thrusting melee skill line.
    Thrusting,
    /// The sword melee skill line.
    Sword,
    /// The hammer melee skill line.
    Hammer,
    /// The axe melee skill line.
    Axe,
    /// The spear melee skill line.
    Spear,
    /// The blade melee skill line.
    Blade,
    /// The blunt melee skill line.
    Blunt,
    /// The piercing melee skill line.
    Piercing,
    /// The large weapon melee skill line.
    LargeWeapon,
    /// The celtic spear melee skill line.
    CelticSpear,
    /// The scythe melee skill line.
    Scythe,
    /// The hand to hand melee skill line.
    HandToHand,
    /// Every melee skill line at once.
    AllMeleeSkills,
    /// Every archery skill line at once.
    AllArcherySkills,
    /// The short bow archery skill line.
    ShortBow,
    /// The recurve bow archery skill line.
    RecurveBow,
    /// The composite bow archery skill line.
    Composite,
    /// The long bow archery skill line.
    LongBow,
    /// The thrown weapon archery skill line.
    ThrownWeapon,
    /// The crossbow archery skill line.
    Crossbow,
    /// Every dual wielding skill line at once.
    AllDualWieldingSkills,
    /// The celtic dual skill line, for two weapons.
    CelticDual,
    /// The left axe skill line, for two weapons.
    LeftAxe,
    /// The dual wield skill line, for two weapons.
    DualWield,
    /// The critical strike skill line.
    CriticalStrike,
    /// The shield skill line.
    Shield,
    /// The parry skill line.
    Parry,
    /// The envenom skill line.
    Envenom,
    /// The stealth skill line.
    Stealth,
    /// The savagery skill line.
    Savagery,
    /// The nightshade skill line.
    Nightshade,
    /// The pathfinding skill line.
    Pathfinding,
    /// The armor factor bonus.
    ArmorFactor,
    /// The spell range bonus.
    SpellRange,
    /// The melee speed bonus.
    MeleeSpeed,
    /// The melee damage bonus.
    MeleeDamage,
    /// The ranged damage bonus.
    RangedDamage,
    /// The archery speed bonus.
    ArcherySpeed,
    /// The buff effectiveness bonus.
    BuffEffectiveness,
    /// The casting speed bonus.
    CastingSpeed,
    /// The debuff effectiveness bonus.
    DebuffEffectiveness,
    /// The healing effectiveness bonus.
    HealingEffectiveness,
    /// The power pool toa bonus.
    PowerPoolToa,
    /// The resist pierce bonus.
    ResistPierce,
    /// The spell damage bonus.
    SpellDamage,
    /// The spell duration bonus.
    SpellDuration,
    /// The style damage bonus.
    StyleDamage,
    /// The arcane syphon bonus.
    ArcaneSyphon,
    /// The fatigue stat, which no template weighs.
    Fatigue,
    /// The all focus levels stat, which no template weighs.
    AllFocusLevels,
    /// The unknown ranger stuff stat, which no template weighs.
    UnknownRangerStuff,
    /// The unknown stuff again stat, which no template weighs.
    UnknownStuffAgain,
    /// The unknown stuff again 2 stat, which no template weighs.
    UnknownStuffAgain2,
}

/// The highest identifier that any stat has.
pub const MAX_STAT_ID: u16 = 254;

/// What is recorded of the stat with identifier `id`: its name, its utility per
/// point in hundredths, and its cap. An identifier that no stat has yields the
/// entry `("unknown", 0, 0)`.
#[verifier::opaque]
pub open spec fn stat_info(id: u16) -> (Seq<char>, int, int) {
    if id == 1 {
        ("strength"@, 67, 75)
    } else if id == 2 {
        ("dexterity"@, 67, 75)
    } else if id == 3 {
        ("constitution"@, 67, 75)
    } else if id == 4 {
        ("quickness"@, 67, 75)
    } else if id == 5 {
        ("intelligence"@, 67, 75)
    } else if id == 6 {
        ("piety"@, 67, 75)
    } else if id == 7 {
        ("empathy"@, 67, 75)
    } else if id == 8 {
        ("charisma"@, 67, 75)
    } else if id == 156 {
        ("acuity"@, 67, 75)
    } else if id == 10 {
        ("hitpoints"@, 25, 200)
    } else if id == 201 {
        ("strength_cap"@, 200, 26)
    } else if id == 202 {
        ("dexterity_cap"@, 200, 26)
    } else if id == 203 {
        ("constitution_cap"@, 200, 26)
    } else if id == 204 {
        ("quickness_cap"@, 200, 26)
    } else if id == 205 {
        ("intelligence_cap"@, 200, 26)
    } else if id == 206 {
        ("piety_cap"@, 200, 26)
    } else if id == 207 {
        ("empathy_cap"@, 200, 26)
    } else if id == 208 {
        ("charisma_cap"@, 200, 26)
    } else if id == 209 {
        ("acuity_cap"@, 200, 26)
    } else if id == 210 {
        ("hitpoints_cap"@, 200, 200)
    } else if id == 211 {
        ("power_pool_cap"@, 200, 26)
    } else if id == 11 {
        ("body_resist"@, 200, 26)
    } else if id == 12 {
        ("cold_resist"@, 200, 26)
    } else if id == 13 {
        ("crush_resist"@, 200, 26)
    } else if id == 14 {
        ("energy_resist"@, 200, 26)
    } else if id == 15 {
        ("heat_resist"@, 200, 26)
    } else if id == 16 {
        ("matter_resist"@, 200, 26)
    } else if id == 17 {
        ("slash_resist"@, 200, 26)
    } else if id == 18 {
        ("spirit_resist"@, 200, 26)
    } else if id == 19 {
        ("thrust_resist"@, 200, 26)
    } else if id == 116 {
        ("essence_resist"@, 200, 26)
    } else if id == 21 {
        ("body"@, 500, 11)
    } else if id == 22 {
        ("chants"@, 500, 11)
    } else if id == 26 {
        ("death_servant"@, 500, 11)
    } else if id == 27 {
        ("deathsight"@, 500, 11)
    } else if id == 29 {
        ("earth"@, 500, 11)
    } else if id == 30 {
        ("enhancement"@, 500, 11)
    } else if id == 32 {
        ("fire"@, 500, 11)
    } else if id == 34 {
        ("cold"@, 500, 11)
    } else if id == 35 {
        ("instruments"@, 500, 11)
    } else if id == 37 {
        ("matter"@, 500, 11)
    } else if id == 38 {
        ("mind"@, 500, 11)
    } else if id == 39 {
        ("pain_working"@, 500, 11)
    } else if id == 42 {
        ("rejuvenation"@, 500, 11)
    } else if id == 45 {
        ("smiting"@, 500, 11)
    } else if id == 46 {
        ("soul_rending"@, 500, 11)
    } else if id == 47 {
        ("spirit"@, 500, 11)
    } else if id == 51 {
        ("wind"@, 500, 11)
    } else if id == 57 {
        ("mending"@, 500, 11)
    } else if id == 58 {
        ("augmentation"@, 500, 11)
    } else if id == 60 {
        ("darkness"@, 500, 11)
    } else if id == 61 {
        ("suppression"@, 500, 11)
    } else if id == 62 {
        ("runecarving"@, 500, 11)
    } else if id == 63 {
        ("stormcalling"@, 500, 11)
    } else if id == 64 {
        ("beastcraft"@, 500, 11)
    } else if id == 65 {
        ("light"@, 500, 11)
    } else if id == 66 {
        ("void"@, 500, 11)
    } else if id == 67 {
        ("mana"@, 500, 11)
    } else if id == 69 {
        ("battlesongs"@, 500, 11)
    } else if id == 70 {
        ("enchantments"@, 500, 11)
    } else if id == 76 {
        ("mentalism"@, 500, 11)
    } else if id == 77 {
        ("regrowth"@, 500, 11)
    } else if id == 78 {
        ("nurture"@, 500, 11)
    } else if id == 79 {
        ("nature"@, 500, 11)
    } else if id == 80 {
        ("music"@, 500, 11)
    } else if id == 84 {
        ("valor"@, 500, 11)
    } else if id == 85 {
        ("subterranean"@, 500, 11)
    } else if id == 86 {
        ("bone_army"@, 500, 11)
    } else if id == 87 {
        ("verdant"@, 500, 11)
    } else if id == 88 {
        ("creeping"@, 500, 11)
    } else if id == 89 {
        ("arboreal"@, 500, 11)
    } else if id == 94 {
        ("pacification"@, 500, 11)
    } else if id == 98 {
        ("summoning"@, 500, 11)
    } else if id == 163 {
        ("all_magic_skills"@, 500, 11)
    } else if id == 20 {
        ("two_handed"@, 500, 11)
    } else if id == 25 {
        ("crushing"@, 500, 11)
    } else if id == 33 {
        ("flexible_weapon"@, 500, 11)
    } else if id == 41 {
        ("polearm"@, 500, 11)
    } else if id == 44 {
        ("slashing"@, 500, 11)
    } else if id == 48 {
        ("staff"@, 500, 11)
    } else if id == 50 {
        ("thrusting"@, 500, 11)
    } else if id == 52 {
        ("sword"@, 500, 11)
    } else if id == 53 {
        ("hammer"@, 500, 11)
    } else if id == 54 {
        ("axe"@, 500, 11)
    } else if id == 56 {
        ("spear"@, 500, 11)
    } else if id == 72 {
        ("blade"@, 500, 11)
    } else if id == 73 {
        ("blunt"@, 500, 11)
    } else if id == 74 {
        ("piercing"@, 500, 11)
    } else if id == 75 {
        ("large_weapon"@, 500, 11)
    } else if id == 82 {
        ("celtic_spear"@, 500, 11)
    } else if id == 90 {
        ("scythe"@, 500, 11)
    } else if id == 92 {
        ("hand_to_hand"@, 500, 11)
    } else if id == 164 {
        ("all_melee_skills"@, 500, 11)
    } else if id == 168 {
        ("all_archery_skills"@, 500, 11)
    } else if id == 93 {
        ("short_bow"@, 500, 11)
    } else if id == 83 {
        ("recurve_bow"@, 500, 11)
    } else if id == 68 {
        ("composite"@, 500, 11)
    } else if id == 36 {
        ("long_bow"@, 500, 11)
    } else if id == 91 {
        ("thrown_weapon"@, 500, 11)
    } else if id == 24 {
        ("crossbow"@, 500, 11)
    } else if id == 167 {
        ("all_dual_wielding_skills"@, 500, 11)
    } else if id == 81 {
        ("celtic_dual"@, 500, 11)
    } else if id == 55 {
        ("left_axe"@, 500, 11)
    } else if id == 28 {
        ("dual_wield"@, 500, 11)
    } else if id == 23 {
        ("critical_strike"@, 500, 11)
    } else if id == 43 {
        ("shield"@, 500, 11)
    } else if id == 40 {
        ("parry"@, 500, 11)
    } else if id == 31 {
        ("envenom"@, 500, 11)
    } else if id == 49 {
        ("stealth"@, 500, 11)
    } else if id == 95 {
        ("savagery"@, 500, 11)
    } else if id == 96 {
        ("nightshade"@, 500, 11)
    } else if id == 97 {
        ("pathfinding"@, 500, 11)
    } else if id == 148 {
        ("armor_factor"@, 100, 50)
    } else if id == 153 {
        ("spell_range"@, 200, 25)
    } else if id == 155 {
        ("melee_speed"@, 200, 10)
    } else if id == 173 {
        ("melee_damage"@, 200, 10)
    } else if id == 174 {
        ("ranged_damage"@, 200, 10)
    } else if id == 188 {
        ("archery_speed"@, 200, 10)
    } else if id == 190 {
        ("buff_effectiveness"@, 200, 25)
    } else if id == 191 {
        ("casting_speed"@, 200, 10)
    } else if id == 193 {
        ("debuff_effectiveness"@, 200, 25)
    } else if id == 195 {
        ("healing_effectiveness"@, 200, 25)
    } else if id == 196 {
        ("power_pool_toa"@, 200, 25)
    } else if id == 197 {
        ("resist_pierce"@, 200, 10)
    } else if id == 198 {
        ("spell_damage"@, 200, 10)
    } else if id == 199 {
        ("spell_duration"@, 200, 25)
    } else if id == 200 {
        ("style_damage"@, 200, 10)
    } else if id == 254 {
        ("arcane_syphon"@, 200, 10)
    } else if id == 194 {
        ("fatigue"@, 0, 100)
    } else if id == 165 {
        ("all_focus_levels"@, 0, 50)
    } else if id == 115 {
        ("unknown_ranger_stuff"@, 0, 100)
    } else if id == 99 {
        ("unknown_stuff_again"@, 0, 100)
    } else if id == 101 {
        ("unknown_stuff_again2"@, 0, 100)
    } else {
        ("unknown"@, 0, 0)
    }
}

/// Looks up the entry of the stat with identifier `id`.
fn stat_info_map(id: u16) -> (info: (&'static str, i32, u16))
    ensures
        info.0@ == stat_info(id).0,
        info.1 == stat_info(id).1,
        info.2 == stat_info(id).2,
        0 <= info.1 <= 500,
        info.2 <= 200,
{
    reveal(stat_info);
    match id {
        1u16 => ("strength", 67, 75),
        2u16 => ("dexterity", 67, 75),
        3u16 => ("constitution", 67, 75),
        4u16 => ("quickness", 67, 75),
        5u16 => ("intelligence", 67, 75),
        6u16 => ("piety", 67, 75),
        7u16 => ("empathy", 67, 75),
        8u16 => ("charisma", 67, 75),
        156u16 => ("acuity", 67, 75),
        10u16 => ("hitpoints", 25, 200),
        201u16 => ("strength_cap", 200, 26),
        202u16 => ("dexterity_cap", 200, 26),
        203u16 => ("constitution_cap", 200, 26),
        204u16 => ("quickness_cap", 200, 26),
        205u16 => ("intelligence_cap", 200, 26),
        206u16 => ("piety_cap", 200, 26),
        207u16 => ("empathy_cap", 200, 26),
        208u16 => ("charisma_cap", 200, 26),
        209u16 => ("acuity_cap", 200, 26),
        210u16 => ("hitpoints_cap", 200, 200),
        211u16 => ("power_pool_cap", 200, 26),
        11u16 => ("body_resist", 200, 26),
        12u16 => ("cold_resist", 200, 26),
        13u16 => ("crush_resist", 200, 26),
        14u16 => ("energy_resist", 200, 26),
        15u16 => ("heat_resist", 200, 26),
        16u16 => ("matter_resist", 200, 26),
        17u16 => ("slash_resist", 200, 26),
        18u16 => ("spirit_resist", 200, 26),
        19u16 => ("thrust_resist", 200, 26),
        116u16 => ("essence_resist", 200, 26),
        21u16 => ("body", 500, 11),
        22u16 => ("chants", 500, 11),
        26u16 => ("death_servant", 500, 11),
        27u16 => ("deathsight", 500, 11),
        29u16 => ("earth", 500, 11),
        30u16 => ("enhancement", 500, 11),
        32u16 => ("fire", 500, 11),
        34u16 => ("cold", 500, 11),
        35u16 => ("instruments", 500, 11),
        37u16 => ("matter", 500, 11),
        38u16 => ("mind", 500, 11),
        39u16 => ("pain_working", 500, 11),
        42u16 => ("rejuvenation", 500, 11),
        45u16 => ("smiting", 500, 11),
        46u16 => ("soul_rending", 500, 11),
        47u16 => ("spirit", 500, 11),
        51u16 => ("wind", 500, 11),
        57u16 => ("mending", 500, 11),
        58u16 => ("augmentation", 500, 11),
        60u16 => ("darkness", 500, 11),
        61u16 => ("suppression", 500, 11),
        62u16 => ("runecarving", 500, 11),
        63u16 => ("stormcalling", 500, 11),
        64u16 => ("beastcraft", 500, 11),
        65u16 => ("light", 500, 11),
        66u16 => ("void", 500, 11),
        67u16 => ("mana", 500, 11),
        69u16 => ("battlesongs", 500, 11),
        70u16 => ("enchantments", 500, 11),
        76u16 => ("mentalism", 500, 11),
        77u16 => ("regrowth", 500, 11),
        78u16 => ("nurture", 500, 11),
        79u16 => ("nature", 500, 11),
        80u16 => ("music", 500, 11),
        84u16 => ("valor", 500, 11),
        85u16 => ("subterranean", 500, 11),
        86u16 => ("bone_army", 500, 11),
        87u16 => ("verdant", 500, 11),
        88u16 => ("creeping", 500, 11),
        89u16 => ("arboreal", 500, 11),
        94u16 => ("pacification", 500, 11),
        98u16 => ("summoning", 500, 11),
        163u16 => ("all_magic_skills", 500, 11),
        20u16 => ("two_handed", 500, 11),
        25u16 => ("crushing", 500, 11),
        33u16 => ("flexible_weapon", 500, 11),
        41u16 => ("polearm", 500, 11),
        44u16 => ("slashing", 500, 11),
        48u16 => ("staff", 500, 11),
        50u16 => ("thrusting", 500, 11),
        52u16 => ("sword", 500, 11),
        53u16 => ("hammer", 500, 11),
        54u16 => ("axe", 500, 11),
        56u16 => ("spear", 500, 11),
        72u16 => ("blade", 500, 11),
        73u16 => ("blunt", 500, 11),
        74u16 => ("piercing", 500, 11),
        75u16 => ("large_weapon", 500, 11),
        82u16 => ("celtic_spear", 500, 11),
        90u16 => ("scythe", 500, 11),
        92u16 => ("hand_to_hand", 500, 11),
        164u16 => ("all_melee_skills", 500, 11),
        168u16 => ("all_archery_skills", 500, 11),
        93u16 => ("short_bow", 500, 11),
        83u16 => ("recurve_bow", 500, 11),
        68u16 => ("composite", 500, 11),
        36u16 => ("long_bow", 500, 11),
        91u16 => ("thrown_weapon", 500, 11),
        24u16 => ("crossbow", 500, 11),
        167u16 => ("all_dual_wielding_skills", 500, 11),
        81u16 => ("celtic_dual", 500, 11),
        55u16 => ("left_axe", 500, 11),
        28u16 => ("dual_wield", 500, 11),
        23u16 => ("critical_strike", 500, 11),
        43u16 => ("shield", 500, 11),
        40u16 => ("parry", 500, 11),
        31u16 => ("envenom", 500, 11),
        49u16 => ("stealth", 500, 11),
        95u16 => ("savagery", 500, 11),
        96u16 => ("nightshade", 500, 11),
        97u16 => ("pathfinding", 500, 11),
        148u16 => ("armor_factor", 100, 50),
        153u16 => ("spell_range", 200, 25),
        155u16 => ("melee_speed", 200, 10),
        173u16 => ("melee_damage", 200, 10),
        174u16 => ("ranged_damage", 200, 10),
        188u16 => ("archery_speed", 200, 10),
        190u16 => ("buff_effectiveness", 200, 25),
        191u16 => ("casting_speed", 200, 10),
        193u16 => ("debuff_effectiveness", 200, 25),
        195u16 => ("healing_effectiveness", 200, 25),
        196u16 => ("power_pool_toa", 200, 25),
        197u16 => ("resist_pierce", 200, 10),
        198u16 => ("spell_damage", 200, 10),
        199u16 => ("spell_duration", 200, 25),
        200u16 => ("style_damage", 200, 10),
        254u16 => ("arcane_syphon", 200, 10),
        194u16 => ("fatigue", 0, 100),
        165u16 => ("all_focus_levels", 0, 50),
        115u16 => ("unknown_ranger_stuff", 0, 100),
        99u16 => ("unknown_stuff_again", 0, 100),
        101u16 => ("unknown_stuff_again2", 0, 100),
        _ => ("unknown", 0, 0),
    }
}

impl Stat {
    /// The numeric identifier of the stat.
    pub open spec fn spec_id(&self) -> u16 {
        match self {
            Stat::Strength => 1,
            Stat::Dexterity => 2,
            Stat::Constitution => 3,
            Stat::Quickness => 4,
            Stat::Intelligence => 5,
            Stat::Piety => 6,
            Stat::Empathy => 7,
            Stat::Charisma => 8,
            Stat::Acuity => 156,
            Stat::Hitpoints => 10,
            Stat::StrengthCap => 201,
            Stat::DexterityCap => 202,
            Stat::ConstitutionCap => 203,
            Stat::QuicknessCap => 204,
            Stat::IntelligenceCap => 205,
            Stat::PietyCap => 206,
            Stat::EmpathyCap => 207,
            Stat::CharismaCap => 208,
            Stat::AcuityCap => 209,
            Stat::HitpointsCap => 210,
            Stat::PowerPoolCap => 211,
            Stat::BodyResist => 11,
            Stat::ColdResist => 12,
            Stat::CrushResist => 13,
            Stat::EnergyResist => 14,
            Stat::HeatResist => 15,
            Stat::MatterResist => 16,
            Stat::SlashResist => 17,
            Stat::SpiritResist => 18,
            Stat::ThrustResist => 19,
            Stat::EssenceResist => 116,
            Stat::Body => 21,
            Stat::Chants => 22,
            Stat::DeathServant => 26,
            Stat::Deathsight => 27,
            Stat::Earth => 29,
            Stat::Enhancement => 30,
            Stat::Fire => 32,
            Stat::Cold => 34,
            Stat::Instruments => 35,
            Stat::Matter => 37,
            Stat::Mind => 38,
            Stat::PainWorking => 39,
            Stat::Rejuvenation => 42,
            Stat::Smiting => 45,
            Stat::SoulRending => 46,
            Stat::Spirit => 47,
            Stat::Wind => 51,
            Stat::Mending => 57,
            Stat::Augmentation => 58,
            Stat::Darkness => 60,
            Stat::Suppression => 61,
            Stat::Runecarving => 62,
            Stat::Stormcalling => 63,
            Stat::Beastcraft => 64,
            Stat::Light => 65,
            Stat::Void => 66,
            Stat::Mana => 67,
            Stat::Battlesongs => 69,
            Stat::Enchantments => 70,
            Stat::Mentalism => 76,
            Stat::Regrowth => 77,
            Stat::Nurture => 78,
            Stat::Nature => 79,
            Stat::Music => 80,
            Stat::Valor => 84,
            Stat::Subterranean => 85,
            Stat::BoneArmy => 86,
            Stat::Verdant => 87,
            Stat::Creeping => 88,
            Stat::Arboreal => 89,
            Stat::Pacification => 94,
            Stat::Summoning => 98,
            Stat::AllMagicSkills => 163,
            Stat::TwoHanded => 20,
            Stat::Crushing => 25,
            Stat::FlexibleWeapon => 33,
            Stat::Polearm => 41,
            Stat::Slashing => 44,
            Stat::Staff => 48,
            Stat::Thrusting => 50,
            Stat::Sword => 52,
            Stat::Hammer => 53,
            Stat::Axe => 54,
            Stat::Spear => 56,
            Stat::Blade => 72,
            Stat::Blunt => 73,
            Stat::Piercing => 74,
            Stat::LargeWeapon => 75,
            Stat::CelticSpear => 82,
            Stat::Scythe => 90,
            Stat::HandToHand => 92,
            Stat::AllMeleeSkills => 164,
            Stat::AllArcherySkills => 168,
            Stat::ShortBow => 93,
            Stat::RecurveBow => 83,
            Stat::Composite => 68,
            Stat::LongBow => 36,
            Stat::ThrownWeapon => 91,
            Stat::Crossbow => 24,
            Stat::AllDualWieldingSkills => 167,
            Stat::CelticDual => 81,
            Stat::LeftAxe => 55,
            Stat::DualWield => 28,
            Stat::CriticalStrike => 23,
            Stat::Shield => 43,
            Stat::Parry => 40,
            Stat::Envenom => 31,
            Stat::Stealth => 49,
            Stat::Savagery => 95,
            Stat::Nightshade => 96,
            Stat::Pathfinding => 97,
            Stat::ArmorFactor => 148,
            Stat::SpellRange => 153,
            Stat::MeleeSpeed => 155,
            Stat::MeleeDamage => 173,
            Stat::RangedDamage => 174,
            Stat::ArcherySpeed => 188,
            Stat::BuffEffectiveness => 190,
            Stat::CastingSpeed => 191,
            Stat::DebuffEffectiveness => 193,
            Stat::HealingEffectiveness => 195,
            Stat::PowerPoolToa => 196,
            Stat::ResistPierce => 197,
            Stat::SpellDamage => 198,
            Stat::SpellDuration => 199,
            Stat::StyleDamage => 200,
            Stat::ArcaneSyphon => 254,
            Stat::Fatigue => 194,
            Stat::AllFocusLevels => 165,
            Stat::UnknownRangerStuff => 115,
            Stat::UnknownStuffAgain => 99,
            Stat::UnknownStuffAgain2 => 101,
        }
    }

    /// Returns the numeric identifier of the stat.
    #[verifier::when_used_as_spec(spec_id)]
    pub fn id(&self) -> (id: u16)
        ensures
            id == self.spec_id(),
            1 <= id <= MAX_STAT_ID,
    {
        match self {
            Stat::Strength => 1,
            Stat::Dexterity => 2,
            Stat::Constitution => 3,
            Stat::Quickness => 4,
            Stat::Intelligence => 5,
            Stat::Piety => 6,
            Stat::Empathy => 7,
            Stat::Charisma => 8,
            Stat::Acuity => 156,
            Stat::Hitpoints => 10,
            Stat::StrengthCap => 201,
            Stat::DexterityCap => 202,
            Stat::ConstitutionCap => 203,
            Stat::QuicknessCap => 204,
            Stat::IntelligenceCap => 205,
            Stat::PietyCap => 206,
            Stat::EmpathyCap => 207,
            Stat::CharismaCap => 208,
            Stat::AcuityCap => 209,
            Stat::HitpointsCap => 210,
            Stat::PowerPoolCap => 211,
            Stat::BodyResist => 11,
            Stat::ColdResist => 12,
            Stat::CrushResist => 13,
            Stat::EnergyResist => 14,
            Stat::HeatResist => 15,
            Stat::MatterResist => 16,
            Stat::SlashResist => 17,
            Stat::SpiritResist => 18,
            Stat::ThrustResist => 19,
            Stat::EssenceResist => 116,
            Stat::Body => 21,
            Stat::Chants => 22,
            Stat::DeathServant => 26,
            Stat::Deathsight => 27,
            Stat::Earth => 29,
            Stat::Enhancement => 30,
            Stat::Fire => 32,
            Stat::Cold => 34,
            Stat::Instruments => 35,
            Stat::Matter => 37,
            Stat::Mind => 38,
            Stat::PainWorking => 39,
            Stat::Rejuvenation => 42,
            Stat::Smiting => 45,
            Stat::SoulRending => 46,
            Stat::Spirit => 47,
            Stat::Wind => 51,
            Stat::Mending => 57,
            Stat::Augmentation => 58,
            Stat::Darkness => 60,
            Stat::Suppression => 61,
            Stat::Runecarving => 62,
            Stat::Stormcalling => 63,
            Stat::Beastcraft => 64,
            Stat::Light => 65,
            Stat::Void => 66,
            Stat::Mana => 67,
            Stat::Battlesongs => 69,
            Stat::Enchantments => 70,
            Stat::Mentalism => 76,
            Stat::Regrowth => 77,
            Stat::Nurture => 78,
            Stat::Nature => 79,
            Stat::Music => 80,
            Stat::Valor => 84,
            Stat::Subterranean => 85,
            Stat::BoneArmy => 86,
            Stat::Verdant => 87,
            Stat::Creeping => 88,
            Stat::Arboreal => 89,
            Stat::Pacification => 94,
            Stat::Summoning => 98,
            Stat::AllMagicSkills => 163,
            Stat::TwoHanded => 20,
            Stat::Crushing => 25,
            Stat::FlexibleWeapon => 33,
            Stat::Polearm => 41,
            Stat::Slashing => 44,
            Stat::Staff => 48,
            Stat::Thrusting => 50,
            Stat::Sword => 52,
            Stat::Hammer => 53,
            Stat::Axe => 54,
            Stat::Spear => 56,
            Stat::Blade => 72,
            Stat::Blunt => 73,
            Stat::Piercing => 74,
            Stat::LargeWeapon => 75,
            Stat::CelticSpear => 82,
            Stat::Scythe => 90,
            Stat::HandToHand => 92,
            Stat::AllMeleeSkills => 164,
            Stat::AllArcherySkills => 168,
            Stat::ShortBow => 93,
            Stat::RecurveBow => 83,
            Stat::Composite => 68,
            Stat::LongBow => 36,
            Stat::ThrownWeapon => 91,
            Stat::Crossbow => 24,
            Stat::AllDualWieldingSkills => 167,
            Stat::CelticDual => 81,
            Stat::LeftAxe => 55,
            Stat::DualWield => 28,
            Stat::CriticalStrike => 23,
            Stat::Shield => 43,
            Stat::Parry => 40,
            Stat::Envenom => 31,
            Stat::Stealth => 49,
            Stat::Savagery => 95,
            Stat::Nightshade => 96,
            Stat::Pathfinding => 97,
            Stat::ArmorFactor => 148,
            Stat::SpellRange => 153,
            Stat::MeleeSpeed => 155,
            Stat::MeleeDamage => 173,
            Stat::RangedDamage => 174,
            Stat::ArcherySpeed => 188,
            Stat::BuffEffectiveness => 190,
            Stat::CastingSpeed => 191,
            Stat::DebuffEffectiveness => 193,
            Stat::HealingEffectiveness => 195,
            Stat::PowerPoolToa => 196,
            Stat::ResistPierce => 197,
            Stat::SpellDamage => 198,
            Stat::SpellDuration => 199,
            Stat::StyleDamage => 200,
            Stat::ArcaneSyphon => 254,
            Stat::Fatigue => 194,
            Stat::AllFocusLevels => 165,
            Stat::UnknownRangerStuff => 115,
            Stat::UnknownStuffAgain => 99,
            Stat::UnknownStuffAgain2 => 101,
        }
    }

    /// Finds the stat with identifier `id`, if there is one.
    pub fn from_repr(id: u16) -> (stat: Option<Stat>)
        ensures
            stat == Self::spec_from_repr(id),
            match stat {
                Some(s) => s.spec_id() == id,
                None => forall|s: Stat| s.spec_id() != id,
            },
    {
        let stat = match id {
            1u16 => Some(Stat::Strength),
            2u16 => Some(Stat::Dexterity),
            3u16 => Some(Stat::Constitution),
            4u16 => Some(Stat::Quickness),
            5u16 => Some(Stat::Intelligence),
            6u16 => Some(Stat::Piety),
            7u16 => Some(Stat::Empathy),
            8u16 => Some(Stat::Charisma),
            156u16 => Some(Stat::Acuity),
            10u16 => Some(Stat::Hitpoints),
            201u16 => Some(Stat::StrengthCap),
            202u16 => Some(Stat::DexterityCap),
            203u16 => Some(Stat::ConstitutionCap),
            204u16 => Some(Stat::QuicknessCap),
            205u16 => Some(Stat::IntelligenceCap),
            206u16 => Some(Stat::PietyCap),
            207u16 => Some(Stat::EmpathyCap),
            208u16 => Some(Stat::CharismaCap),
            209u16 => Some(Stat::AcuityCap),
            210u16 => Some(Stat::HitpointsCap),
            211u16 => Some(Stat::PowerPoolCap),
            11u16 => Some(Stat::BodyResist),
            12u16 => Some(Stat::ColdResist),
            13u16 => Some(Stat::CrushResist),
            14u16 => Some(Stat::EnergyResist),
            15u16 => Some(Stat::HeatResist),
            16u16 => Some(Stat::MatterResist),
            17u16 => Some(Stat::SlashResist),
            18u16 => Some(Stat::SpiritResist),
            19u16 => Some(Stat::ThrustResist),
            116u16 => Some(Stat::EssenceResist),
            21u16 => Some(Stat::Body),
            22u16 => Some(Stat::Chants),
            26u16 => Some(Stat::DeathServant),
            27u16 => Some(Stat::Deathsight),
            29u16 => Some(Stat::Earth),
            30u16 => Some(Stat::Enhancement),
            32u16 => Some(Stat::Fire),
            34u16 => Some(Stat::Cold),
            35u16 => Some(Stat::Instruments),
            37u16 => Some(Stat::Matter),
            38u16 => Some(Stat::Mind),
            39u16 => Some(Stat::PainWorking),
            42u16 => Some(Stat::Rejuvenation),
            45u16 => Some(Stat::Smiting),
            46u16 => Some(Stat::SoulRending),
            47u16 => Some(Stat::Spirit),
            51u16 => Some(Stat::Wind),
            57u16 => Some(Stat::Mending),
            58u16 => Some(Stat::Augmentation),
            60u16 => Some(Stat::Darkness),
            61u16 => Some(Stat::Suppression),
            62u16 => Some(Stat::Runecarving),
            63u16 => Some(Stat::Stormcalling),
            64u16 => Some(Stat::Beastcraft),
            65u16 => Some(Stat::Light),
            66u16 => Some(Stat::Void),
            67u16 => Some(Stat::Mana),
            69u16 => Some(Stat::Battlesongs),
            70u16 => Some(Stat::Enchantments),
            76u16 => Some(Stat::Mentalism),
            77u16 => Some(Stat::Regrowth),
            78u16 => Some(Stat::Nurture),
            79u16 => Some(Stat::Nature),
            80u16 => Some(Stat::Music),
            84u16 => Some(Stat::Valor),
            85u16 => Some(Stat::Subterranean),
            86u16 => Some(Stat::BoneArmy),
            87u16 => Some(Stat::Verdant),
            88u16 => Some(Stat::Creeping),
            89u16 => Some(Stat::Arboreal),
            94u16 => Some(Stat::Pacification),
            98u16 => Some(Stat::Summoning),
            163u16 => Some(Stat::AllMagicSkills),
            20u16 => Some(Stat::TwoHanded),
            25u16 => Some(Stat::Crushing),
            33u16 => Some(Stat::FlexibleWeapon),
            41u16 => Some(Stat::Polearm),
            44u16 => Some(Stat::Slashing),
            48u16 => Some(Stat::Staff),
            50u16 => Some(Stat::Thrusting),
            52u16 => Some(Stat::Sword),
            53u16 => Some(Stat::Hammer),
            54u16 => Some(Stat::Axe),
            56u16 => Some(Stat::Spear),
            72u16 => Some(Stat::Blade),
            73u16 => Some(Stat::Blunt),
            74u16 => Some(Stat::Piercing),
            75u16 => Some(Stat::LargeWeapon),
            82u16 => Some(Stat::CelticSpear),
            90u16 => Some(Stat::Scythe),
            92u16 => Some(Stat::HandToHand),
            164u16 => Some(Stat::AllMeleeSkills),
            168u16 => Some(Stat::AllArcherySkills),
            93u16 => Some(Stat::ShortBow),
            83u16 => Some(Stat::RecurveBow),
            68u16 => Some(Stat::Composite),
            36u16 => Some(Stat::LongBow),
            91u16 => Some(Stat::ThrownWeapon),
            24u16 => Some(Stat::Crossbow),
            167u16 => Some(Stat::AllDualWieldingSkills),
            81u16 => Some(Stat::CelticDual),
            55u16 => Some(Stat::LeftAxe),
            28u16 => Some(Stat::DualWield),
            23u16 => Some(Stat::CriticalStrike),
            43u16 => Some(Stat::Shield),
            40u16 => Some(Stat::Parry),
            31u16 => Some(Stat::Envenom),
            49u16 => Some(Stat::Stealth),
            95u16 => Some(Stat::Savagery),
            96u16 => Some(Stat::Nightshade),
            97u16 => Some(Stat::Pathfinding),
            148u16 => Some(Stat::ArmorFactor),
            153u16 => Some(Stat::SpellRange),
            155u16 => Some(Stat::MeleeSpeed),
            173u16 => Some(Stat::MeleeDamage),
            174u16 => Some(Stat::RangedDamage),
            188u16 => Some(Stat::ArcherySpeed),
            190u16 => Some(Stat::BuffEffectiveness),
            191u16 => Some(Stat::CastingSpeed),
            193u16 => Some(Stat::DebuffEffectiveness),
            195u16 => Some(Stat::HealingEffectiveness),
            196u16 => Some(Stat::PowerPoolToa),
            197u16 => Some(Stat::ResistPierce),
            198u16 => Some(Stat::SpellDamage),
            199u16 => Some(Stat::SpellDuration),
            200u16 => Some(Stat::StyleDamage),
            254u16 => Some(Stat::ArcaneSyphon),
            194u16 => Some(Stat::Fatigue),
            165u16 => Some(Stat::AllFocusLevels),
            115u16 => Some(Stat::UnknownRangerStuff),
            99u16 => Some(Stat::UnknownStuffAgain),
            101u16 => Some(Stat::UnknownStuffAgain2),
            _ => None,
        };
        proof {
            if let Some(s) = stat {
                assert(s.spec_id() == id);
                let c = choose|c: Stat| c.spec_id() == id;
                assert(c.spec_id() == id);
                assert(c == s);
            }
        }
        stat
    }

    /// The stat with identifier `id`, if there is one.
    pub open spec fn spec_from_repr(id: u16) -> Option<Stat> {
        if exists|s: Stat| s.spec_id() == id {
            Some(choose|s: Stat| s.spec_id() == id)
        } else {
            None
        }
    }

    /// The stats with an identifier below `n`, by rising identifier.
    pub open spec fn below(n: int) -> Seq<Stat>
        decreases n,
    {
        if n <= 0 {
            Seq::empty()
        } else {
            match Self::spec_from_repr((n - 1) as u16) {
                Some(s) => Self::below(n - 1).push(s),
                None => Self::below(n - 1),
            }
        }
    }

    /// Every stat, by rising identifier.
    pub open spec fn spec_all() -> Seq<Stat> {
        Self::below(MAX_STAT_ID + 1)
    }

    /// Returns every stat once, by rising identifier.
    pub fn all() -> (stats: Vec<Stat>)
        ensures
            stats@ == Self::spec_all(),
    {
        let mut stats: Vec<Stat> = Vec::new();
        let mut id: u16 = 0;
        while id <= MAX_STAT_ID
            invariant
                id <= MAX_STAT_ID + 1,
                stats@ == Self::below(id as int),
            decreases MAX_STAT_ID + 1 - id,
        {
            match Stat::from_repr(id) {
                Some(s) => {
                    stats.push(s);
                },
                None => {},
            }
            id += 1;
        }
        stats
    }

    /// The category of the stat.
    pub open spec fn spec_category(&self) -> StatCategory {
        match self {
            Stat::Strength
            | Stat::Dexterity
            | Stat::Constitution
            | Stat::Quickness
            | Stat::Hitpoints => StatCategory::PhysicalStats,
            Stat::Intelligence
            | Stat::Piety
            | Stat::Empathy
            | Stat::Charisma
            | Stat::Acuity => StatCategory::AcuityStats,
            Stat::StrengthCap
            | Stat::DexterityCap
            | Stat::ConstitutionCap
            | Stat::QuicknessCap
            | Stat::HitpointsCap => StatCategory::PhysicalStatCaps,
            Stat::IntelligenceCap
            | Stat::PietyCap
            | Stat::EmpathyCap
            | Stat::CharismaCap
            | Stat::AcuityCap => StatCategory::AcuityStatCaps,
            Stat::PowerPoolCap
            | Stat::ArmorFactor
            | Stat::SpellRange
            | Stat::MeleeSpeed
            | Stat::MeleeDamage
            | Stat::RangedDamage
            | Stat::ArcherySpeed
            | Stat::BuffEffectiveness
            | Stat::CastingSpeed
            | Stat::DebuffEffectiveness
            | Stat::HealingEffectiveness
            | Stat::PowerPoolToa
            | Stat::ResistPierce
            | Stat::SpellDamage
            | Stat::SpellDuration
            | Stat::StyleDamage
            | Stat::ArcaneSyphon => StatCategory::ToaBonuses,
            Stat::BodyResist
            | Stat::ColdResist
            | Stat::CrushResist
            | Stat::EnergyResist
            | Stat::HeatResist
            | Stat::MatterResist
            | Stat::SlashResist
            | Stat::SpiritResist
            | Stat::ThrustResist
            | Stat::EssenceResist => StatCategory::Resists,
            Stat::Body
            | Stat::Chants
            | Stat::DeathServant
            | Stat::Deathsight
            | Stat::Earth
            | Stat::Enhancement
            | Stat::Fire
            | Stat::Cold
            | Stat::Instruments
            | Stat::Matter
            | Stat::Mind
            | Stat::PainWorking
            | Stat::Rejuvenation
            | Stat::Smiting
            | Stat::SoulRending
            | Stat::Spirit
            | Stat::Wind
            | Stat::Mending
            | Stat::Augmentation
            | Stat::Darkness
            | Stat::Suppression
            | Stat::Runecarving
            | Stat::Stormcalling
            | Stat::Beastcraft
            | Stat::Light
            | Stat::Void
            | Stat::Mana
            | Stat::Battlesongs
            | Stat::Enchantments
            | Stat::Mentalism
            | Stat::Regrowth
            | Stat::Nurture
            | Stat::Nature
            | Stat::Music
            | Stat::Valor
            | Stat::Subterranean
            | Stat::BoneArmy
            | Stat::Verdant
            | Stat::Creeping
            | Stat::Arboreal
            | Stat::Pacification
            | Stat::Summoning
            | Stat::AllMagicSkills => StatCategory::MagicSkills,
            Stat::TwoHanded
            | Stat::Crushing
            | Stat::FlexibleWeapon
            | Stat::Polearm
            | Stat::Slashing
            | Stat::Staff
            | Stat::Thrusting
            | Stat::Sword
            | Stat::Hammer
            | Stat::Axe
            | Stat::Spear
            | Stat::Blade
            | Stat::Blunt
            | Stat::Piercing
            | Stat::LargeWeapon
            | Stat::CelticSpear
            | Stat::Scythe
            | Stat::HandToHand
            | Stat::AllMeleeSkills => StatCategory::MeleeSkills,
            Stat::AllArcherySkills
            | Stat::ShortBow
            | Stat::RecurveBow
            | Stat::Composite
            | Stat::LongBow
            | Stat::ThrownWeapon
            | Stat::Crossbow => StatCategory::ArcherySkills,
            Stat::AllDualWieldingSkills
            | Stat::CelticDual
            | Stat::LeftAxe
            | Stat::DualWield => StatCategory::DualWieldingSkills,
            Stat::CriticalStrike
            | Stat::Shield
            | Stat::Parry
            | Stat::Envenom
            | Stat::Stealth
            | Stat::Savagery
            | Stat::Nightshade
            | Stat::Pathfinding => StatCategory::OtherSkills,
            Stat::Fatigue
            | Stat::AllFocusLevels
            | Stat::UnknownRangerStuff
            | Stat::UnknownStuffAgain
            | Stat::UnknownStuffAgain2 => StatCategory::OtherStats,
        }
    }

    /// Returns the category of the stat.
    pub fn category(&self) -> (category: StatCategory)
        ensures
            category == self.spec_category(),
    {
        match self {
            Stat::Strength
            | Stat::Dexterity
            | Stat::Constitution
            | Stat::Quickness
            | Stat::Hitpoints => StatCategory::PhysicalStats,
            Stat::Intelligence
            | Stat::Piety
            | Stat::Empathy
            | Stat::Charisma
            | Stat::Acuity => StatCategory::AcuityStats,
            Stat::StrengthCap
            | Stat::DexterityCap
            | Stat::ConstitutionCap
            | Stat::QuicknessCap
            | Stat::HitpointsCap => StatCategory::PhysicalStatCaps,
            Stat::IntelligenceCap
            | Stat::PietyCap
            | Stat::EmpathyCap
            | Stat::CharismaCap
            | Stat::AcuityCap => StatCategory::AcuityStatCaps,
            Stat::PowerPoolCap
            | Stat::ArmorFactor
            | Stat::SpellRange
            | Stat::MeleeSpeed
            | Stat::MeleeDamage
            | Stat::RangedDamage
            | Stat::ArcherySpeed
            | Stat::BuffEffectiveness
            | Stat::CastingSpeed
            | Stat::DebuffEffectiveness
            | Stat::HealingEffectiveness
            | Stat::PowerPoolToa
            | Stat::ResistPierce
            | Stat::SpellDamage
            | Stat::SpellDuration
            | Stat::StyleDamage
            | Stat::ArcaneSyphon => StatCategory::ToaBonuses,
            Stat::BodyResist
            | Stat::ColdResist
            | Stat::CrushResist
            | Stat::EnergyResist
            | Stat::HeatResist
            | Stat::MatterResist
            | Stat::SlashResist
            | Stat::SpiritResist
            | Stat::ThrustResist
            | Stat::EssenceResist => StatCategory::Resists,
            Stat::Body
            | Stat::Chants
            | Stat::DeathServant
            | Stat::Deathsight
            | Stat::Earth
            | Stat::Enhancement
            | Stat::Fire
            | Stat::Cold
            | Stat::Instruments
            | Stat::Matter
            | Stat::Mind
            | Stat::PainWorking
            | Stat::Rejuvenation
            | Stat::Smiting
            | Stat::SoulRending
            | Stat::Spirit
            | Stat::Wind
            | Stat::Mending
            | Stat::Augmentation
            | Stat::Darkness
            | Stat::Suppression
            | Stat::Runecarving
            | Stat::Stormcalling
            | Stat::Beastcraft
            | Stat::Light
            | Stat::Void
            | Stat::Mana
            | Stat::Battlesongs
            | Stat::Enchantments
            | Stat::Mentalism
            | Stat::Regrowth
            | Stat::Nurture
            | Stat::Nature
            | Stat::Music
            | Stat::Valor
            | Stat::Subterranean
            | Stat::BoneArmy
            | Stat::Verdant
            | Stat::Creeping
            | Stat::Arboreal
            | Stat::Pacification
            | Stat::Summoning
            | Stat::AllMagicSkills => StatCategory::MagicSkills,
            Stat::TwoHanded
            | Stat::Crushing
            | Stat::FlexibleWeapon
            | Stat::Polearm
            | Stat::Slashing
            | Stat::Staff
            | Stat::Thrusting
            | Stat::Sword
            | Stat::Hammer
            | Stat::Axe
            | Stat::Spear
            | Stat::Blade
            | Stat::Blunt
            | Stat::Piercing
            | Stat::LargeWeapon
            | Stat::CelticSpear
            | Stat::Scythe
            | Stat::HandToHand
            | Stat::AllMeleeSkills => StatCategory::MeleeSkills,
            Stat::AllArcherySkills
            | Stat::ShortBow
            | Stat::RecurveBow
            | Stat::Composite
            | Stat::LongBow
            | Stat::ThrownWeapon
            | Stat::Crossbow => StatCategory::ArcherySkills,
            Stat::AllDualWieldingSkills
            | Stat::CelticDual
            | Stat::LeftAxe
            | Stat::DualWield => StatCategory::DualWieldingSkills,
            Stat::CriticalStrike
            | Stat::Shield
            | Stat::Parry
            | Stat::Envenom
            | Stat::Stealth
            | Stat::Savagery
            | Stat::Nightshade
            | Stat::Pathfinding => StatCategory::OtherSkills,
            Stat::Fatigue
            | Stat::AllFocusLevels
            | Stat::UnknownRangerStuff
            | Stat::UnknownStuffAgain
            | Stat::UnknownStuffAgain2 => StatCategory::OtherStats,
        }
    }

    /// Returns the identifiers of the categories under which every stat is
    /// looked up: 1, 2 and 3.
    pub fn category_ids(&self) -> (ids: &'static [u8])
        ensures
            ids@ == seq![1u8, 2u8, 3u8],
    {
        let ids: &'static [u8] = &[1, 2, 3];
        assert(ids@ =~= seq![1u8, 2u8, 3u8]);
        ids
    }

    /// The name under which the solver knows the stat.
    pub open spec fn spec_name(&self) -> Seq<char> {
        stat_info(self.spec_id()).0
    }

    /// Returns the name under which the solver knows the stat.
    pub fn name(&self) -> (name: &'static str)
        ensures
            name@ == self.spec_name(),
    {
        stat_info_map(self.id()).0
    }

    /// The utility of one point of the stat, in hundredths.
    pub open spec fn spec_utility_hundredths(&self) -> int {
        stat_info(self.spec_id()).1
    }

    /// Returns the utility of one point of the stat, in hundredths: the
    /// integer coefficient by which the solver weighs the stat.
    pub fn utility_hundredths(&self) -> (utility: i32)
        ensures
            utility == self.spec_utility_hundredths(),
            0 <= utility <= 500,
    {
        stat_info_map(self.id()).1
    }

    /// The most of the stat that a template can put to use.
    pub open spec fn spec_cap(&self) -> int {
        stat_info(self.spec_id()).2
    }

    /// Returns the most of the stat that a template can put to use.
    pub fn cap(&self) -> (cap: u16)
        ensures
            cap == self.spec_cap(),
            cap <= 200,
    {
        stat_info_map(self.id()).2
    }

    /// The stat that raises the cap of this one, where there is one.
    pub open spec fn spec_cap_stat(&self) -> Option<Stat> {
        match self {
            Stat::Strength => Some(Stat::StrengthCap),
            Stat::Dexterity => Some(Stat::DexterityCap),
            Stat::Constitution => Some(Stat::ConstitutionCap),
            Stat::Quickness => Some(Stat::QuicknessCap),
            Stat::Intelligence => Some(Stat::IntelligenceCap),
            Stat::Piety => Some(Stat::PietyCap),
            Stat::Empathy => Some(Stat::EmpathyCap),
            Stat::Charisma => Some(Stat::CharismaCap),
            Stat::Acuity => Some(Stat::AcuityCap),
            Stat::Hitpoints => Some(Stat::HitpointsCap),
            _ => None,
        }
    }

    /// Returns the stat that raises the cap of this one, where there is one.
    pub fn cap_stat(&self) -> (cap: Option<Stat>)
        ensures
            cap == self.spec_cap_stat(),
    {
        match self {
            Stat::Strength => Some(Stat::StrengthCap),
            Stat::Dexterity => Some(Stat::DexterityCap),
            Stat::Constitution => Some(Stat::ConstitutionCap),
            Stat::Quickness => Some(Stat::QuicknessCap),
            Stat::Intelligence => Some(Stat::IntelligenceCap),
            Stat::Piety => Some(Stat::PietyCap),
            Stat::Empathy => Some(Stat::EmpathyCap),
            Stat::Charisma => Some(Stat::CharismaCap),
            Stat::Acuity => Some(Stat::AcuityCap),
            Stat::Hitpoints => Some(Stat::HitpointsCap),
            _ => None,
        }
    }

    /// The stat whose cap this one raises, where there is one: the stat `b`
    /// with `b.spec_cap_stat() == Some(*self)`.
    pub open spec fn spec_base_stat(&self) -> Option<Stat> {
        if exists|b: Stat| b.spec_cap_stat() == Some(*self) {
            Some(choose|b: Stat| b.spec_cap_stat() == Some(*self))
        } else {
            None
        }
    }

    /// Returns the stat whose cap this one raises, where there is one.
    pub fn base_stat(&self) -> (base: Option<Stat>)
        ensures
            base == self.spec_base_stat(),
            match base {
                Some(b) => b.spec_cap_stat() == Some(*self),
                None => forall|b: Stat| b.spec_cap_stat() != Some(*self),
            },
    {
        let base = match self {
            Stat::StrengthCap => Some(Stat::Strength),
            Stat::DexterityCap => Some(Stat::Dexterity),
            Stat::ConstitutionCap => Some(Stat::Constitution),
            Stat::QuicknessCap => Some(Stat::Quickness),
            Stat::IntelligenceCap => Some(Stat::Intelligence),
            Stat::PietyCap => Some(Stat::Piety),
            Stat::EmpathyCap => Some(Stat::Empathy),
            Stat::CharismaCap => Some(Stat::Charisma),
            Stat::AcuityCap => Some(Stat::Acuity),
            Stat::HitpointsCap => Some(Stat::Hitpoints),
            _ => None,
        };
        proof {
            match base {
                Some(b) => {
                    assert(b.spec_cap_stat() == Some(*self));
                    let c = choose|c: Stat| c.spec_cap_stat() == Some(*self);
                    assert(c.spec_cap_stat() == Some(*self));
                    assert(c == b);
                },
                None => {
                    assert forall|b: Stat| b.spec_cap_stat() != Some(*self) by {}
                },
            }
        }
        base
    }
}

/// The stats below `n` are those with an identifier below `n`, each once and
/// by rising identifier.
pub proof fn lemma_below(n: int)
    requires
        0 <= n <= u16::MAX + 1,
    ensures
        forall|i: int| 0 <= i < Stat::below(n).len() ==> (#[trigger] Stat::below(n)[i]).spec_id()
            < n,
        forall|i: int, j: int|
            0 <= i < j < Stat::below(n).len() ==> (#[trigger] Stat::below(n)[i]).spec_id() < (
            #[trigger] Stat::below(n)[j]).spec_id(),
        forall|s: Stat| s.spec_id() < n ==> Stat::below(n).contains(s),
    decreases n,
{
    if n > 0 {
        lemma_below(n - 1);
        let before = Stat::below(n - 1);
        let id = (n - 1) as u16;
        match Stat::spec_from_repr(id) {
            Some(found) => {
                assert(found.spec_id() == id);
                assert(Stat::below(n) == before.push(found));
                assert forall|s: Stat| s.spec_id() < n implies Stat::below(n).contains(s) by {
                    if s.spec_id() < n - 1 {
                        assert(before.contains(s));
                        let i = choose|i: int| 0 <= i < before.len() && before[i] == s;
                        assert(Stat::below(n)[i] == s);
                    } else {
                        assert(s.spec_id() == found.spec_id());
                        assert(s == found);
                        assert(Stat::below(n)[before.len() as int] == s);
                    }
                }
            },
            None => {
                assert forall|s: Stat| s.spec_id() < n implies Stat::below(n).contains(s) by {
                    assert(s.spec_id() != id);
                    assert(before.contains(s));
                }
            },
        }
    }
}

/// Every stat is listed, and none is listed twice.
pub proof fn lemma_all_stats_once(s: Stat)
    ensures
        Stat::spec_all().contains(s),
        forall|i: int, j: int|
            0 <= i < Stat::spec_all().len() && 0 <= j < Stat::spec_all().len() && i != j ==> (
            #[trigger] Stat::spec_all()[i]) != (#[trigger] Stat::spec_all()[j]),
{
    lemma_below(MAX_STAT_ID + 1);
    let all = Stat::spec_all();
    assert forall|i: int, j: int| 0 <= i < all.len() && 0 <= j < all.len() && i != j implies (
    #[trigger] all[i]) != (#[trigger] all[j]) by {
        if i < j {
            assert(all[i].spec_id() < all[j].spec_id());
        } else {
            assert(all[j].spec_id() < all[i].spec_id());
        }
    }
}

/// A stat raises the cap of another exactly where the other names it as the
/// stat that raises its cap.
pub proof fn lemma_cap_and_base(base: Stat, cap: Stat)
    ensures
        base.spec_cap_stat() == Some(cap) <==> cap.spec_base_stat() == Some(base),
{
    if base.spec_cap_stat() == Some(cap) {
        let c = choose|b: Stat| b.spec_cap_stat() == Some(cap);
        assert(c.spec_cap_stat() == Some(cap));
        assert(c == base);
    }
    if cap.spec_base_stat() == Some(base) {
        assert(exists|b: Stat| b.spec_cap_stat() == Some(cap));
    }
}

} // verus!
