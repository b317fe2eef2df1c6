//! The catalog of split rules and how a rule is evaluated.

use vstd::prelude::*;
use crate::game::{
    ACT2_STARTED, BELLTOWN_GREETER_HOUSE_FULL_DLG, BELL_SHRINE_BELLHART,
    BELL_SHRINE_BONE_FOREST, BELL_SHRINE_GREYMOOR, BELL_SHRINE_SHELLWOOD, BELL_SHRINE_WILDS,
    CARAVAN_LECH_SAVED, COLLECTED_HEART_CLOVER, COLLECTED_HEART_CORAL, COLLECTED_HEART_FLOWER,
    COLLECTED_HEART_HUNTER, COMPLETED_LIBRARY_ENTRY_BATTLE, COMPLETED_MEMORY_REAPER,
    COMPLETED_RED_MEMORY, DEFEATED_BELL_BEAST, DEFEATED_COGWORK_DANCERS, DEFEATED_LACE1,
    DEFEATED_LACE_TOWER, DEFEATED_LAST_JUDGE, DEFEATED_MOSS_MOTHER, DEFEATED_PHANTOM,
    DEFEATED_SONG_GOLEM, DEFEATED_TROBBIO, DEFEATED_VAMPIRE_GNAT_BOSS, GREEN_PRINCE_LOCATION,
    GameFields, HANG04_BATTLE, HAS_BROLLY, HAS_DASH, HAS_DOUBLE_JUMP, HAS_HARPOON_DASH,
    HAS_MELODY_ARCHITECT, HAS_MELODY_CONDUCTOR, HAS_MELODY_LIBRARIAN, HAS_NEEDLE_THROW,
    HAS_SUPER_JUMP, HAS_WALL_JUMP, HEALTH, MENU_TITLE, MET_CITY_MERCHANT_ENCLAVE,
    MET_SHERMA_ENCLAVE, MET_TROUPE_HUNTER_WILD, NAIL_UPGRADES, OPENING_SEQUENCE,
    SAVEDFLEA_ANT_03, SAVEDFLEA_BELLTOWN_04, SAVEDFLEA_BONE_06, SAVEDFLEA_BONE_EAST_05,
    SAVEDFLEA_BONE_EAST_10_CHURCH, SAVEDFLEA_BONE_EAST_17B, SAVEDFLEA_CORAL_24,
    SAVEDFLEA_CORAL_35, SAVEDFLEA_CRAWL_06, SAVEDFLEA_DOCK_03D, SAVEDFLEA_DOCK_16,
    SAVEDFLEA_DUST_09, SAVEDFLEA_DUST_12, SAVEDFLEA_GREYMOOR_06, SAVEDFLEA_GREYMOOR_15B,
    SAVEDFLEA_LIBRARY_01, SAVEDFLEA_LIBRARY_09, SAVEDFLEA_PEAK_05C, SAVEDFLEA_SHADOW_10,
    SAVEDFLEA_SHADOW_28, SAVEDFLEA_SHELLWOOD_03, SAVEDFLEA_SLAB_06, SAVEDFLEA_SLAB_CELL,
    SAVEDFLEA_SONG_11, SAVEDFLEA_SONG_14, SAVEDFLEA_UNDER_21, SAVEDFLEA_UNDER_23,
    SEEN_FLEATOPIA_EMPTY, SEEN_MAPPER_BELLHART, SEEN_MAPPER_BONETOWN, SEEN_MAPPER_BONE_FOREST,
    SEEN_MAPPER_CORAL_CAVERNS, SEEN_MAPPER_CRAWL, SEEN_MAPPER_DOCKS, SEEN_MAPPER_DUSTPENS,
    SEEN_MAPPER_GREYMOOR, SEEN_MAPPER_HUNTERS_NEST, SEEN_MAPPER_JUDGE_STEPS, SEEN_MAPPER_PEAK,
    SEEN_MAPPER_SHADOW, SEEN_MAPPER_SHELLWOOD, SEEN_MAPPER_WILDS, SPINNER_DEFEATED,
    TAMED_GIANT_FLEA, UNLOCKED_AQUEDUCT_STATION, UNLOCKED_ARBORIUM_TUBE,
    UNLOCKED_BELLTOWN_STATION, UNLOCKED_BONEFOREST_EAST_STATION, UNLOCKED_CITY_BELLWAY_TUBE,
    UNLOCKED_CITY_STATION, UNLOCKED_CORAL_TOWER_STATION, UNLOCKED_DOCKS_STATION,
    UNLOCKED_DUST_CAGE, UNLOCKED_ENCLAVE_TUBE, UNLOCKED_GREYMOOR_STATION, UNLOCKED_HANG_TUBE,
    UNLOCKED_MELODY_LIFT, UNLOCKED_PEAK_STATION, UNLOCKED_SHADOW_STATION,
    UNLOCKED_SHELLWOOD_STATION, UNLOCKED_SONG_TUBE, UNLOCKED_UNDER_TUBE, is_menu,
    is_non_menu_game_state, menu_like, non_menu_game_state,
};
use crate::scenes::{SceneStore, ScenePair};
use crate::text::{is_prefix_of, text_eq, text_starts_with};
use crate::timer::{should_split, split_if, SplitterAction};

verus! {

/// A split the runner can select; each names one rule of the catalog.
#[derive(Clone, Copy, Debug, PartialEq, Eq, Structural)]
pub enum Split {
    /// Manual Split (Misc)
    ///
    /// Never splits. Use this when you need to manually split
    ManualSplit,
    /// Start New Game (Start)
    ///
    /// Splits when starting a new save file
    StartNewGame,
    /// Credits Roll (Ending)
    ///
    /// Splits on any credits rolling, any ending
    EndingSplit,
    /// Weaver Queen (Ending)
    ///
    /// Splits on Weaver Queen ending
    EndingA,
    /// Main Menu (Menu)
    ///
    /// Splits on the main menu
    Menu,
    /// Death (Event)
    ///
    /// Splits when player HP is 0
    PlayerDeath,
    /// Any Transition (Transition)
    ///
    /// Splits when entering a transition (only one will split per transition)
    AnyTransition,
    /// Moss Mother (Boss)
    ///
    /// Splits when killing Moss Mother
    MossMother,
    /// Moss Mother (Transition)
    ///
    /// Splits on the transition after killing Moss Mother
    MossMotherTrans,
    /// Silk Spear (Skill)
    ///
    /// Splits when obtaining Silk Spear
    SilkSpear,
    /// Silk Spear (Transition)
    ///
    /// Splits on the transition after obtaining Silk Spear
    SilkSpearTrans,
    /// Bell Beast (Boss)
    ///
    /// Splits when defeating the Bell Beast
    BellBeast,
    /// Bell Beast (Transition)
    ///
    /// Splits on the transition after defeating the Bell Beast
    BellBeastTrans,
    /// Marrow Bell (Event)
    ///
    /// Splits when ringing the Marrow Bell Shrine
    MarrowBell,
    /// Swift Step (Skill)
    ///
    /// Splits when obtaining Swift Step (Dash/Sprint)
    SwiftStep,
    /// Swift Step (Transition)
    ///
    /// Splits on the transition after obtaining Swift Step (Dash/Sprint)
    SwiftStepTrans,
    /// Lace 1 (Boss)
    ///
    /// Splits when defeating Lace 1 in DeepDocks
    Lace1,
    /// Lace 1 (Transition)
    ///
    /// Splits on the transition after defeating Lace 1 in DeepDocks
    Lace1Trans,
    /// Deep Docks Bell (Event)
    ///
    /// Splits when ringing the Deep Docks Bell Shrine
    DeepDocksBell,
    /// Enter Wormways (Transition)
    ///
    /// Splits on entering Wormways
    EnterWormways,
    /// Drifter's Cloak (Skill)
    ///
    /// Splits when obtaining Drifter's Cloak (Umbrella/Float)
    DriftersCloak,
    /// Drifter's Cloak (Transition)
    ///
    /// Splits on the transition after obtaining Drifter's Cloak (Umbrella/Float)
    DriftersCloakTrans,
    /// Fourth Chorus (Boss)
    ///
    /// Splits when killing Fourth Chorus
    FourthChorus,
    /// Enter Greymoor (Transition)
    ///
    /// Splits when entering Greymoor
    EnterGreymoor,
    /// Greymoor Bell (Event)
    ///
    /// Splits when ringing the Greymoor Bell Shrine
    GreymoorBell,
    /// Moorwing (Boss)
    ///
    /// Splits when killing Moorwing
    Moorwing,
    /// Moorwing (Transition)
    ///
    /// Splits on the transition after killing Moorwing
    MoorwingTrans,
    /// Enter Shellwood (Transition)
    ///
    /// Splits when entering Shellwood
    EnterShellwood,
    /// Cling Grip (Skill)
    ///
    /// Splits when obtaining Cling Grip (Wall Jump)
    ClingGrip,
    /// Cling Grip (Transition)
    ///
    /// Splits on the transition after obtaining Cling Grip (Wall Jump)
    ClingGripTrans,
    /// Shellwood Bell (Event)
    ///
    /// Splits when ringing the Shellwood Bell Shrine
    ShellwoodBell,
    /// Enter Bellhart (Transition)
    ///
    /// Splits when entering Bellhart
    EnterBellhart,
    /// Widow (Boss)
    ///
    /// Splits when killing Widow
    Widow,
    /// Bellhart Bell (Event)
    ///
    /// Splits when ringing the Bellhart Bell Shrine
    BellhartBell,
    /// Last Judge (Boss)
    ///
    /// Splits when killing Last Judge
    LastJudge,
    /// Enter The Mist (Transition)
    ///
    /// Splits when entering The Mist
    EnterMist,
    /// Leave The Mist (Transition)
    ///
    /// Splits when leaving The Mist
    LeaveMist,
    /// Phantom (Boss)
    ///
    /// Splits when killing Phantom
    Phantom,
    /// Act 2 Started (Event)
    ///
    /// Splits when starting Act 2
    Act2Started,
    /// Cogwork Dancers (Boss)
    ///
    /// Splits when killing Cogwork Dancers
    CogworkDancers,
    /// Whispering Vaults Arena (Mini Boss)
    ///
    /// Splits when completing the Whispering Vaults Arena
    WhisperingVaultsArena,
    /// Trobbio (Boss)
    ///
    /// Splits when killing Trobbio
    Trobbio,
    /// Trobbio (Transition)
    ///
    /// Splits on the transition after killing Trobbio
    TrobbioTrans,
    /// Clawline (Skill)
    ///
    /// Splits when obtaining Clawline (Harpoon Dash)
    Clawline,
    /// Enter High Halls (Transition)
    ///
    /// Splits when entering High Halls
    EnterHighHalls,
    /// Enter High Halls Arena (Transition)
    ///
    /// Splits when entering the High Halls Arena room
    EnterHighHallsArena,
    /// High Halls Arena (Mini Boss)
    ///
    /// Splits when completing the High Halls Arena
    HighHallsArena,
    /// Lace 2 (Boss)
    ///
    /// Splits when defeating Lace 2 in TheCradle
    Lace2,
    /// Vaultkeepers Melody (Melody)
    ///
    /// Splits when learning Vaultkeepers Melody
    VaultkeepersMelody,
    /// Vaultkeepers Melody (Transition)
    ///
    /// Splits on the transition after learning Vaultkeepers Melody
    VaultkeepersMelodyTrans,
    /// Architects Melody (Melody)
    ///
    /// Splits when learning Architects Melody
    ArchitectsMelody,
    /// Architects Melody (Transition)
    ///
    /// Splits on the transition after learning Architects Melody
    ArchitectsMelodyTrans,
    /// Conductors Melody (Melody)
    ///
    /// Splits when learning Conductors Melody
    ConductorsMelody,
    /// Conductors Melody (Transition)
    ///
    /// Splits on the transition after learning Conductors Melody
    ConductorsMelodyTrans,
    /// Unlock Threefold Melody Lift (Event)
    ///
    /// Splits when unlocking the Threefold Melody Lift
    UnlockedMelodyLift,
    /// Needle 1 (Upgrade)
    ///
    /// Splits when upgrading to Sharpened Needle
    NeedleUpgrade1,
    /// Needle 2 (Upgrade)
    ///
    /// Splits when upgrading to Shining Needle
    NeedleUpgrade2,
    /// Needle 3 (Upgrade)
    ///
    /// Splits when upgrading to Hivesteel Needle
    NeedleUpgrade3,
    /// Needle 4 (Upgrade)
    ///
    /// Splits when upgrading to Pale Steel Needle
    NeedleUpgrade4,
    /// Reaper Crest (Transition)
    ///
    /// Splits when leaving the church with the Reaper Crest unlocked
    ReaperCrestTrans,
    /// Rescued Flea Hunter's March (Flea)
    ///
    /// Splits after rescuing flea in Ant_03
    SavedFleaHuntersMarch,
    /// Rescued Flea Bellhart (Flea)
    ///
    /// Splits after rescuing flea in Belltown_04
    SavedFleaBellhart,
    /// Rescued Flea Marrow (Flea)
    ///
    /// Splits after rescuing flea in Bone_06
    SavedFleaMarrow,
    /// Rescued Flea Deep Docks Sprint (Flea)
    ///
    /// Splits after rescuing flea in Bone_East_05
    SavedFleaDeepDocksSprint,
    /// Rescued Flea Far Fields Pilgrim's Rest (Flea)
    ///
    /// Splits after rescuing flea in Bone_East_10_Church
    SavedFleaFarFieldsPilgrimsRest,
    /// Rescued Flea Far Fields Trap (Flea)
    ///
    /// Splits after rescuing flea in Bone_East_17b
    SavedFleaFarFieldsTrap,
    /// Rescued Flea Sands of Karak (Flea)
    ///
    /// Splits after rescuing flea in Coral_24
    SavedFleaSandsOfKarak,
    /// Rescued Flea Blasted Steps (Flea)
    ///
    /// Splits after rescuing flea in Coral_35
    SavedFleaBlastedSteps,
    /// Rescued Flea Wormways (Flea)
    ///
    /// Splits after rescuing flea in Crawl_06
    SavedFleaWormways,
    /// Rescued Flea Deep Docks Arena (Flea)
    ///
    /// Splits after rescuing flea in Dock_03d
    SavedFleaDeepDocksArena,
    /// Rescued Flea Deep Docks Bellway (Flea)
    ///
    /// Splits after rescuing flea in Dock_16
    SavedFleaDeepDocksBellway,
    /// Rescued Flea Bilewater Organ (Flea)
    ///
    /// Splits after rescuing flea in Dust_09
    SavedFleaBilewaterOrgan,
    /// Rescued Flea Sinner's Road (Flea)
    ///
    /// Splits after rescuing flea in Dust_12
    SavedFleaSinnersRoad,
    /// Rescued Flea Greymoor Roof (Flea)
    ///
    /// Splits after rescuing flea in Greymoor_06
    SavedFleaGreymoorRoof,
    /// Rescued Flea Greymoor Lake (Flea)
    ///
    /// Splits after rescuing flea in Greymoor_15b
    SavedFleaGreymoorLake,
    /// Rescued Flea Whispering Vaults (Flea)
    ///
    /// Splits after rescuing flea in Library_01
    SavedFleaWhisperingVaults,
    /// Rescued Flea Songclave (Flea)
    ///
    /// Splits after rescuing flea in Library_09
    SavedFleaSongclave,
    /// Rescued Flea Mount Fay (Flea)
    ///
    /// Splits after rescuing flea in Peak_05c
    SavedFleaMountFay,
    /// Rescued Flea Bilewater Trap (Flea)
    ///
    /// Splits after rescuing flea in Shadow_10
    SavedFleaBilewaterTrap,
    /// Rescued Flea Bilewater Thieves (Flea)
    ///
    /// Splits after rescuing flea in Shadow_28
    SavedFleaBilewaterThieves,
    /// Rescued Flea Shellwood (Flea)
    ///
    /// Splits after rescuing flea in Shellwood_03
    SavedFleaShellwood,
    /// Rescued Flea Slab Bellway (Flea)
    ///
    /// Splits after rescuing flea in Slab_06
    SavedFleaSlabBellway,
    /// Rescued Flea Slab Cage (Flea)
    ///
    /// Splits after rescuing flea in Slab_Cell
    SavedFleaSlabCage,
    /// Rescued Flea Choral Chambers Wind (Flea)
    ///
    /// Splits after rescuing flea in Song_11
    SavedFleaChoralChambersWind,
    /// Rescued Flea Choral Chambers Cage (Flea)
    ///
    /// Splits after rescuing flea in Song_14
    SavedFleaChoralChambersCage,
    /// Rescued Flea Underworks Explosions (Flea)
    ///
    /// Splits after rescuing flea in Under_21
    SavedFleaUnderworksExplosions,
    /// Rescued Flea Underworks Wisp Thicket (Flea)
    ///
    /// Splits after rescuing flea in Under_23
    SavedFleaUnderworksWispThicket,
    /// Defeated Giant Flea (Flea)
    ///
    /// Splits after defeating Giant Flea
    SavedFleaGiantFlea,
    /// Met Vog (Flea)
    ///
    /// Splits after talking to Vog
    SavedFleaVog,
    /// Freed Kratt (Flea)
    ///
    /// Splits after freeing Kratt
    SavedFleaKratt,
    /// Putrified Ducts (Bellway)
    ///
    /// Splits after unlocking Putrified Ducts Bellway
    PutrifiedDuctsStation,
    /// Bellhart (Bellway)
    ///
    /// Splits after unlocking Bellhart Bellway
    BellhartStation,
    /// Far Fields (Bellway)
    ///
    /// Splits after unlocking Far Fields Bellway
    FarFieldsStation,
    /// Grand Bellway (Bellway)
    ///
    /// Splits after unlocking Grand Bellway
    GrandBellwayStation,
    /// Blasted Steps (Bellway)
    ///
    /// Splits after unlocking Blasted Steps Bellway
    BlastedStepsStation,
    /// Deep Docks (Bellway)
    ///
    /// Splits after unlocking Deep Docks Bellway
    DeepDocksStation,
    /// Greymoor (Bellway)
    ///
    /// Splits after unlocking Greymoor Bellway
    GreymoorStation,
    /// Mount Fay (Bellway)
    ///
    /// Splits after unlocking Mount Fay Bellway
    MountFayStation,
    /// Bilewater (Bellway)
    ///
    /// Splits after unlocking Bilewater Bellway
    BilewaterStation,
    /// Shellwood (Bellway)
    ///
    /// Splits after unlocking Shellwood Bellway
    ShellwoodStation,
    /// Choral Chambers (Ventrica)
    ///
    /// Splits after unlocking Choral Chambers Ventrica
    ChoralChambersTube,
    /// Underworks (Ventrica)
    ///
    /// Splits after unlocking Underworks Ventrica
    UnderworksTube,
    /// Grand Bellway (Ventrica)
    ///
    /// Splits after unlocking Grand Bellway Ventrica
    CityBellwayTube,
    /// High Halls (Ventrica)
    ///
    /// Splits after unlocking High Halls Ventrica
    HighHallsTube,
    /// Songclave (Ventrica)
    ///
    /// Splits after unlocking Songclave Ventrica
    SongclaveTube,
    /// Memorium (Ventrica)
    ///
    /// Splits after unlocking Memorium Ventrica
    MemoriumTube,
    /// Seen Shakra Bonebottom (NPC)
    ///
    /// Splits after seeing Shakra in Bonebottom
    SeenShakraBonebottom,
    /// Seen Shakra Marrow (NPC)
    ///
    /// Splits after seeing Shakra in Marrow
    SeenShakraMarrow,
    /// Seen Shakra Deep Docks (NPC)
    ///
    /// Splits after seeing Shakra in Deep Docks
    SeenShakraDeepDocks,
    /// Seen Shakra Far Fields (NPC)
    ///
    /// Splits after seeing Shakra in Far Fields
    SeenShakraFarFields,
    /// Seen Shakra Wormways (NPC)
    ///
    /// Splits after seeing Shakra in Wormways
    SeenShakraWormways,
    /// Seen Shakra Greymoor (NPC)
    ///
    /// Splits after seeing Shakra in Greymoor
    SeenShakraGreymoor,
    /// Seen Shakra Bellhart (NPC)
    ///
    /// Splits after seeing Shakra in Bellhart
    SeenShakraBellhart,
    /// Seen Shakra Shellwood (NPC)
    ///
    /// Splits after seeing Shakra in Shellwood
    SeenShakraShellwood,
    /// Seen Shakra Hunter's March (NPC)
    ///
    /// Splits after seeing Shakra in Hunter's March
    SeenShakraHuntersMarch,
    /// Seen Shakra Blasted Steps (NPC)
    ///
    /// Splits after seeing Shakra in Blasted Steps
    SeenShakraBlastedSteps,
    /// Seen Shakra Sinner's Road (NPC)
    ///
    /// Splits after seeing Shakra in Sinner's Road
    SeenShakraSinnersRoad,
    /// Seen Shakra Mount Fay (NPC)
    ///
    /// Splits after seeing Shakra in Mount Fay
    SeenShakraMountFay,
    /// Seen Shakra Bilewater (NPC)
    ///
    /// Splits after seeing Shakra in Bilewater
    SeenShakraBilewater,
    /// Seen Shakra Sands of Karak (NPC)
    ///
    /// Splits after seeing Shakra in Sands of Karak
    SeenShakraSandsOfKarak,
    /// Met Merchant Enclave (NPC)
    ///
    /// Splits after talking to Jubilana in Songclave
    MetJubilanaEnclave,
    /// Met Sherma Enclave (NPC)
    ///
    /// Splits after talking to Sherma in Songclave
    MetShermaEnclave,
    /// Unlock Prince Cage (Event)
    ///
    /// Splits when you unlock Green Prince's Cage in Sinner's Road
    UnlockedPrinceCage,
    /// Met Green Prince Cogwork (NPC)
    ///
    /// Splits when you talk to Green Prince in Cogwork Dancer's arena
    GreenPrinceInVerdania,
    /// Seen Fleatopia Empty (Event)
    ///
    /// Splits when you find Fleatopias location
    SeenFleatopiaEmpty,
    /// Faydown Cloak (Skill)
    ///
    /// Splits when you obtain Double Jump
    FaydownCloak,
    /// Silk Soar (Skill)
    ///
    /// Splits when you obtain Super Jump
    SilkSoar,
    /// Nyleth's Heart (Item)
    ///
    /// Splits when you obtain Nyleth's Heart
    CollectedHeartNyleth,
    /// Khann's Heart (Item)
    ///
    /// Splits when you obtain Khann's Heart
    CollectedHeartKhann,
    /// Karmelita's Heart (Item)
    ///
    /// Splits when you obtain Karmelita's Heart
    CollectedHeartKarmelita,
    /// Clover Dancer's Heart (Item)
    ///
    /// Split when you obtain Conjoined Heart
    CollectedHeartClover,
    /// Red Memory (Event)
    ///
    /// Splits on completing Red Memory
    CompletedRedMemory,
    /// Pavo Bellhome Key (NPC)
    ///
    /// Splits when obtaining Bellhome Key from Pavo
    BellhouseKeyConversation,
}

impl Default for Split {
    fn default() -> (r: Split)
        ensures
            r == Split::ManualSplit,
    {
        Split::ManualSplit
    }
}

/// The part of a rule checked on every tick while the game is playing or in
/// a cutscene.
#[derive(Clone, Copy, Debug, PartialEq, Eq, Structural)]
pub enum Condition {
    Never,
    /// Asks for a split that the runner makes by hand.
    Manual,
    /// The player-data flag at this position is set.
    Flag(usize),
    /// The player-data integer at this position is known and at least this.
    IntAtLeast(usize, i32),
    /// The player-data integer at this position is known and equals this.
    IntEquals(usize, i32),
}

/// The part of a rule checked when a scene transition has just been seen.
pub enum SceneCondition {
    Never,
    /// The player-data flag at this position is set.
    Flag(usize),
    /// The current scene is this one.
    Enters(&'static str),
    /// The current scene's name starts with this.
    EntersPrefixed(&'static str),
    /// The current scene's name starts with this and the old one's does not.
    Crosses(&'static str),
    /// From the first scene to the second.
    FromTo(&'static str, &'static str),
    /// From the first scene to the second, or from the third to the fourth.
    EitherFromTo(&'static str, &'static str, &'static str, &'static str),
    /// Between two different scenes, neither of them a menu.
    AnyOutsideMenus,
}

/// The action a continuous condition yields on a snapshot.
pub open spec fn condition_action(c: Condition, fields: GameFields) -> SplitterAction {
    match c {
        Condition::Never => SplitterAction::Pass,
        Condition::Manual => SplitterAction::ManualSplit,
        Condition::Flag(i) => split_if(fields.flag(i as int)),
        Condition::IntAtLeast(i, n) => split_if(
            fields.int_at(i as int) is Some && fields.int_at(i as int)->0 >= n,
        ),
        Condition::IntEquals(i, n) => split_if(
            fields.int_at(i as int) is Some && fields.int_at(i as int)->0 == n,
        ),
    }
}

/// Whether a scene condition holds of a transition from `old` to `current`.
pub open spec fn scene_condition_holds(
    c: SceneCondition,
    old: Seq<char>,
    current: Seq<char>,
    fields: GameFields,
) -> bool {
    match c {
        SceneCondition::Never => false,
        SceneCondition::Flag(i) => fields.flag(i as int),
        SceneCondition::Enters(a) => current == a@,
        SceneCondition::EntersPrefixed(p) => is_prefix_of(p@, current),
        SceneCondition::Crosses(p) => !is_prefix_of(p@, old) && is_prefix_of(p@, current),
        SceneCondition::FromTo(a, b) => old == a@ && current == b@,
        SceneCondition::EitherFromTo(a, b, c, d) => (old == a@ && current == b@) || (old == c@
            && current == d@),
        SceneCondition::AnyOutsideMenus => current != old && !(menu_like(old) || menu_like(current)),
    }
}

/// The continuous condition of each split.
pub open spec fn continuous_rule(split: Split) -> Condition {
    match split {
        Split::ManualSplit => Condition::Manual,
        Split::StartNewGame => Condition::Never,
        Split::EndingSplit => Condition::Never,
        Split::EndingA => Condition::Never,
        Split::Menu => Condition::Never,
        Split::PlayerDeath => Condition::IntEquals(HEALTH, 0),
        Split::AnyTransition => Condition::Never,
        Split::MossMother => Condition::Flag(DEFEATED_MOSS_MOTHER),
        Split::MossMotherTrans => Condition::Never,
        Split::SilkSpear => Condition::Flag(HAS_NEEDLE_THROW),
        Split::SilkSpearTrans => Condition::Never,
        Split::BellBeast => Condition::Flag(DEFEATED_BELL_BEAST),
        Split::BellBeastTrans => Condition::Never,
        Split::MarrowBell => Condition::Flag(BELL_SHRINE_BONE_FOREST),
        Split::SwiftStep => Condition::Flag(HAS_DASH),
        Split::SwiftStepTrans => Condition::Never,
        Split::Lace1 => Condition::Flag(DEFEATED_LACE1),
        Split::Lace1Trans => Condition::Never,
        Split::DeepDocksBell => Condition::Flag(BELL_SHRINE_WILDS),
        Split::EnterWormways => Condition::Never,
        Split::DriftersCloak => Condition::Flag(HAS_BROLLY),
        Split::DriftersCloakTrans => Condition::Never,
        Split::FourthChorus => Condition::Flag(DEFEATED_SONG_GOLEM),
        Split::EnterGreymoor => Condition::Never,
        Split::GreymoorBell => Condition::Flag(BELL_SHRINE_GREYMOOR),
        Split::Moorwing => Condition::Flag(DEFEATED_VAMPIRE_GNAT_BOSS),
        Split::MoorwingTrans => Condition::Never,
        Split::EnterShellwood => Condition::Never,
        Split::ClingGrip => Condition::Flag(HAS_WALL_JUMP),
        Split::ClingGripTrans => Condition::Never,
        Split::ShellwoodBell => Condition::Flag(BELL_SHRINE_SHELLWOOD),
        Split::EnterBellhart => Condition::Never,
        Split::Widow => Condition::Flag(SPINNER_DEFEATED),
        Split::BellhartBell => Condition::Flag(BELL_SHRINE_BELLHART),
        Split::LastJudge => Condition::Flag(DEFEATED_LAST_JUDGE),
        Split::EnterMist => Condition::Never,
        Split::LeaveMist => Condition::Never,
        Split::Phantom => Condition::Flag(DEFEATED_PHANTOM),
        Split::Act2Started => Condition::Flag(ACT2_STARTED),
        Split::CogworkDancers => Condition::Flag(DEFEATED_COGWORK_DANCERS),
        Split::WhisperingVaultsArena => Condition::Flag(COMPLETED_LIBRARY_ENTRY_BATTLE),
        Split::Trobbio => Condition::Flag(DEFEATED_TROBBIO),
        Split::TrobbioTrans => Condition::Never,
        Split::Clawline => Condition::Flag(HAS_HARPOON_DASH),
        Split::EnterHighHalls => Condition::Never,
        Split::EnterHighHallsArena => Condition::Never,
        Split::HighHallsArena => Condition::Flag(HANG04_BATTLE),
        Split::Lace2 => Condition::Flag(DEFEATED_LACE_TOWER),
        Split::VaultkeepersMelody => Condition::Flag(HAS_MELODY_LIBRARIAN),
        Split::VaultkeepersMelodyTrans => Condition::Never,
        Split::ArchitectsMelody => Condition::Flag(HAS_MELODY_ARCHITECT),
        Split::ArchitectsMelodyTrans => Condition::Never,
        Split::ConductorsMelody => Condition::Flag(HAS_MELODY_CONDUCTOR),
        Split::ConductorsMelodyTrans => Condition::Never,
        Split::UnlockedMelodyLift => Condition::Flag(UNLOCKED_MELODY_LIFT),
        Split::NeedleUpgrade1 => Condition::IntAtLeast(NAIL_UPGRADES, 1),
        Split::NeedleUpgrade2 => Condition::IntAtLeast(NAIL_UPGRADES, 2),
        Split::NeedleUpgrade3 => Condition::IntAtLeast(NAIL_UPGRADES, 3),
        Split::NeedleUpgrade4 => Condition::IntAtLeast(NAIL_UPGRADES, 4),
        Split::ReaperCrestTrans => Condition::Flag(COMPLETED_MEMORY_REAPER),
        Split::SavedFleaHuntersMarch => Condition::Flag(SAVEDFLEA_ANT_03),
        Split::SavedFleaBellhart => Condition::Flag(SAVEDFLEA_BELLTOWN_04),
        Split::SavedFleaMarrow => Condition::Flag(SAVEDFLEA_BONE_06),
        Split::SavedFleaDeepDocksSprint => Condition::Flag(SAVEDFLEA_BONE_EAST_05),
        Split::SavedFleaFarFieldsPilgrimsRest => Condition::Flag(SAVEDFLEA_BONE_EAST_10_CHURCH),
        Split::SavedFleaFarFieldsTrap => Condition::Flag(SAVEDFLEA_BONE_EAST_17B),
        Split::SavedFleaSandsOfKarak => Condition::Flag(SAVEDFLEA_CORAL_24),
        Split::SavedFleaBlastedSteps => Condition::Flag(SAVEDFLEA_CORAL_35),
        Split::SavedFleaWormways => Condition::Flag(SAVEDFLEA_CRAWL_06),
        Split::SavedFleaDeepDocksArena => Condition::Flag(SAVEDFLEA_DOCK_03D),
        Split::SavedFleaDeepDocksBellway => Condition::Flag(SAVEDFLEA_DOCK_16),
        Split::SavedFleaBilewaterOrgan => Condition::Flag(SAVEDFLEA_DUST_09),
        Split::SavedFleaSinnersRoad => Condition::Flag(SAVEDFLEA_DUST_12),
        Split::SavedFleaGreymoorRoof => Condition::Flag(SAVEDFLEA_GREYMOOR_06),
        Split::SavedFleaGreymoorLake => Condition::Flag(SAVEDFLEA_GREYMOOR_15B),
        Split::SavedFleaWhisperingVaults => Condition::Flag(SAVEDFLEA_LIBRARY_01),
        Split::SavedFleaSongclave => Condition::Flag(SAVEDFLEA_LIBRARY_09),
        Split::SavedFleaMountFay => Condition::Flag(SAVEDFLEA_PEAK_05C),
        Split::SavedFleaBilewaterTrap => Condition::Flag(SAVEDFLEA_SHADOW_10),
        Split::SavedFleaBilewaterThieves => Condition::Flag(SAVEDFLEA_SHADOW_28),
        Split::SavedFleaShellwood => Condition::Flag(SAVEDFLEA_SHELLWOOD_03),
        Split::SavedFleaSlabBellway => Condition::Flag(SAVEDFLEA_SLAB_06),
        Split::SavedFleaSlabCage => Condition::Flag(SAVEDFLEA_SLAB_CELL),
        Split::SavedFleaChoralChambersWind => Condition::Flag(SAVEDFLEA_SONG_11),
        Split::SavedFleaChoralChambersCage => Condition::Flag(SAVEDFLEA_SONG_14),
        Split::SavedFleaUnderworksExplosions => Condition::Flag(SAVEDFLEA_UNDER_21),
        Split::SavedFleaUnderworksWispThicket => Condition::Flag(SAVEDFLEA_UNDER_23),
        Split::SavedFleaGiantFlea => Condition::Flag(TAMED_GIANT_FLEA),
        Split::SavedFleaVog => Condition::Flag(MET_TROUPE_HUNTER_WILD),
        Split::SavedFleaKratt => Condition::Flag(CARAVAN_LECH_SAVED),
        Split::PutrifiedDuctsStation => Condition::Flag(UNLOCKED_AQUEDUCT_STATION),
        Split::BellhartStation => Condition::Flag(UNLOCKED_BELLTOWN_STATION),
        Split::FarFieldsStation => Condition::Flag(UNLOCKED_BONEFOREST_EAST_STATION),
        Split::GrandBellwayStation => Condition::Flag(UNLOCKED_CITY_STATION),
        Split::BlastedStepsStation => Condition::Flag(UNLOCKED_CORAL_TOWER_STATION),
        Split::DeepDocksStation => Condition::Flag(UNLOCKED_DOCKS_STATION),
        Split::GreymoorStation => Condition::Flag(UNLOCKED_GREYMOOR_STATION),
        Split::MountFayStation => Condition::Flag(UNLOCKED_PEAK_STATION),
        Split::BilewaterStation => Condition::Flag(UNLOCKED_SHADOW_STATION),
        Split::ShellwoodStation => Condition::Flag(UNLOCKED_SHELLWOOD_STATION),
        Split::ChoralChambersTube => Condition::Flag(UNLOCKED_SONG_TUBE),
        Split::UnderworksTube => Condition::Flag(UNLOCKED_UNDER_TUBE),
        Split::CityBellwayTube => Condition::Flag(UNLOCKED_CITY_BELLWAY_TUBE),
        Split::HighHallsTube => Condition::Flag(UNLOCKED_HANG_TUBE),
        Split::SongclaveTube => Condition::Flag(UNLOCKED_ENCLAVE_TUBE),
        Split::MemoriumTube => Condition::Flag(UNLOCKED_ARBORIUM_TUBE),
        Split::SeenShakraBonebottom => Condition::Flag(SEEN_MAPPER_BONETOWN),
        Split::SeenShakraMarrow => Condition::Flag(SEEN_MAPPER_BONE_FOREST),
        Split::SeenShakraDeepDocks => Condition::Flag(SEEN_MAPPER_DOCKS),
        Split::SeenShakraFarFields => Condition::Flag(SEEN_MAPPER_WILDS),
        Split::SeenShakraWormways => Condition::Flag(SEEN_MAPPER_CRAWL),
        Split::SeenShakraGreymoor => Condition::Flag(SEEN_MAPPER_GREYMOOR),
        Split::SeenShakraBellhart => Condition::Flag(SEEN_MAPPER_BELLHART),
        Split::SeenShakraShellwood => Condition::Flag(SEEN_MAPPER_SHELLWOOD),
        Split::SeenShakraHuntersMarch => Condition::Flag(SEEN_MAPPER_HUNTERS_NEST),
        Split::SeenShakraBlastedSteps => Condition::Flag(SEEN_MAPPER_JUDGE_STEPS),
        Split::SeenShakraSinnersRoad => Condition::Flag(SEEN_MAPPER_DUSTPENS),
        Split::SeenShakraMountFay => Condition::Flag(SEEN_MAPPER_PEAK),
        Split::SeenShakraBilewater => Condition::Flag(SEEN_MAPPER_SHADOW),
        Split::SeenShakraSandsOfKarak => Condition::Flag(SEEN_MAPPER_CORAL_CAVERNS),
        Split::MetJubilanaEnclave => Condition::Flag(MET_CITY_MERCHANT_ENCLAVE),
        Split::MetShermaEnclave => Condition::Flag(MET_SHERMA_ENCLAVE),
        Split::UnlockedPrinceCage => Condition::Flag(UNLOCKED_DUST_CAGE),
        Split::GreenPrinceInVerdania => Condition::IntEquals(GREEN_PRINCE_LOCATION, 3),
        Split::SeenFleatopiaEmpty => Condition::Flag(SEEN_FLEATOPIA_EMPTY),
        Split::FaydownCloak => Condition::Flag(HAS_DOUBLE_JUMP),
        Split::SilkSoar => Condition::Flag(HAS_SUPER_JUMP),
        Split::CollectedHeartNyleth => Condition::Flag(COLLECTED_HEART_FLOWER),
        Split::CollectedHeartKhann => Condition::Flag(COLLECTED_HEART_CORAL),
        Split::CollectedHeartKarmelita => Condition::Flag(COLLECTED_HEART_HUNTER),
        Split::CollectedHeartClover => Condition::Flag(COLLECTED_HEART_CLOVER),
        Split::CompletedRedMemory => Condition::Flag(COMPLETED_RED_MEMORY),
        Split::BellhouseKeyConversation => Condition::Flag(BELLTOWN_GREETER_HOUSE_FULL_DLG),
    }
}

/// The transition condition of each split.
pub open spec fn transition_rule(split: Split) -> SceneCondition {
    match split {
        Split::ManualSplit => SceneCondition::Never,
        Split::StartNewGame => SceneCondition::FromTo(OPENING_SEQUENCE, "Tut_01"),
        Split::EndingSplit => SceneCondition::EntersPrefixed("Cinematic_Ending"),
        Split::EndingA => SceneCondition::Enters("Cinematic_Ending_A"),
        Split::Menu => SceneCondition::Enters(MENU_TITLE),
        Split::PlayerDeath => SceneCondition::Never,
        Split::AnyTransition => SceneCondition::AnyOutsideMenus,
        Split::MossMother => SceneCondition::Never,
        Split::MossMotherTrans => SceneCondition::Flag(DEFEATED_MOSS_MOTHER),
        Split::SilkSpear => SceneCondition::Never,
        Split::SilkSpearTrans => SceneCondition::Flag(HAS_NEEDLE_THROW),
        Split::BellBeast => SceneCondition::Never,
        Split::BellBeastTrans => SceneCondition::Flag(DEFEATED_BELL_BEAST),
        Split::MarrowBell => SceneCondition::Never,
        Split::SwiftStep => SceneCondition::Never,
        Split::SwiftStepTrans => SceneCondition::Flag(HAS_DASH),
        Split::Lace1 => SceneCondition::Never,
        Split::Lace1Trans => SceneCondition::Flag(DEFEATED_LACE1),
        Split::DeepDocksBell => SceneCondition::Never,
        Split::EnterWormways => SceneCondition::EitherFromTo("Crawl_02", "Crawl_03b", "Aspid_01", "Crawl_01"),
        Split::DriftersCloak => SceneCondition::Never,
        Split::DriftersCloakTrans => SceneCondition::Flag(HAS_BROLLY),
        Split::FourthChorus => SceneCondition::Never,
        Split::EnterGreymoor => SceneCondition::Crosses("Greymoor"),
        Split::GreymoorBell => SceneCondition::Never,
        Split::Moorwing => SceneCondition::Never,
        Split::MoorwingTrans => SceneCondition::Flag(DEFEATED_VAMPIRE_GNAT_BOSS),
        Split::EnterShellwood => SceneCondition::Crosses("Shellwood"),
        Split::ClingGrip => SceneCondition::Never,
        Split::ClingGripTrans => SceneCondition::Flag(HAS_WALL_JUMP),
        Split::ShellwoodBell => SceneCondition::Never,
        Split::EnterBellhart => SceneCondition::EitherFromTo("Belltown_06", "Belltown", "Belltown_07", "Belltown"),
        Split::Widow => SceneCondition::Never,
        Split::BellhartBell => SceneCondition::Never,
        Split::LastJudge => SceneCondition::Never,
        Split::EnterMist => SceneCondition::EitherFromTo("Dust_05", "Dust_Maze_09_entrance", "Shadow_04", "Dust_Maze_09_entrance"),
        Split::LeaveMist => SceneCondition::FromTo("Dust_Maze_Last_Hall", "Dust_09"),
        Split::Phantom => SceneCondition::Never,
        Split::Act2Started => SceneCondition::Never,
        Split::CogworkDancers => SceneCondition::Never,
        Split::WhisperingVaultsArena => SceneCondition::Never,
        Split::Trobbio => SceneCondition::Never,
        Split::TrobbioTrans => SceneCondition::Flag(DEFEATED_TROBBIO),
        Split::Clawline => SceneCondition::Never,
        Split::EnterHighHalls => SceneCondition::FromTo("Hang_01", "Hang_02"),
        Split::EnterHighHallsArena => SceneCondition::FromTo("Hang_06", "Hang_04"),
        Split::HighHallsArena => SceneCondition::Never,
        Split::Lace2 => SceneCondition::Never,
        Split::VaultkeepersMelody => SceneCondition::Never,
        Split::VaultkeepersMelodyTrans => SceneCondition::Flag(HAS_MELODY_LIBRARIAN),
        Split::ArchitectsMelody => SceneCondition::Never,
        Split::ArchitectsMelodyTrans => SceneCondition::Flag(HAS_MELODY_ARCHITECT),
        Split::ConductorsMelody => SceneCondition::Never,
        Split::ConductorsMelodyTrans => SceneCondition::Flag(HAS_MELODY_CONDUCTOR),
        Split::UnlockedMelodyLift => SceneCondition::Never,
        Split::NeedleUpgrade1 => SceneCondition::Never,
        Split::NeedleUpgrade2 => SceneCondition::Never,
        Split::NeedleUpgrade3 => SceneCondition::Never,
        Split::NeedleUpgrade4 => SceneCondition::Never,
        Split::ReaperCrestTrans => SceneCondition::Never,
        Split::SavedFleaHuntersMarch => SceneCondition::Never,
        Split::SavedFleaBellhart => SceneCondition::Never,
        Split::SavedFleaMarrow => SceneCondition::Never,
        Split::SavedFleaDeepDocksSprint => SceneCondition::Never,
        Split::SavedFleaFarFieldsPilgrimsRest => SceneCondition::Never,
        Split::SavedFleaFarFieldsTrap => SceneCondition::Never,
        Split::SavedFleaSandsOfKarak => SceneCondition::Never,
        Split::SavedFleaBlastedSteps => SceneCondition::Never,
        Split::SavedFleaWormways => SceneCondition::Never,
        Split::SavedFleaDeepDocksArena => SceneCondition::Never,
        Split::SavedFleaDeepDocksBellway => SceneCondition::Never,
        Split::SavedFleaBilewaterOrgan => SceneCondition::Never,
        Split::SavedFleaSinnersRoad => SceneCondition::Never,
        Split::SavedFleaGreymoorRoof => SceneCondition::Never,
        Split::SavedFleaGreymoorLake => SceneCondition::Never,
        Split::SavedFleaWhisperingVaults => SceneCondition::Never,
        Split::SavedFleaSongclave => SceneCondition::Never,
        Split::SavedFleaMountFay => SceneCondition::Never,
        Split::SavedFleaBilewaterTrap => SceneCondition::Never,
        Split::SavedFleaBilewaterThieves => SceneCondition::Never,
        Split::SavedFleaShellwood => SceneCondition::Never,
        Split::SavedFleaSlabBellway => SceneCondition::Never,
        Split::SavedFleaSlabCage => SceneCondition::Never,
        Split::SavedFleaChoralChambersWind => SceneCondition::Never,
        Split::SavedFleaChoralChambersCage => SceneCondition::Never,
        Split::SavedFleaUnderworksExplosions => SceneCondition::Never,
        Split::SavedFleaUnderworksWispThicket => SceneCondition::Never,
        Split::SavedFleaGiantFlea => SceneCondition::Never,
        Split::SavedFleaVog => SceneCondition::Never,
        Split::SavedFleaKratt => SceneCondition::Never,
        Split::PutrifiedDuctsStation => SceneCondition::Never,
        Split::BellhartStation => SceneCondition::Never,
        Split::FarFieldsStation => SceneCondition::Never,
        Split::GrandBellwayStation => SceneCondition::Never,
        Split::BlastedStepsStation => SceneCondition::Never,
        Split::DeepDocksStation => SceneCondition::Never,
        Split::GreymoorStation => SceneCondition::Never,
        Split::MountFayStation => SceneCondition::Never,
        Split::BilewaterStation => SceneCondition::Never,
        Split::ShellwoodStation => SceneCondition::Never,
        Split::ChoralChambersTube => SceneCondition::Never,
        Split::UnderworksTube => SceneCondition::Never,
        Split::CityBellwayTube => SceneCondition::Never,
        Split::HighHallsTube => SceneCondition::Never,
        Split::SongclaveTube => SceneCondition::Never,
        Split::MemoriumTube => SceneCondition::Never,
        Split::SeenShakraBonebottom => SceneCondition::Never,
        Split::SeenShakraMarrow => SceneCondition::Never,
        Split::SeenShakraDeepDocks => SceneCondition::Never,
        Split::SeenShakraFarFields => SceneCondition::Never,
        Split::SeenShakraWormways => SceneCondition::Never,
        Split::SeenShakraGreymoor => SceneCondition::Never,
        Split::SeenShakraBellhart => SceneCondition::Never,
        Split::SeenShakraShellwood => SceneCondition::Never,
        Split::SeenShakraHuntersMarch => SceneCondition::Never,
        Split::SeenShakraBlastedSteps => SceneCondition::Never,
        Split::SeenShakraSinnersRoad => SceneCondition::Never,
        Split::SeenShakraMountFay => SceneCondition::Never,
        Split::SeenShakraBilewater => SceneCondition::Never,
        Split::SeenShakraSandsOfKarak => SceneCondition::Never,
        Split::MetJubilanaEnclave => SceneCondition::Never,
        Split::MetShermaEnclave => SceneCondition::Never,
        Split::UnlockedPrinceCage => SceneCondition::Never,
        Split::GreenPrinceInVerdania => SceneCondition::Never,
        Split::SeenFleatopiaEmpty => SceneCondition::Never,
        Split::FaydownCloak => SceneCondition::Never,
        Split::SilkSoar => SceneCondition::Never,
        Split::CollectedHeartNyleth => SceneCondition::Never,
        Split::CollectedHeartKhann => SceneCondition::Never,
        Split::CollectedHeartKarmelita => SceneCondition::Never,
        Split::CollectedHeartClover => SceneCondition::Never,
        Split::CompletedRedMemory => SceneCondition::Never,
        Split::BellhouseKeyConversation => SceneCondition::Never,
    }
}

impl Split {
    pub fn continuous_condition(&self) -> (r: Condition)
        ensures
            r == continuous_rule(*self),
    {
        match self {
            Split::ManualSplit => Condition::Manual,
            Split::StartNewGame => Condition::Never,
            Split::EndingSplit => Condition::Never,
            Split::EndingA => Condition::Never,
            Split::Menu => Condition::Never,
            Split::PlayerDeath => Condition::IntEquals(HEALTH, 0),
            Split::AnyTransition => Condition::Never,
            Split::MossMother => Condition::Flag(DEFEATED_MOSS_MOTHER),
            Split::MossMotherTrans => Condition::Never,
            Split::SilkSpear => Condition::Flag(HAS_NEEDLE_THROW),
            Split::SilkSpearTrans => Condition::Never,
            Split::BellBeast => Condition::Flag(DEFEATED_BELL_BEAST),
            Split::BellBeastTrans => Condition::Never,
            Split::MarrowBell => Condition::Flag(BELL_SHRINE_BONE_FOREST),
            Split::SwiftStep => Condition::Flag(HAS_DASH),
            Split::SwiftStepTrans => Condition::Never,
            Split::Lace1 => Condition::Flag(DEFEATED_LACE1),
            Split::Lace1Trans => Condition::Never,
            Split::DeepDocksBell => Condition::Flag(BELL_SHRINE_WILDS),
            Split::EnterWormways => Condition::Never,
            Split::DriftersCloak => Condition::Flag(HAS_BROLLY),
            Split::DriftersCloakTrans => Condition::Never,
            Split::FourthChorus => Condition::Flag(DEFEATED_SONG_GOLEM),
            Split::EnterGreymoor => Condition::Never,
            Split::GreymoorBell => Condition::Flag(BELL_SHRINE_GREYMOOR),
            Split::Moorwing => Condition::Flag(DEFEATED_VAMPIRE_GNAT_BOSS),
            Split::MoorwingTrans => Condition::Never,
            Split::EnterShellwood => Condition::Never,
            Split::ClingGrip => Condition::Flag(HAS_WALL_JUMP),
            Split::ClingGripTrans => Condition::Never,
            Split::ShellwoodBell => Condition::Flag(BELL_SHRINE_SHELLWOOD),
            Split::EnterBellhart => Condition::Never,
            Split::Widow => Condition::Flag(SPINNER_DEFEATED),
            Split::BellhartBell => Condition::Flag(BELL_SHRINE_BELLHART),
            Split::LastJudge => Condition::Flag(DEFEATED_LAST_JUDGE),
            Split::EnterMist => Condition::Never,
            Split::LeaveMist => Condition::Never,
            Split::Phantom => Condition::Flag(DEFEATED_PHANTOM),
            Split::Act2Started => Condition::Flag(ACT2_STARTED),
            Split::CogworkDancers => Condition::Flag(DEFEATED_COGWORK_DANCERS),
            Split::WhisperingVaultsArena => Condition::Flag(COMPLETED_LIBRARY_ENTRY_BATTLE),
            Split::Trobbio => Condition::Flag(DEFEATED_TROBBIO),
            Split::TrobbioTrans => Condition::Never,
            Split::Clawline => Condition::Flag(HAS_HARPOON_DASH),
            Split::EnterHighHalls => Condition::Never,
            Split::EnterHighHallsArena => Condition::Never,
            Split::HighHallsArena => Condition::Flag(HANG04_BATTLE),
            Split::Lace2 => Condition::Flag(DEFEATED_LACE_TOWER),
            Split::VaultkeepersMelody => Condition::Flag(HAS_MELODY_LIBRARIAN),
            Split::VaultkeepersMelodyTrans => Condition::Never,
            Split::ArchitectsMelody => Condition::Flag(HAS_MELODY_ARCHITECT),
            Split::ArchitectsMelodyTrans => Condition::Never,
            Split::ConductorsMelody => Condition::Flag(HAS_MELODY_CONDUCTOR),
            Split::ConductorsMelodyTrans => Condition::Never,
            Split::UnlockedMelodyLift => Condition::Flag(UNLOCKED_MELODY_LIFT),
            Split::NeedleUpgrade1 => Condition::IntAtLeast(NAIL_UPGRADES, 1),
            Split::NeedleUpgrade2 => Condition::IntAtLeast(NAIL_UPGRADES, 2),
            Split::NeedleUpgrade3 => Condition::IntAtLeast(NAIL_UPGRADES, 3),
            Split::NeedleUpgrade4 => Condition::IntAtLeast(NAIL_UPGRADES, 4),
            Split::ReaperCrestTrans => Condition::Flag(COMPLETED_MEMORY_REAPER),
            Split::SavedFleaHuntersMarch => Condition::Flag(SAVEDFLEA_ANT_03),
            Split::SavedFleaBellhart => Condition::Flag(SAVEDFLEA_BELLTOWN_04),
            Split::SavedFleaMarrow => Condition::Flag(SAVEDFLEA_BONE_06),
            Split::SavedFleaDeepDocksSprint => Condition::Flag(SAVEDFLEA_BONE_EAST_05),
            Split::SavedFleaFarFieldsPilgrimsRest => Condition::Flag(SAVEDFLEA_BONE_EAST_10_CHURCH),
            Split::SavedFleaFarFieldsTrap => Condition::Flag(SAVEDFLEA_BONE_EAST_17B),
            Split::SavedFleaSandsOfKarak => Condition::Flag(SAVEDFLEA_CORAL_24),
            Split::SavedFleaBlastedSteps => Condition::Flag(SAVEDFLEA_CORAL_35),
            Split::SavedFleaWormways => Condition::Flag(SAVEDFLEA_CRAWL_06),
            Split::SavedFleaDeepDocksArena => Condition::Flag(SAVEDFLEA_DOCK_03D),
            Split::SavedFleaDeepDocksBellway => Condition::Flag(SAVEDFLEA_DOCK_16),
            Split::SavedFleaBilewaterOrgan => Condition::Flag(SAVEDFLEA_DUST_09),
            Split::SavedFleaSinnersRoad => Condition::Flag(SAVEDFLEA_DUST_12),
            Split::SavedFleaGreymoorRoof => Condition::Flag(SAVEDFLEA_GREYMOOR_06),
            Split::SavedFleaGreymoorLake => Condition::Flag(SAVEDFLEA_GREYMOOR_15B),
            Split::SavedFleaWhisperingVaults => Condition::Flag(SAVEDFLEA_LIBRARY_01),
            Split::SavedFleaSongclave => Condition::Flag(SAVEDFLEA_LIBRARY_09),
            Split::SavedFleaMountFay => Condition::Flag(SAVEDFLEA_PEAK_05C),
            Split::SavedFleaBilewaterTrap => Condition::Flag(SAVEDFLEA_SHADOW_10),
            Split::SavedFleaBilewaterThieves => Condition::Flag(SAVEDFLEA_SHADOW_28),
            Split::SavedFleaShellwood => Condition::Flag(SAVEDFLEA_SHELLWOOD_03),
            Split::SavedFleaSlabBellway => Condition::Flag(SAVEDFLEA_SLAB_06),
            Split::SavedFleaSlabCage => Condition::Flag(SAVEDFLEA_SLAB_CELL),
            Split::SavedFleaChoralChambersWind => Condition::Flag(SAVEDFLEA_SONG_11),
            Split::SavedFleaChoralChambersCage => Condition::Flag(SAVEDFLEA_SONG_14),
            Split::SavedFleaUnderworksExplosions => Condition::Flag(SAVEDFLEA_UNDER_21),
            Split::SavedFleaUnderworksWispThicket => Condition::Flag(SAVEDFLEA_UNDER_23),
            Split::SavedFleaGiantFlea => Condition::Flag(TAMED_GIANT_FLEA),
            Split::SavedFleaVog => Condition::Flag(MET_TROUPE_HUNTER_WILD),
            Split::SavedFleaKratt => Condition::Flag(CARAVAN_LECH_SAVED),
            Split::PutrifiedDuctsStation => Condition::Flag(UNLOCKED_AQUEDUCT_STATION),
            Split::BellhartStation => Condition::Flag(UNLOCKED_BELLTOWN_STATION),
            Split::FarFieldsStation => Condition::Flag(UNLOCKED_BONEFOREST_EAST_STATION),
            Split::GrandBellwayStation => Condition::Flag(UNLOCKED_CITY_STATION),
            Split::BlastedStepsStation => Condition::Flag(UNLOCKED_CORAL_TOWER_STATION),
            Split::DeepDocksStation => Condition::Flag(UNLOCKED_DOCKS_STATION),
            Split::GreymoorStation => Condition::Flag(UNLOCKED_GREYMOOR_STATION),
            Split::MountFayStation => Condition::Flag(UNLOCKED_PEAK_STATION),
            Split::BilewaterStation => Condition::Flag(UNLOCKED_SHADOW_STATION),
            Split::ShellwoodStation => Condition::Flag(UNLOCKED_SHELLWOOD_STATION),
            Split::ChoralChambersTube => Condition::Flag(UNLOCKED_SONG_TUBE),
            Split::UnderworksTube => Condition::Flag(UNLOCKED_UNDER_TUBE),
            Split::CityBellwayTube => Condition::Flag(UNLOCKED_CITY_BELLWAY_TUBE),
            Split::HighHallsTube => Condition::Flag(UNLOCKED_HANG_TUBE),
            Split::SongclaveTube => Condition::Flag(UNLOCKED_ENCLAVE_TUBE),
            Split::MemoriumTube => Condition::Flag(UNLOCKED_ARBORIUM_TUBE),
            Split::SeenShakraBonebottom => Condition::Flag(SEEN_MAPPER_BONETOWN),
            Split::SeenShakraMarrow => Condition::Flag(SEEN_MAPPER_BONE_FOREST),
            Split::SeenShakraDeepDocks => Condition::Flag(SEEN_MAPPER_DOCKS),
            Split::SeenShakraFarFields => Condition::Flag(SEEN_MAPPER_WILDS),
            Split::SeenShakraWormways => Condition::Flag(SEEN_MAPPER_CRAWL),
            Split::SeenShakraGreymoor => Condition::Flag(SEEN_MAPPER_GREYMOOR),
            Split::SeenShakraBellhart => Condition::Flag(SEEN_MAPPER_BELLHART),
            Split::SeenShakraShellwood => Condition::Flag(SEEN_MAPPER_SHELLWOOD),
            Split::SeenShakraHuntersMarch => Condition::Flag(SEEN_MAPPER_HUNTERS_NEST),
            Split::SeenShakraBlastedSteps => Condition::Flag(SEEN_MAPPER_JUDGE_STEPS),
            Split::SeenShakraSinnersRoad => Condition::Flag(SEEN_MAPPER_DUSTPENS),
            Split::SeenShakraMountFay => Condition::Flag(SEEN_MAPPER_PEAK),
            Split::SeenShakraBilewater => Condition::Flag(SEEN_MAPPER_SHADOW),
            Split::SeenShakraSandsOfKarak => Condition::Flag(SEEN_MAPPER_CORAL_CAVERNS),
            Split::MetJubilanaEnclave => Condition::Flag(MET_CITY_MERCHANT_ENCLAVE),
            Split::MetShermaEnclave => Condition::Flag(MET_SHERMA_ENCLAVE),
            Split::UnlockedPrinceCage => Condition::Flag(UNLOCKED_DUST_CAGE),
            Split::GreenPrinceInVerdania => Condition::IntEquals(GREEN_PRINCE_LOCATION, 3),
            Split::SeenFleatopiaEmpty => Condition::Flag(SEEN_FLEATOPIA_EMPTY),
            Split::FaydownCloak => Condition::Flag(HAS_DOUBLE_JUMP),
            Split::SilkSoar => Condition::Flag(HAS_SUPER_JUMP),
            Split::CollectedHeartNyleth => Condition::Flag(COLLECTED_HEART_FLOWER),
            Split::CollectedHeartKhann => Condition::Flag(COLLECTED_HEART_CORAL),
            Split::CollectedHeartKarmelita => Condition::Flag(COLLECTED_HEART_HUNTER),
            Split::CollectedHeartClover => Condition::Flag(COLLECTED_HEART_CLOVER),
            Split::CompletedRedMemory => Condition::Flag(COMPLETED_RED_MEMORY),
            Split::BellhouseKeyConversation => Condition::Flag(BELLTOWN_GREETER_HOUSE_FULL_DLG),
        }
    }

    pub fn transition_condition(&self) -> (r: SceneCondition)
        ensures
            r == transition_rule(*self),
    {
        match self {
            Split::ManualSplit => SceneCondition::Never,
            Split::StartNewGame => SceneCondition::FromTo(OPENING_SEQUENCE, "Tut_01"),
            Split::EndingSplit => SceneCondition::EntersPrefixed("Cinematic_Ending"),
            Split::EndingA => SceneCondition::Enters("Cinematic_Ending_A"),
            Split::Menu => SceneCondition::Enters(MENU_TITLE),
            Split::PlayerDeath => SceneCondition::Never,
            Split::AnyTransition => SceneCondition::AnyOutsideMenus,
            Split::MossMother => SceneCondition::Never,
            Split::MossMotherTrans => SceneCondition::Flag(DEFEATED_MOSS_MOTHER),
            Split::SilkSpear => SceneCondition::Never,
            Split::SilkSpearTrans => SceneCondition::Flag(HAS_NEEDLE_THROW),
            Split::BellBeast => SceneCondition::Never,
            Split::BellBeastTrans => SceneCondition::Flag(DEFEATED_BELL_BEAST),
            Split::MarrowBell => SceneCondition::Never,
            Split::SwiftStep => SceneCondition::Never,
            Split::SwiftStepTrans => SceneCondition::Flag(HAS_DASH),
            Split::Lace1 => SceneCondition::Never,
            Split::Lace1Trans => SceneCondition::Flag(DEFEATED_LACE1),
            Split::DeepDocksBell => SceneCondition::Never,
            Split::EnterWormways => SceneCondition::EitherFromTo("Crawl_02", "Crawl_03b", "Aspid_01", "Crawl_01"),
            Split::DriftersCloak => SceneCondition::Never,
            Split::DriftersCloakTrans => SceneCondition::Flag(HAS_BROLLY),
            Split::FourthChorus => SceneCondition::Never,
            Split::EnterGreymoor => SceneCondition::Crosses("Greymoor"),
            Split::GreymoorBell => SceneCondition::Never,
            Split::Moorwing => SceneCondition::Never,
            Split::MoorwingTrans => SceneCondition::Flag(DEFEATED_VAMPIRE_GNAT_BOSS),
            Split::EnterShellwood => SceneCondition::Crosses("Shellwood"),
            Split::ClingGrip => SceneCondition::Never,
            Split::ClingGripTrans => SceneCondition::Flag(HAS_WALL_JUMP),
            Split::ShellwoodBell => SceneCondition::Never,
            Split::EnterBellhart => SceneCondition::EitherFromTo("Belltown_06", "Belltown", "Belltown_07", "Belltown"),
            Split::Widow => SceneCondition::Never,
            Split::BellhartBell => SceneCondition::Never,
            Split::LastJudge => SceneCondition::Never,
            Split::EnterMist => SceneCondition::EitherFromTo("Dust_05", "Dust_Maze_09_entrance", "Shadow_04", "Dust_Maze_09_entrance"),
            Split::LeaveMist => SceneCondition::FromTo("Dust_Maze_Last_Hall", "Dust_09"),
            Split::Phantom => SceneCondition::Never,
            Split::Act2Started => SceneCondition::Never,
            Split::CogworkDancers => SceneCondition::Never,
            Split::WhisperingVaultsArena => SceneCondition::Never,
            Split::Trobbio => SceneCondition::Never,
            Split::TrobbioTrans => SceneCondition::Flag(DEFEATED_TROBBIO),
            Split::Clawline => SceneCondition::Never,
            Split::EnterHighHalls => SceneCondition::FromTo("Hang_01", "Hang_02"),
            Split::EnterHighHallsArena => SceneCondition::FromTo("Hang_06", "Hang_04"),
            Split::HighHallsArena => SceneCondition::Never,
            Split::Lace2 => SceneCondition::Never,
            Split::VaultkeepersMelody => SceneCondition::Never,
            Split::VaultkeepersMelodyTrans => SceneCondition::Flag(HAS_MELODY_LIBRARIAN),
            Split::ArchitectsMelody => SceneCondition::Never,
            Split::ArchitectsMelodyTrans => SceneCondition::Flag(HAS_MELODY_ARCHITECT),
            Split::ConductorsMelody => SceneCondition::Never,
            Split::ConductorsMelodyTrans => SceneCondition::Flag(HAS_MELODY_CONDUCTOR),
            Split::UnlockedMelodyLift => SceneCondition::Never,
            Split::NeedleUpgrade1 => SceneCondition::Never,
            Split::NeedleUpgrade2 => SceneCondition::Never,
            Split::NeedleUpgrade3 => SceneCondition::Never,
            Split::NeedleUpgrade4 => SceneCondition::Never,
            Split::ReaperCrestTrans => SceneCondition::Never,
            Split::SavedFleaHuntersMarch => SceneCondition::Never,
            Split::SavedFleaBellhart => SceneCondition::Never,
            Split::SavedFleaMarrow => SceneCondition::Never,
            Split::SavedFleaDeepDocksSprint => SceneCondition::Never,
            Split::SavedFleaFarFieldsPilgrimsRest => SceneCondition::Never,
            Split::SavedFleaFarFieldsTrap => SceneCondition::Never,
            Split::SavedFleaSandsOfKarak => SceneCondition::Never,
            Split::SavedFleaBlastedSteps => SceneCondition::Never,
            Split::SavedFleaWormways => SceneCondition::Never,
            Split::SavedFleaDeepDocksArena => SceneCondition::Never,
            Split::SavedFleaDeepDocksBellway => SceneCondition::Never,
            Split::SavedFleaBilewaterOrgan => SceneCondition::Never,
            Split::SavedFleaSinnersRoad => SceneCondition::Never,
            Split::SavedFleaGreymoorRoof => SceneCondition::Never,
            Split::SavedFleaGreymoorLake => SceneCondition::Never,
            Split::SavedFleaWhisperingVaults => SceneCondition::Never,
            Split::SavedFleaSongclave => SceneCondition::Never,
            Split::SavedFleaMountFay => SceneCondition::Never,
            Split::SavedFleaBilewaterTrap => SceneCondition::Never,
            Split::SavedFleaBilewaterThieves => SceneCondition::Never,
            Split::SavedFleaShellwood => SceneCondition::Never,
            Split::SavedFleaSlabBellway => SceneCondition::Never,
            Split::SavedFleaSlabCage => SceneCondition::Never,
            Split::SavedFleaChoralChambersWind => SceneCondition::Never,
            Split::SavedFleaChoralChambersCage => SceneCondition::Never,
            Split::SavedFleaUnderworksExplosions => SceneCondition::Never,
            Split::SavedFleaUnderworksWispThicket => SceneCondition::Never,
            Split::SavedFleaGiantFlea => SceneCondition::Never,
            Split::SavedFleaVog => SceneCondition::Never,
            Split::SavedFleaKratt => SceneCondition::Never,
            Split::PutrifiedDuctsStation => SceneCondition::Never,
            Split::BellhartStation => SceneCondition::Never,
            Split::FarFieldsStation => SceneCondition::Never,
            Split::GrandBellwayStation => SceneCondition::Never,
            Split::BlastedStepsStation => SceneCondition::Never,
            Split::DeepDocksStation => SceneCondition::Never,
            Split::GreymoorStation => SceneCondition::Never,
            Split::MountFayStation => SceneCondition::Never,
            Split::BilewaterStation => SceneCondition::Never,
            Split::ShellwoodStation => SceneCondition::Never,
            Split::ChoralChambersTube => SceneCondition::Never,
            Split::UnderworksTube => SceneCondition::Never,
            Split::CityBellwayTube => SceneCondition::Never,
            Split::HighHallsTube => SceneCondition::Never,
            Split::SongclaveTube => SceneCondition::Never,
            Split::MemoriumTube => SceneCondition::Never,
            Split::SeenShakraBonebottom => SceneCondition::Never,
            Split::SeenShakraMarrow => SceneCondition::Never,
            Split::SeenShakraDeepDocks => SceneCondition::Never,
            Split::SeenShakraFarFields => SceneCondition::Never,
            Split::SeenShakraWormways => SceneCondition::Never,
            Split::SeenShakraGreymoor => SceneCondition::Never,
            Split::SeenShakraBellhart => SceneCondition::Never,
            Split::SeenShakraShellwood => SceneCondition::Never,
            Split::SeenShakraHuntersMarch => SceneCondition::Never,
            Split::SeenShakraBlastedSteps => SceneCondition::Never,
            Split::SeenShakraSinnersRoad => SceneCondition::Never,
            Split::SeenShakraMountFay => SceneCondition::Never,
            Split::SeenShakraBilewater => SceneCondition::Never,
            Split::SeenShakraSandsOfKarak => SceneCondition::Never,
            Split::MetJubilanaEnclave => SceneCondition::Never,
            Split::MetShermaEnclave => SceneCondition::Never,
            Split::UnlockedPrinceCage => SceneCondition::Never,
            Split::GreenPrinceInVerdania => SceneCondition::Never,
            Split::SeenFleatopiaEmpty => SceneCondition::Never,
            Split::FaydownCloak => SceneCondition::Never,
            Split::SilkSoar => SceneCondition::Never,
            Split::CollectedHeartNyleth => SceneCondition::Never,
            Split::CollectedHeartKhann => SceneCondition::Never,
            Split::CollectedHeartKarmelita => SceneCondition::Never,
            Split::CollectedHeartClover => SceneCondition::Never,
            Split::CompletedRedMemory => SceneCondition::Never,
            Split::BellhouseKeyConversation => SceneCondition::Never,
        }
    }
}

/// What the continuous part of `split`'s rule asks for: nothing outside
/// the playing and cutscene states.
pub open spec fn continuous_action(split: Split, fields: GameFields) -> SplitterAction {
    if !non_menu_game_state(fields.game_state) {
        SplitterAction::Pass
    } else {
        condition_action(continuous_rule(split), fields)
    }
}

/// What the transition part of `split`'s rule asks for on a transition from
/// `old` to `current`.
pub open spec fn transition_action(
    split: Split,
    old: Seq<char>,
    current: Seq<char>,
    fields: GameFields,
) -> SplitterAction {
    split_if(scene_condition_holds(transition_rule(split), old, current, fields))
}

/// What `split`'s rule asks for: the continuous part first, then, only when
/// a transition was seen now, the transition part.
pub open spec fn rule_action(
    split: Split,
    fields: GameFields,
    trans_now: bool,
    old: Seq<char>,
    current: Seq<char>,
) -> SplitterAction {
    if continuous_action(split, fields) != SplitterAction::Pass {
        continuous_action(split, fields)
    } else {
        transition_action_now(split, fields, trans_now, old, current)
    }
}

/// The transition part of `split`'s rule, or `Pass` when no transition was
/// seen now.
pub open spec fn transition_action_now(
    split: Split,
    fields: GameFields,
    trans_now: bool,
    old: Seq<char>,
    current: Seq<char>,
) -> SplitterAction {
    if trans_now {
        transition_action(split, old, current, fields)
    } else {
        SplitterAction::Pass
    }
}

pub fn evaluate_condition(c: Condition, fields: &GameFields) -> (r: SplitterAction)
    ensures
        r == condition_action(c, *fields),
{
    match c {
        Condition::Never => SplitterAction::Pass,
        Condition::Manual => SplitterAction::ManualSplit,
        Condition::Flag(i) => should_split(fields.get_flag(i)),
        Condition::IntAtLeast(i, n) => match fields.get_int(i) {
            Some(v) => should_split(v >= n),
            None => SplitterAction::Pass,
        },
        Condition::IntEquals(i, n) => match fields.get_int(i) {
            Some(v) => should_split(v == n),
            None => SplitterAction::Pass,
        },
    }
}

pub fn scene_condition_met(
    c: &SceneCondition,
    scenes: &ScenePair,
    fields: &GameFields,
) -> (r: bool)
    ensures
        r == scene_condition_holds(*c, scenes.old@, scenes.current@, *fields),
{
    let old = scenes.old;
    let current = scenes.current;
    match c {
        SceneCondition::Never => false,
        SceneCondition::Flag(i) => fields.get_flag(*i),
        SceneCondition::Enters(a) => text_eq(current, a),
        SceneCondition::EntersPrefixed(p) => text_starts_with(current, p),
        SceneCondition::Crosses(p) => !text_starts_with(old, p) && text_starts_with(current, p),
        SceneCondition::FromTo(a, b) => text_eq(old, a) && text_eq(current, b),
        SceneCondition::EitherFromTo(a, b, c, d) => (text_eq(old, a) && text_eq(current, b)) || (
        text_eq(old, c) && text_eq(current, d)),
        SceneCondition::AnyOutsideMenus => !text_eq(current, old) && !(is_menu(old) || is_menu(
            current,
        )),
    }
}

pub fn transition_splits(split: &Split, scenes: &ScenePair, fields: &GameFields) -> (r:
    SplitterAction)
    ensures
        r == transition_action(*split, scenes.old@, scenes.current@, *fields),
{
    let c = split.transition_condition();
    should_split(scene_condition_met(&c, scenes, fields))
}

pub fn continuous_splits(split: &Split, fields: &GameFields) -> (r: SplitterAction)
    ensures
        r == continuous_action(*split, *fields),
{
    if !is_non_menu_game_state(fields.game_state) {
        return should_split(false);
    }
    evaluate_condition(split.continuous_condition(), fields)
}

/// Evaluates `split`'s rule on this tick's snapshot; the transition part sees
/// the store's current pair. Marks the store when the rule asks for anything.
pub fn splits(split: &Split, fields: &GameFields, trans_now: bool, ss: &mut SceneStore) -> (r:
    SplitterAction)
    ensures
        r == rule_action(*split, *fields, trans_now, old(ss)@.pair().0, old(ss)@.pair().1),
        final(ss)@ == (if r != SplitterAction::Pass {
            crate::scenes::SceneModel { split_this_transition: true, ..old(ss)@ }
        } else {
            old(ss)@
        }),
{
    let a1 = {
        let scenes = ss.pair();
        let fallback = || -> (r: SplitterAction)
            ensures
                r == transition_action_now(*split, *fields, trans_now, scenes.old@, scenes.current@),
            {
                if trans_now {
                    transition_splits(split, &scenes, fields)
                } else {
                    SplitterAction::Pass
                }
            };
        continuous_splits(split, fields).or_else(fallback)
    };
    if a1 != SplitterAction::Pass {
        ss.mark_split_this_transition();
    }
    a1
}

/// A rule whose continuous part asks for a split splits, whatever its
/// transition part says and whether or not a transition was seen.
pub proof fn lemma_continuous_rule_first(
    split: Split,
    fields: GameFields,
    trans_now: bool,
    old: Seq<char>,
    current: Seq<char>,
)
    requires
        continuous_action(split, fields) == SplitterAction::Split,
    ensures
        rule_action(split, fields, trans_now, old, current) == SplitterAction::Split,
{
}

} // verus!
