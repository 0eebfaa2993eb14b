//! The shared level table: a stable index per level, the legal-successor
//! relation that drives splits, and the raw mode-index decoding.

use vstd::prelude::*;

use crate::GameMode;
use crate::LevelID;

verus! {

/// Number of members of [`LevelID`].
pub const LEVEL_COUNT: usize = 96;

/// A distinct index below [`LEVEL_COUNT`] for each level identifier,
/// in declaration order.
pub open spec fn spec_level_index(l: LevelID) -> int {
    match l {
        LevelID::MainMenu => 0,
        LevelID::Unknown => 1,
        LevelID::Sonic1_TitleScreen => 2,
        LevelID::Sonic1_GreenHillAct1 => 3,
        LevelID::Sonic1_GreenHillAct2 => 4,
        LevelID::Sonic1_GreenHillAct3 => 5,
        LevelID::Sonic1_MarbleAct1 => 6,
        LevelID::Sonic1_MarbleAct2 => 7,
        LevelID::Sonic1_MarbleAct3 => 8,
        LevelID::Sonic1_SpringYardAct1 => 9,
        LevelID::Sonic1_SpringYardAct2 => 10,
        LevelID::Sonic1_SpringYardAct3 => 11,
        LevelID::Sonic1_LabyrinthAct1 => 12,
        LevelID::Sonic1_LabyrinthAct2 => 13,
        LevelID::Sonic1_LabyrinthAct3 => 14,
        LevelID::Sonic1_StarLightAct1 => 15,
        LevelID::Sonic1_StarLightAct2 => 16,
        LevelID::Sonic1_StarLightAct3 => 17,
        LevelID::Sonic1_ScrapBrainAct1 => 18,
        LevelID::Sonic1_ScrapBrainAct2 => 19,
        LevelID::Sonic1_ScrapBrainAct3 => 20,
        LevelID::Sonic1_FinalZone => 21,
        LevelID::Sonic1_Ending => 22,
        LevelID::Sonic2_TitleScreen => 23,
        LevelID::Sonic2_EmeraldHillAct1 => 24,
        LevelID::Sonic2_EmeraldHillAct2 => 25,
        LevelID::Sonic2_ChemicalPlantAct1 => 26,
        LevelID::Sonic2_ChemicalPlantAct2 => 27,
        LevelID::Sonic2_AquaticRuinAct1 => 28,
        LevelID::Sonic2_AquaticRuinAct2 => 29,
        LevelID::Sonic2_CasinoNightAct1 => 30,
        LevelID::Sonic2_CasinoNightAct2 => 31,
        LevelID::Sonic2_HillTopAct1 => 32,
        LevelID::Sonic2_HillTopAct2 => 33,
        LevelID::Sonic2_MysticCaveAct1 => 34,
        LevelID::Sonic2_MysticCaveAct2 => 35,
        LevelID::Sonic2_OilOceanAct1 => 36,
        LevelID::Sonic2_OilOceanAct2 => 37,
        LevelID::Sonic2_MetropolisAct1 => 38,
        LevelID::Sonic2_MetropolisAct2 => 39,
        LevelID::Sonic2_MetropolisAct3 => 40,
        LevelID::Sonic2_SkyChase => 41,
        LevelID::Sonic2_WingFortress => 42,
        LevelID::Sonic2_DeathEgg => 43,
        LevelID::Sonic2_Ending => 44,
        LevelID::Sonic3_TitleScreen => 45,
        LevelID::Sonic3_SaveSelect => 46,
        LevelID::Sonic3_AngelIslandAct1 => 47,
        LevelID::Sonic3_AngelIslandAct2 => 48,
        LevelID::Sonic3_HydrocityAct1 => 49,
        LevelID::Sonic3_HydrocityAct2 => 50,
        LevelID::Sonic3_MarbleGardenAct1 => 51,
        LevelID::Sonic3_MarbleGardenAct2 => 52,
        LevelID::Sonic3_CarnivalNightAct1 => 53,
        LevelID::Sonic3_CarnivalNightAct2 => 54,
        LevelID::Sonic3_IceCapAct1 => 55,
        LevelID::Sonic3_IceCapAct2 => 56,
        LevelID::Sonic3_LaunchBaseAct1 => 57,
        LevelID::Sonic3_LaunchBaseAct2 => 58,
        LevelID::Sonic3_MushroomHillAct1 => 59,
        LevelID::Sonic3_MushroomHillAct2 => 60,
        LevelID::Sonic3_FlyingBatteryAct1 => 61,
        LevelID::Sonic3_FlyingBatteryAct2 => 62,
        LevelID::Sonic3_SandopolisAct1 => 63,
        LevelID::Sonic3_SandopolisAct2 => 64,
        LevelID::Sonic3_LavaReefAct1 => 65,
        LevelID::Sonic3_LavaReefAct2 => 66,
        LevelID::Sonic3_HiddenPalace => 67,
        LevelID::Sonic3_SkySanctuary => 68,
        LevelID::Sonic3_DeathEggAct1 => 69,
        LevelID::Sonic3_DeathEggAct2 => 70,
        LevelID::Sonic3_Doomsday => 71,
        LevelID::Sonic3_Ending => 72,
        LevelID::SonicCD_TitleScreen => 73,
        LevelID::SonicCD_PalmtreePanicAct1 => 74,
        LevelID::SonicCD_PalmtreePanicAct2 => 75,
        LevelID::SonicCD_PalmtreePanicAct3 => 76,
        LevelID::SonicCD_CollisionChaosAct1 => 77,
        LevelID::SonicCD_CollisionChaosAct2 => 78,
        LevelID::SonicCD_CollisionChaosAct3 => 79,
        LevelID::SonicCD_TidalTempestAct1 => 80,
        LevelID::SonicCD_TidalTempestAct2 => 81,
        LevelID::SonicCD_TidalTempestAct3 => 82,
        LevelID::SonicCD_QuartzQuadrantAct1 => 83,
        LevelID::SonicCD_QuartzQuadrantAct2 => 84,
        LevelID::SonicCD_QuartzQuadrantAct3 => 85,
        LevelID::SonicCD_WackyWorkbenchAct1 => 86,
        LevelID::SonicCD_WackyWorkbenchAct2 => 87,
        LevelID::SonicCD_WackyWorkbenchAct3 => 88,
        LevelID::SonicCD_StardustSpeedwayAct1 => 89,
        LevelID::SonicCD_StardustSpeedwayAct2 => 90,
        LevelID::SonicCD_StardustSpeedwayAct3 => 91,
        LevelID::SonicCD_MetallicMadnessAct1 => 92,
        LevelID::SonicCD_MetallicMadnessAct2 => 93,
        LevelID::SonicCD_MetallicMadnessAct3 => 94,
        LevelID::SonicCD_Ending => 95,
    }
}

/// Executable form of [`spec_level_index`].
pub fn level_index(l: LevelID) -> (r: usize)
    ensures
        r == spec_level_index(l),
        r < LEVEL_COUNT,
{
    match l {
        LevelID::MainMenu => 0,
        LevelID::Unknown => 1,
        LevelID::Sonic1_TitleScreen => 2,
        LevelID::Sonic1_GreenHillAct1 => 3,
        LevelID::Sonic1_GreenHillAct2 => 4,
        LevelID::Sonic1_GreenHillAct3 => 5,
        LevelID::Sonic1_MarbleAct1 => 6,
        LevelID::Sonic1_MarbleAct2 => 7,
        LevelID::Sonic1_MarbleAct3 => 8,
        LevelID::Sonic1_SpringYardAct1 => 9,
        LevelID::Sonic1_SpringYardAct2 => 10,
        LevelID::Sonic1_SpringYardAct3 => 11,
        LevelID::Sonic1_LabyrinthAct1 => 12,
        LevelID::Sonic1_LabyrinthAct2 => 13,
        LevelID::Sonic1_LabyrinthAct3 => 14,
        LevelID::Sonic1_StarLightAct1 => 15,
        LevelID::Sonic1_StarLightAct2 => 16,
        LevelID::Sonic1_StarLightAct3 => 17,
        LevelID::Sonic1_ScrapBrainAct1 => 18,
        LevelID::Sonic1_ScrapBrainAct2 => 19,
        LevelID::Sonic1_ScrapBrainAct3 => 20,
        LevelID::Sonic1_FinalZone => 21,
        LevelID::Sonic1_Ending => 22,
        LevelID::Sonic2_TitleScreen => 23,
        LevelID::Sonic2_EmeraldHillAct1 => 24,
        LevelID::Sonic2_EmeraldHillAct2 => 25,
        LevelID::Sonic2_ChemicalPlantAct1 => 26,
        LevelID::Sonic2_ChemicalPlantAct2 => 27,
        LevelID::Sonic2_AquaticRuinAct1 => 28,
        LevelID::Sonic2_AquaticRuinAct2 => 29,
        LevelID::Sonic2_CasinoNightAct1 => 30,
        LevelID::Sonic2_CasinoNightAct2 => 31,
        LevelID::Sonic2_HillTopAct1 => 32,
        LevelID::Sonic2_HillTopAct2 => 33,
        LevelID::Sonic2_MysticCaveAct1 => 34,
        LevelID::Sonic2_MysticCaveAct2 => 35,
        LevelID::Sonic2_OilOceanAct1 => 36,
        LevelID::Sonic2_OilOceanAct2 => 37,
        LevelID::Sonic2_MetropolisAct1 => 38,
        LevelID::Sonic2_MetropolisAct2 => 39,
        LevelID::Sonic2_MetropolisAct3 => 40,
        LevelID::Sonic2_SkyChase => 41,
        LevelID::Sonic2_WingFortress => 42,
        LevelID::Sonic2_DeathEgg => 43,
        LevelID::Sonic2_Ending => 44,
        LevelID::Sonic3_TitleScreen => 45,
        LevelID::Sonic3_SaveSelect => 46,
        LevelID::Sonic3_AngelIslandAct1 => 47,
        LevelID::Sonic3_AngelIslandAct2 => 48,
        LevelID::Sonic3_HydrocityAct1 => 49,
        LevelID::Sonic3_HydrocityAct2 => 50,
        LevelID::Sonic3_MarbleGardenAct1 => 51,
        LevelID::Sonic3_MarbleGardenAct2 => 52,
        LevelID::Sonic3_CarnivalNightAct1 => 53,
        LevelID::Sonic3_CarnivalNightAct2 => 54,
        LevelID::Sonic3_IceCapAct1 => 55,
        LevelID::Sonic3_IceCapAct2 => 56,
        LevelID::Sonic3_LaunchBaseAct1 => 57,
        LevelID::Sonic3_LaunchBaseAct2 => 58,
        LevelID::Sonic3_MushroomHillAct1 => 59,
        LevelID::Sonic3_MushroomHillAct2 => 60,
        LevelID::Sonic3_FlyingBatteryAct1 => 61,
        LevelID::Sonic3_FlyingBatteryAct2 => 62,
        LevelID::Sonic3_SandopolisAct1 => 63,
        LevelID::Sonic3_SandopolisAct2 => 64,
        LevelID::Sonic3_LavaReefAct1 => 65,
        LevelID::Sonic3_LavaReefAct2 => 66,
        LevelID::Sonic3_HiddenPalace => 67,
        LevelID::Sonic3_SkySanctuary => 68,
        LevelID::Sonic3_DeathEggAct1 => 69,
        LevelID::Sonic3_DeathEggAct2 => 70,
        LevelID::Sonic3_Doomsday => 71,
        LevelID::Sonic3_Ending => 72,
        LevelID::SonicCD_TitleScreen => 73,
        LevelID::SonicCD_PalmtreePanicAct1 => 74,
        LevelID::SonicCD_PalmtreePanicAct2 => 75,
        LevelID::SonicCD_PalmtreePanicAct3 => 76,
        LevelID::SonicCD_CollisionChaosAct1 => 77,
        LevelID::SonicCD_CollisionChaosAct2 => 78,
        LevelID::SonicCD_CollisionChaosAct3 => 79,
        LevelID::SonicCD_TidalTempestAct1 => 80,
        LevelID::SonicCD_TidalTempestAct2 => 81,
        LevelID::SonicCD_TidalTempestAct3 => 82,
        LevelID::SonicCD_QuartzQuadrantAct1 => 83,
        LevelID::SonicCD_QuartzQuadrantAct2 => 84,
        LevelID::SonicCD_QuartzQuadrantAct3 => 85,
        LevelID::SonicCD_WackyWorkbenchAct1 => 86,
        LevelID::SonicCD_WackyWorkbenchAct2 => 87,
        LevelID::SonicCD_WackyWorkbenchAct3 => 88,
        LevelID::SonicCD_StardustSpeedwayAct1 => 89,
        LevelID::SonicCD_StardustSpeedwayAct2 => 90,
        LevelID::SonicCD_StardustSpeedwayAct3 => 91,
        LevelID::SonicCD_MetallicMadnessAct1 => 92,
        LevelID::SonicCD_MetallicMadnessAct2 => 93,
        LevelID::SonicCD_MetallicMadnessAct3 => 94,
        LevelID::SonicCD_Ending => 95,
    }
}

/// Whether `cur` is a legal successor of `prev`: the level that follows
/// `prev` in its title's running order.  Most acts have exactly one legal
/// successor; the late third-title acts also admit the hidden-palace
/// branch, and two of them can end the run.  A level with no entry here
/// never splits.
pub open spec fn spec_is_successor(prev: LevelID, cur: LevelID) -> bool {
    match prev {
        LevelID::Sonic1_GreenHillAct1 => cur == LevelID::Sonic1_GreenHillAct2,
        LevelID::Sonic1_GreenHillAct2 => cur == LevelID::Sonic1_GreenHillAct3,
        LevelID::Sonic1_GreenHillAct3 => cur == LevelID::Sonic1_MarbleAct1,
        LevelID::Sonic1_MarbleAct1 => cur == LevelID::Sonic1_MarbleAct2,
        LevelID::Sonic1_MarbleAct2 => cur == LevelID::Sonic1_MarbleAct3,
        LevelID::Sonic1_MarbleAct3 => cur == LevelID::Sonic1_SpringYardAct1,
        LevelID::Sonic1_SpringYardAct1 => cur == LevelID::Sonic1_SpringYardAct2,
        LevelID::Sonic1_SpringYardAct2 => cur == LevelID::Sonic1_SpringYardAct3,
        LevelID::Sonic1_SpringYardAct3 => cur == LevelID::Sonic1_LabyrinthAct1,
        LevelID::Sonic1_LabyrinthAct1 => cur == LevelID::Sonic1_LabyrinthAct2,
        LevelID::Sonic1_LabyrinthAct2 => cur == LevelID::Sonic1_LabyrinthAct3,
        LevelID::Sonic1_LabyrinthAct3 => cur == LevelID::Sonic1_StarLightAct1,
        LevelID::Sonic1_StarLightAct1 => cur == LevelID::Sonic1_StarLightAct2,
        LevelID::Sonic1_StarLightAct2 => cur == LevelID::Sonic1_StarLightAct3,
        LevelID::Sonic1_StarLightAct3 => cur == LevelID::Sonic1_ScrapBrainAct1,
        LevelID::Sonic1_ScrapBrainAct1 => cur == LevelID::Sonic1_ScrapBrainAct2,
        LevelID::Sonic1_ScrapBrainAct2 => cur == LevelID::Sonic1_ScrapBrainAct3,
        LevelID::Sonic1_ScrapBrainAct3 => cur == LevelID::Sonic1_FinalZone,
        LevelID::Sonic1_FinalZone => cur == LevelID::Sonic1_Ending,
        LevelID::Sonic2_EmeraldHillAct1 => cur == LevelID::Sonic2_EmeraldHillAct2,
        LevelID::Sonic2_EmeraldHillAct2 => cur == LevelID::Sonic2_ChemicalPlantAct1,
        LevelID::Sonic2_ChemicalPlantAct1 => cur == LevelID::Sonic2_ChemicalPlantAct2,
        LevelID::Sonic2_ChemicalPlantAct2 => cur == LevelID::Sonic2_AquaticRuinAct1,
        LevelID::Sonic2_AquaticRuinAct1 => cur == LevelID::Sonic2_AquaticRuinAct2,
        LevelID::Sonic2_AquaticRuinAct2 => cur == LevelID::Sonic2_CasinoNightAct1,
        LevelID::Sonic2_CasinoNightAct1 => cur == LevelID::Sonic2_CasinoNightAct2,
        LevelID::Sonic2_CasinoNightAct2 => cur == LevelID::Sonic2_HillTopAct1,
        LevelID::Sonic2_HillTopAct1 => cur == LevelID::Sonic2_HillTopAct2,
        LevelID::Sonic2_HillTopAct2 => cur == LevelID::Sonic2_MysticCaveAct1,
        LevelID::Sonic2_MysticCaveAct1 => cur == LevelID::Sonic2_MysticCaveAct2,
        LevelID::Sonic2_MysticCaveAct2 => cur == LevelID::Sonic2_OilOceanAct1,
        LevelID::Sonic2_OilOceanAct1 => cur == LevelID::Sonic2_OilOceanAct2,
        LevelID::Sonic2_OilOceanAct2 => cur == LevelID::Sonic2_MetropolisAct1,
        LevelID::Sonic2_MetropolisAct1 => cur == LevelID::Sonic2_MetropolisAct2,
        LevelID::Sonic2_MetropolisAct2 => cur == LevelID::Sonic2_MetropolisAct3,
        LevelID::Sonic2_MetropolisAct3 => cur == LevelID::Sonic2_SkyChase,
        LevelID::Sonic2_SkyChase => cur == LevelID::Sonic2_WingFortress,
        LevelID::Sonic2_WingFortress => cur == LevelID::Sonic2_DeathEgg,
        LevelID::Sonic2_DeathEgg => cur == LevelID::Sonic2_Ending,
        LevelID::Sonic3_AngelIslandAct1 => cur == LevelID::Sonic3_AngelIslandAct2,
        LevelID::Sonic3_AngelIslandAct2 => cur == LevelID::Sonic3_HydrocityAct1,
        LevelID::Sonic3_HydrocityAct1 => cur == LevelID::Sonic3_HydrocityAct2,
        LevelID::Sonic3_HydrocityAct2 => cur == LevelID::Sonic3_MarbleGardenAct1,
        LevelID::Sonic3_MarbleGardenAct1 => cur == LevelID::Sonic3_MarbleGardenAct2,
        LevelID::Sonic3_MarbleGardenAct2 => cur == LevelID::Sonic3_CarnivalNightAct1,
        LevelID::Sonic3_CarnivalNightAct1 => cur == LevelID::Sonic3_CarnivalNightAct2,
        LevelID::Sonic3_CarnivalNightAct2 => cur == LevelID::Sonic3_IceCapAct1,
        LevelID::Sonic3_IceCapAct1 => cur == LevelID::Sonic3_IceCapAct2,
        LevelID::Sonic3_IceCapAct2 => cur == LevelID::Sonic3_LaunchBaseAct1,
        LevelID::Sonic3_LaunchBaseAct1 => cur == LevelID::Sonic3_LaunchBaseAct2,
        LevelID::Sonic3_LaunchBaseAct2 => cur == LevelID::Sonic3_MushroomHillAct1,
        LevelID::Sonic3_MushroomHillAct1 => cur == LevelID::Sonic3_MushroomHillAct2 || cur == LevelID::Sonic3_HiddenPalace,
        LevelID::Sonic3_MushroomHillAct2 => cur == LevelID::Sonic3_FlyingBatteryAct1 || cur == LevelID::Sonic3_HiddenPalace,
        LevelID::Sonic3_FlyingBatteryAct1 => cur == LevelID::Sonic3_FlyingBatteryAct2 || cur == LevelID::Sonic3_HiddenPalace,
        LevelID::Sonic3_FlyingBatteryAct2 => cur == LevelID::Sonic3_SandopolisAct1 || cur == LevelID::Sonic3_HiddenPalace,
        LevelID::Sonic3_SandopolisAct1 => cur == LevelID::Sonic3_SandopolisAct2 || cur == LevelID::Sonic3_HiddenPalace,
        LevelID::Sonic3_SandopolisAct2 => cur == LevelID::Sonic3_LavaReefAct1 || cur == LevelID::Sonic3_HiddenPalace,
        LevelID::Sonic3_LavaReefAct1 => cur == LevelID::Sonic3_LavaReefAct2 || cur == LevelID::Sonic3_HiddenPalace,
        LevelID::Sonic3_LavaReefAct2 => cur == LevelID::Sonic3_HiddenPalace,
        LevelID::Sonic3_HiddenPalace => cur == LevelID::Sonic3_SkySanctuary,
        LevelID::Sonic3_SkySanctuary => cur == LevelID::Sonic3_DeathEggAct1 || cur == LevelID::Sonic3_Ending,
        LevelID::Sonic3_DeathEggAct1 => cur == LevelID::Sonic3_DeathEggAct2,
        LevelID::Sonic3_DeathEggAct2 => cur == LevelID::Sonic3_Doomsday || cur == LevelID::Sonic3_Ending,
        LevelID::Sonic3_Doomsday => cur == LevelID::Sonic3_Ending,
        LevelID::SonicCD_PalmtreePanicAct1 => cur == LevelID::SonicCD_PalmtreePanicAct2,
        LevelID::SonicCD_PalmtreePanicAct2 => cur == LevelID::SonicCD_PalmtreePanicAct3,
        LevelID::SonicCD_PalmtreePanicAct3 => cur == LevelID::SonicCD_CollisionChaosAct1,
        LevelID::SonicCD_CollisionChaosAct1 => cur == LevelID::SonicCD_CollisionChaosAct2,
        LevelID::SonicCD_CollisionChaosAct2 => cur == LevelID::SonicCD_CollisionChaosAct3,
        LevelID::SonicCD_CollisionChaosAct3 => cur == LevelID::SonicCD_TidalTempestAct1,
        LevelID::SonicCD_TidalTempestAct1 => cur == LevelID::SonicCD_TidalTempestAct2,
        LevelID::SonicCD_TidalTempestAct2 => cur == LevelID::SonicCD_TidalTempestAct3,
        LevelID::SonicCD_TidalTempestAct3 => cur == LevelID::SonicCD_QuartzQuadrantAct1,
        LevelID::SonicCD_QuartzQuadrantAct1 => cur == LevelID::SonicCD_QuartzQuadrantAct2,
        LevelID::SonicCD_QuartzQuadrantAct2 => cur == LevelID::SonicCD_QuartzQuadrantAct3,
        LevelID::SonicCD_QuartzQuadrantAct3 => cur == LevelID::SonicCD_WackyWorkbenchAct1,
        LevelID::SonicCD_WackyWorkbenchAct1 => cur == LevelID::SonicCD_WackyWorkbenchAct2,
        LevelID::SonicCD_WackyWorkbenchAct2 => cur == LevelID::SonicCD_WackyWorkbenchAct3,
        LevelID::SonicCD_WackyWorkbenchAct3 => cur == LevelID::SonicCD_StardustSpeedwayAct1,
        LevelID::SonicCD_StardustSpeedwayAct1 => cur == LevelID::SonicCD_StardustSpeedwayAct2,
        LevelID::SonicCD_StardustSpeedwayAct2 => cur == LevelID::SonicCD_StardustSpeedwayAct3,
        LevelID::SonicCD_StardustSpeedwayAct3 => cur == LevelID::SonicCD_MetallicMadnessAct1,
        LevelID::SonicCD_MetallicMadnessAct1 => cur == LevelID::SonicCD_MetallicMadnessAct2,
        LevelID::SonicCD_MetallicMadnessAct2 => cur == LevelID::SonicCD_MetallicMadnessAct3,
        LevelID::SonicCD_MetallicMadnessAct3 => cur == LevelID::SonicCD_Ending,
        _ => false,
    }
}

/// Executable form of [`spec_is_successor`].
pub fn is_successor(prev: LevelID, cur: LevelID) -> (r: bool)
    ensures
        r == spec_is_successor(prev, cur),
{
    match prev {
        LevelID::Sonic1_GreenHillAct1 => cur == LevelID::Sonic1_GreenHillAct2,
        LevelID::Sonic1_GreenHillAct2 => cur == LevelID::Sonic1_GreenHillAct3,
        LevelID::Sonic1_GreenHillAct3 => cur == LevelID::Sonic1_MarbleAct1,
        LevelID::Sonic1_MarbleAct1 => cur == LevelID::Sonic1_MarbleAct2,
        LevelID::Sonic1_MarbleAct2 => cur == LevelID::Sonic1_MarbleAct3,
        LevelID::Sonic1_MarbleAct3 => cur == LevelID::Sonic1_SpringYardAct1,
        LevelID::Sonic1_SpringYardAct1 => cur == LevelID::Sonic1_SpringYardAct2,
        LevelID::Sonic1_SpringYardAct2 => cur == LevelID::Sonic1_SpringYardAct3,
        LevelID::Sonic1_SpringYardAct3 => cur == LevelID::Sonic1_LabyrinthAct1,
        LevelID::Sonic1_LabyrinthAct1 => cur == LevelID::Sonic1_LabyrinthAct2,
        LevelID::Sonic1_LabyrinthAct2 => cur == LevelID::Sonic1_LabyrinthAct3,
        LevelID::Sonic1_LabyrinthAct3 => cur == LevelID::Sonic1_StarLightAct1,
        LevelID::Sonic1_StarLightAct1 => cur == LevelID::Sonic1_StarLightAct2,
        LevelID::Sonic1_StarLightAct2 => cur == LevelID::Sonic1_StarLightAct3,
        LevelID::Sonic1_StarLightAct3 => cur == LevelID::Sonic1_ScrapBrainAct1,
        LevelID::Sonic1_ScrapBrainAct1 => cur == LevelID::Sonic1_ScrapBrainAct2,
        LevelID::Sonic1_ScrapBrainAct2 => cur == LevelID::Sonic1_ScrapBrainAct3,
        LevelID::Sonic1_ScrapBrainAct3 => cur == LevelID::Sonic1_FinalZone,
        LevelID::Sonic1_FinalZone => cur == LevelID::Sonic1_Ending,
        LevelID::Sonic2_EmeraldHillAct1 => cur == LevelID::Sonic2_EmeraldHillAct2,
        LevelID::Sonic2_EmeraldHillAct2 => cur == LevelID::Sonic2_ChemicalPlantAct1,
        LevelID::Sonic2_ChemicalPlantAct1 => cur == LevelID::Sonic2_ChemicalPlantAct2,
        LevelID::Sonic2_ChemicalPlantAct2 => cur == LevelID::Sonic2_AquaticRuinAct1,
        LevelID::Sonic2_AquaticRuinAct1 => cur == LevelID::Sonic2_AquaticRuinAct2,
        LevelID::Sonic2_AquaticRuinAct2 => cur == LevelID::Sonic2_CasinoNightAct1,
        LevelID::Sonic2_CasinoNightAct1 => cur == LevelID::Sonic2_CasinoNightAct2,
        LevelID::Sonic2_CasinoNightAct2 => cur == LevelID::Sonic2_HillTopAct1,
        LevelID::Sonic2_HillTopAct1 => cur == LevelID::Sonic2_HillTopAct2,
        LevelID::Sonic2_HillTopAct2 => cur == LevelID::Sonic2_MysticCaveAct1,
        LevelID::Sonic2_MysticCaveAct1 => cur == LevelID::Sonic2_MysticCaveAct2,
        LevelID::Sonic2_MysticCaveAct2 => cur == LevelID::Sonic2_OilOceanAct1,
        LevelID::Sonic2_OilOceanAct1 => cur == LevelID::Sonic2_OilOceanAct2,
        LevelID::Sonic2_OilOceanAct2 => cur == LevelID::Sonic2_MetropolisAct1,
        LevelID::Sonic2_MetropolisAct1 => cur == LevelID::Sonic2_MetropolisAct2,
        LevelID::Sonic2_MetropolisAct2 => cur == LevelID::Sonic2_MetropolisAct3,
        LevelID::Sonic2_MetropolisAct3 => cur == LevelID::Sonic2_SkyChase,
        LevelID::Sonic2_SkyChase => cur == LevelID::Sonic2_WingFortress,
        LevelID::Sonic2_WingFortress => cur == LevelID::Sonic2_DeathEgg,
        LevelID::Sonic2_DeathEgg => cur == LevelID::Sonic2_Ending,
        LevelID::Sonic3_AngelIslandAct1 => cur == LevelID::Sonic3_AngelIslandAct2,
        LevelID::Sonic3_AngelIslandAct2 => cur == LevelID::Sonic3_HydrocityAct1,
        LevelID::Sonic3_HydrocityAct1 => cur == LevelID::Sonic3_HydrocityAct2,
        LevelID::Sonic3_HydrocityAct2 => cur == LevelID::Sonic3_MarbleGardenAct1,
        LevelID::Sonic3_MarbleGardenAct1 => cur == LevelID::Sonic3_MarbleGardenAct2,
        LevelID::Sonic3_MarbleGardenAct2 => cur == LevelID::Sonic3_CarnivalNightAct1,
        LevelID::Sonic3_CarnivalNightAct1 => cur == LevelID::Sonic3_CarnivalNightAct2,
        LevelID::Sonic3_CarnivalNightAct2 => cur == LevelID::Sonic3_IceCapAct1,
        LevelID::Sonic3_IceCapAct1 => cur == LevelID::Sonic3_IceCapAct2,
        LevelID::Sonic3_IceCapAct2 => cur == LevelID::Sonic3_LaunchBaseAct1,
        LevelID::Sonic3_LaunchBaseAct1 => cur == LevelID::Sonic3_LaunchBaseAct2,
        LevelID::Sonic3_LaunchBaseAct2 => cur == LevelID::Sonic3_MushroomHillAct1,
        LevelID::Sonic3_MushroomHillAct1 => cur == LevelID::Sonic3_MushroomHillAct2 || cur == LevelID::Sonic3_HiddenPalace,
        LevelID::Sonic3_MushroomHillAct2 => cur == LevelID::Sonic3_FlyingBatteryAct1 || cur == LevelID::Sonic3_HiddenPalace,
        LevelID::Sonic3_FlyingBatteryAct1 => cur == LevelID::Sonic3_FlyingBatteryAct2 || cur == LevelID::Sonic3_HiddenPalace,
        LevelID::Sonic3_FlyingBatteryAct2 => cur == LevelID::Sonic3_SandopolisAct1 || cur == LevelID::Sonic3_HiddenPalace,
        LevelID::Sonic3_SandopolisAct1 => cur == LevelID::Sonic3_SandopolisAct2 || cur == LevelID::Sonic3_HiddenPalace,
        LevelID::Sonic3_SandopolisAct2 => cur == LevelID::Sonic3_LavaReefAct1 || cur == LevelID::Sonic3_HiddenPalace,
        LevelID::Sonic3_LavaReefAct1 => cur == LevelID::Sonic3_LavaReefAct2 || cur == LevelID::Sonic3_HiddenPalace,
        LevelID::Sonic3_LavaReefAct2 => cur == LevelID::Sonic3_HiddenPalace,
        LevelID::Sonic3_HiddenPalace => cur == LevelID::Sonic3_SkySanctuary,
        LevelID::Sonic3_SkySanctuary => cur == LevelID::Sonic3_DeathEggAct1 || cur == LevelID::Sonic3_Ending,
        LevelID::Sonic3_DeathEggAct1 => cur == LevelID::Sonic3_DeathEggAct2,
        LevelID::Sonic3_DeathEggAct2 => cur == LevelID::Sonic3_Doomsday || cur == LevelID::Sonic3_Ending,
        LevelID::Sonic3_Doomsday => cur == LevelID::Sonic3_Ending,
        LevelID::SonicCD_PalmtreePanicAct1 => cur == LevelID::SonicCD_PalmtreePanicAct2,
        LevelID::SonicCD_PalmtreePanicAct2 => cur == LevelID::SonicCD_PalmtreePanicAct3,
        LevelID::SonicCD_PalmtreePanicAct3 => cur == LevelID::SonicCD_CollisionChaosAct1,
        LevelID::SonicCD_CollisionChaosAct1 => cur == LevelID::SonicCD_CollisionChaosAct2,
        LevelID::SonicCD_CollisionChaosAct2 => cur == LevelID::SonicCD_CollisionChaosAct3,
        LevelID::SonicCD_CollisionChaosAct3 => cur == LevelID::SonicCD_TidalTempestAct1,
        LevelID::SonicCD_TidalTempestAct1 => cur == LevelID::SonicCD_TidalTempestAct2,
        LevelID::SonicCD_TidalTempestAct2 => cur == LevelID::SonicCD_TidalTempestAct3,
        LevelID::SonicCD_TidalTempestAct3 => cur == LevelID::SonicCD_QuartzQuadrantAct1,
        LevelID::SonicCD_QuartzQuadrantAct1 => cur == LevelID::SonicCD_QuartzQuadrantAct2,
        LevelID::SonicCD_QuartzQuadrantAct2 => cur == LevelID::SonicCD_QuartzQuadrantAct3,
        LevelID::SonicCD_QuartzQuadrantAct3 => cur == LevelID::SonicCD_WackyWorkbenchAct1,
        LevelID::SonicCD_WackyWorkbenchAct1 => cur == LevelID::SonicCD_WackyWorkbenchAct2,
        LevelID::SonicCD_WackyWorkbenchAct2 => cur == LevelID::SonicCD_WackyWorkbenchAct3,
        LevelID::SonicCD_WackyWorkbenchAct3 => cur == LevelID::SonicCD_StardustSpeedwayAct1,
        LevelID::SonicCD_StardustSpeedwayAct1 => cur == LevelID::SonicCD_StardustSpeedwayAct2,
        LevelID::SonicCD_StardustSpeedwayAct2 => cur == LevelID::SonicCD_StardustSpeedwayAct3,
        LevelID::SonicCD_StardustSpeedwayAct3 => cur == LevelID::SonicCD_MetallicMadnessAct1,
        LevelID::SonicCD_MetallicMadnessAct1 => cur == LevelID::SonicCD_MetallicMadnessAct2,
        LevelID::SonicCD_MetallicMadnessAct2 => cur == LevelID::SonicCD_MetallicMadnessAct3,
        LevelID::SonicCD_MetallicMadnessAct3 => cur == LevelID::SonicCD_Ending,
        _ => false,
    }
}

/// The play mode a raw mode index denotes; every index outside the table
/// falls back to `Classic`.
pub open spec fn spec_mode_of_index(v: int) -> GameMode {
    if v == 1 {
        GameMode::Anniversary
    } else if v == 2 {
        GameMode::BossRush
    } else if v == 3 {
        GameMode::Mirror
    } else if v == 4 {
        GameMode::Mission
    } else if v == 5 {
        GameMode::Story
    } else if v == 6 {
        GameMode::BlueSpheresClassic
    } else if v == 7 {
        GameMode::BlueSpheresNew
    } else {
        GameMode::Classic
    }
}

/// Executable form of [`spec_mode_of_index`].
pub fn mode_of_index(v: i64) -> (r: GameMode)
    ensures
        r == spec_mode_of_index(v as int),
{
    match v {
        1 => GameMode::Anniversary,
        2 => GameMode::BossRush,
        3 => GameMode::Mirror,
        4 => GameMode::Mission,
        5 => GameMode::Story,
        6 => GameMode::BlueSpheresClassic,
        7 => GameMode::BlueSpheresNew,
        _ => GameMode::Classic,
    }
}

/// Whether splits are evaluated at all in this mode.
pub open spec fn spec_mode_splits(m: GameMode) -> bool {
    m == GameMode::Classic || m == GameMode::Mirror || m == GameMode::Anniversary || m
        == GameMode::Story
}

/// Executable form of [`spec_mode_splits`].
pub fn mode_splits(m: GameMode) -> (r: bool)
    ensures
        r == spec_mode_splits(m),
{
    m == GameMode::Classic || m == GameMode::Mirror || m == GameMode::Anniversary || m
        == GameMode::Story
}

} // verus!
