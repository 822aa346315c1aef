use vstd::prelude::*;

verus! {

/// A League of Legends queue, identified by its queue id.
#[derive(Clone, Copy, Debug, PartialEq, Eq, Structural, Hash)]
pub enum Queue {
    /// Queue id `0`.
    /// Games on Custom games
    Custom,
    /// Queue id `2`.
    /// 5v5 Blind Pick games on Summoner's Rift
    SummonersRift5v5BlindPickDeprecated2,
    /// Queue id `4`.
    /// 5v5 Ranked Solo games on Summoner's Rift
    SummonersRift5v5RankedSoloDeprecated4,
    /// Queue id `6`.
    /// 5v5 Ranked Premade games on Summoner's Rift
    SummonersRift5v5RankedPremade,
    /// Queue id `7`.
    /// Co-op vs AI games on Summoner's Rift
    SummonersRiftCoOpVsAi,
    /// Queue id `8`.
    /// 3v3 Normal games on Twisted Treeline
    TwistedTreeline3v3Normal,
    /// Queue id `9`.
    /// 3v3 Ranked Flex games on Twisted Treeline
    TwistedTreeline3v3RankedFlexDeprecated9,
    /// Queue id `14`.
    /// 5v5 Draft Pick games on Summoner's Rift
    SummonersRift5v5DraftPickDeprecated14,
    /// Queue id `16`.
    /// 5v5 Dominion Blind Pick games on Crystal Scar
    CrystalScar5v5DominionBlindPick,
    /// Queue id `17`.
    /// 5v5 Dominion Draft Pick games on Crystal Scar
    CrystalScar5v5DominionDraftPick,
    /// Queue id `25`.
    /// Dominion Co-op vs AI games on Crystal Scar
    CrystalScarDominionCoOpVsAi,
    /// Queue id `31`.
    /// Co-op vs AI Intro Bot games on Summoner's Rift
    SummonersRiftCoOpVsAiIntroBotDeprecated31,
    /// Queue id `32`.
    /// Co-op vs AI Beginner Bot games on Summoner's Rift
    SummonersRiftCoOpVsAiBeginnerBotDeprecated32,
    /// Queue id `33`.
    /// Co-op vs AI Intermediate Bot games on Summoner's Rift
    SummonersRiftCoOpVsAiIntermediateBotDeprecated33,
    /// Queue id `41`.
    /// 3v3 Ranked Team games on Twisted Treeline
    TwistedTreeline3v3RankedTeam,
    /// Queue id `42`.
    /// 5v5 Ranked Team games on Summoner's Rift
    SummonersRift5v5RankedTeam,
    /// Queue id `52`.
    /// Co-op vs AI games on Twisted Treeline
    TwistedTreelineCoOpVsAi,
    /// Queue id `61`.
    /// 5v5 Team Builder games on Summoner's Rift
    SummonersRift5v5TeamBuilder,
    /// Queue id `65`.
    /// 5v5 ARAM games on Howling Abyss
    HowlingAbyss5v5AramDeprecated65,
    /// Queue id `67`.
    /// ARAM Co-op vs AI games on Howling Abyss
    HowlingAbyssAramCoOpVsAi,
    /// Queue id `70`.
    /// One for All games on Summoner's Rift
    SummonersRiftOneForAllDeprecated70,
    /// Queue id `72`.
    /// 1v1 Snowdown Showdown games on Howling Abyss
    HowlingAbyss1v1SnowdownShowdown,
    /// Queue id `73`.
    /// 2v2 Snowdown Showdown games on Howling Abyss
    HowlingAbyss2v2SnowdownShowdown,
    /// Queue id `75`.
    /// 6v6 Hexakill games on Summoner's Rift
    SummonersRift6v6Hexakill,
    /// Queue id `76`.
    /// Ultra Rapid Fire games on Summoner's Rift
    SummonersRiftUltraRapidFire,
    /// Queue id `78`.
    /// One For All: Mirror Mode games on Howling Abyss
    HowlingAbyssOneForAllMirrorMode,
    /// Queue id `83`.
    /// Co-op vs AI Ultra Rapid Fire games on Summoner's Rift
    SummonersRiftCoOpVsAiUltraRapidFire,
    /// Queue id `91`.
    /// Doom Bots Rank 1 games on Summoner's Rift
    SummonersRiftDoomBotsRank1,
    /// Queue id `92`.
    /// Doom Bots Rank 2 games on Summoner's Rift
    SummonersRiftDoomBotsRank2,
    /// Queue id `93`.
    /// Doom Bots Rank 5 games on Summoner's Rift
    SummonersRiftDoomBotsRank5,
    /// Queue id `96`.
    /// Ascension games on Crystal Scar
    CrystalScarAscensionDeprecated96,
    /// Queue id `98`.
    /// 6v6 Hexakill games on Twisted Treeline
    TwistedTreeline6v6Hexakill,
    /// Queue id `100`.
    /// 5v5 ARAM games on Butcher's Bridge
    ButchersBridge5v5Aram,
    /// Queue id `300`.
    /// Legend of the Poro King games on Howling Abyss
    HowlingAbyssLegendOfThePoroKingDeprecated300,
    /// Queue id `310`.
    /// Nemesis games on Summoner's Rift
    SummonersRiftNemesis,
    /// Queue id `313`.
    /// Black Market Brawlers games on Summoner's Rift
    SummonersRiftBlackMarketBrawlers,
    /// Queue id `315`.
    /// Nexus Siege games on Summoner's Rift
    SummonersRiftNexusSiegeDeprecated315,
    /// Queue id `317`.
    /// Definitely Not Dominion games on Crystal Scar
    CrystalScarDefinitelyNotDominion,
    /// Queue id `318`.
    /// ARURF games on Summoner's Rift
    SummonersRiftArurfDeprecated318,
    /// Queue id `325`.
    /// All Random games on Summoner's Rift
    SummonersRiftAllRandom,
    /// Queue id `400`.
    /// 5v5 Draft Pick games on Summoner's Rift
    SummonersRift5v5DraftPick,
    /// Queue id `410`.
    /// 5v5 Ranked Dynamic games on Summoner's Rift
    SummonersRift5v5RankedDynamic,
    /// Queue id `420`.
    /// 5v5 Ranked Solo games on Summoner's Rift
    SummonersRift5v5RankedSolo,
    /// Queue id `430`.
    /// 5v5 Blind Pick games on Summoner's Rift
    SummonersRift5v5BlindPick,
    /// Queue id `440`.
    /// 5v5 Ranked Flex games on Summoner's Rift
    SummonersRift5v5RankedFlex,
    /// Queue id `450`.
    /// 5v5 ARAM games on Howling Abyss
    HowlingAbyss5v5Aram,
    /// Queue id `460`.
    /// 3v3 Blind Pick games on Twisted Treeline
    TwistedTreeline3v3BlindPick,
    /// Queue id `470`.
    /// 3v3 Ranked Flex games on Twisted Treeline
    TwistedTreeline3v3RankedFlexDeprecated470,
    /// Queue id `490`.
    /// Normal (Quickplay) games on Summoner's Rift
    SummonersRiftNormalQuickplay,
    /// Queue id `600`.
    /// Blood Hunt Assassin games on Summoner's Rift
    SummonersRiftBloodHuntAssassin,
    /// Queue id `610`.
    /// Dark Star: Singularity games on Cosmic Ruins
    CosmicRuinsDarkStarSingularity,
    /// Queue id `700`.
    /// Summoner's Rift Clash games on Summoner's Rift
    SummonersRiftClash,
    /// Queue id `720`.
    /// ARAM Clash games on Howling Abyss
    HowlingAbyssAramClash,
    /// Queue id `800`.
    /// Co-op vs. AI Intermediate Bot games on Twisted Treeline
    TwistedTreelineCoOpVsAiIntermediateBot,
    /// Queue id `810`.
    /// Co-op vs. AI Intro Bot games on Twisted Treeline
    TwistedTreelineCoOpVsAiIntroBot,
    /// Queue id `820`.
    /// Co-op vs. AI Beginner Bot games on Twisted Treeline
    TwistedTreelineCoOpVsAiBeginnerBot,
    /// Queue id `830`.
    /// Co-op vs. AI Intro Bot games on Summoner's Rift
    SummonersRiftCoOpVsAiIntroBot,
    /// Queue id `840`.
    /// Co-op vs. AI Beginner Bot games on Summoner's Rift
    SummonersRiftCoOpVsAiBeginnerBot,
    /// Queue id `850`.
    /// Co-op vs. AI Intermediate Bot games on Summoner's Rift
    SummonersRiftCoOpVsAiIntermediateBot,
    /// Queue id `900`.
    /// ARURF games on Summoner's Rift
    SummonersRiftArurf,
    /// Queue id `910`.
    /// Ascension games on Crystal Scar
    CrystalScarAscension,
    /// Queue id `920`.
    /// Legend of the Poro King games on Howling Abyss
    HowlingAbyssLegendOfThePoroKing,
    /// Queue id `940`.
    /// Nexus Siege games on Summoner's Rift
    SummonersRiftNexusSiege,
    /// Queue id `950`.
    /// Doom Bots Voting games on Summoner's Rift
    SummonersRiftDoomBotsVoting,
    /// Queue id `960`.
    /// Doom Bots Standard games on Summoner's Rift
    SummonersRiftDoomBotsStandard,
    /// Queue id `980`.
    /// Star Guardian Invasion: Normal games on Valoran City Park
    ValoranCityParkStarGuardianInvasionNormal,
    /// Queue id `990`.
    /// Star Guardian Invasion: Onslaught games on Valoran City Park
    ValoranCityParkStarGuardianInvasionOnslaught,
    /// Queue id `1000`.
    /// PROJECT: Hunters games on Overcharge
    OverchargeProjectHunters,
    /// Queue id `1010`.
    /// Snow ARURF games on Summoner's Rift
    SummonersRiftSnowArurf,
    /// Queue id `1020`.
    /// One for All games on Summoner's Rift
    SummonersRiftOneForAll,
    /// Queue id `1030`.
    /// Odyssey Extraction: Intro games on Crash Site
    CrashSiteOdysseyExtractionIntro,
    /// Queue id `1040`.
    /// Odyssey Extraction: Cadet games on Crash Site
    CrashSiteOdysseyExtractionCadet,
    /// Queue id `1050`.
    /// Odyssey Extraction: Crewmember games on Crash Site
    CrashSiteOdysseyExtractionCrewmember,
    /// Queue id `1060`.
    /// Odyssey Extraction: Captain games on Crash Site
    CrashSiteOdysseyExtractionCaptain,
    /// Queue id `1070`.
    /// Odyssey Extraction: Onslaught games on Crash Site
    CrashSiteOdysseyExtractionOnslaught,
    /// Queue id `1090`.
    /// Teamfight Tactics games on Convergence
    ConvergenceTeamfightTactics,
    /// Queue id `1091`.
    /// Teamfight Tactics 1v0 games on Convergence
    ConvergenceTeamfightTactics1v0,
    /// Queue id `1092`.
    /// Teamfight Tactics 2v0 games on Convergence
    ConvergenceTeamfightTactics2v0,
    /// Queue id `1100`.
    /// Ranked Teamfight Tactics games on Convergence
    ConvergenceRankedTeamfightTactics,
    /// Queue id `1110`.
    /// Teamfight Tactics Tutorial games on Convergence
    ConvergenceTeamfightTacticsTutorial,
    /// Queue id `1111`.
    /// Teamfight Tactics Simulation games on Convergence
    ConvergenceTeamfightTacticsSimulation,
    /// Queue id `1130`.
    /// Ranked Teamfight Tactics (Hyper Roll) games on Convergence
    ConvergenceRankedTeamfightTacticsHyperRoll,
    /// Queue id `1150`.
    /// Ranked Teamfight Tactics (Double Up Workshop) games on Convergence
    ConvergenceRankedTeamfightTacticsDoubleUpWorkshopDeprecated1150,
    /// Queue id `1160`.
    /// Ranked Teamfight Tactics (Double Up Workshop) games on Convergence
    ConvergenceRankedTeamfightTacticsDoubleUpWorkshop,
    /// Queue id `1200`.
    /// Nexus Blitz games on Nexus Blitz
    NexusBlitzDeprecated1200,
    /// Queue id `1210`.
    /// Teamfight Tactics (Choncc's Treasure) games on Convergence
    ConvergenceTeamfightTacticsChonccsTreasure,
    /// Queue id `1300`.
    /// Nexus Blitz games on Nexus Blitz
    NexusBlitz,
    /// Queue id `1400`.
    /// Ultimate Spellbook games on Summoner's Rift
    SummonersRiftUltimateSpellbook,
    /// Queue id `1700`.
    /// 2v2v2v2 `CHERRY` games on Arena
    Arena2v2v2v2Cherry,
    /// Queue id `1710`.
    /// Arena (`CHERRY` games) games on Rings of Wrath
    RingsOfWrathArenaCherryGames,
    /// Queue id `1810`.
    /// Swarm solo (`STRAWBERRY` games) games on Swarm
    SwarmSoloStrawberryGames,
    /// Queue id `1820`.
    /// Swarm duo (`STRAWBERRY` games) games on Swarm
    SwarmDuoStrawberryGames,
    /// Queue id `1830`.
    /// Swarm trio (`STRAWBERRY` games) games on Swarm
    SwarmTrioStrawberryGames,
    /// Queue id `1840`.
    /// Swarm quad (`STRAWBERRY` games) games on Swarm
    SwarmQuadStrawberryGames,
    /// Queue id `1900`.
    /// Pick URF games on Summoner's Rift
    SummonersRiftPickUrf,
    /// Queue id `2000`.
    /// Tutorial 1 games on Summoner's Rift
    SummonersRiftTutorial1,
    /// Queue id `2010`.
    /// Tutorial 2 games on Summoner's Rift
    SummonersRiftTutorial2,
    /// Queue id `2020`.
    /// Tutorial 3 games on Summoner's Rift
    SummonersRiftTutorial3,
    /// Queue id `6000`.
    /// Teamfight Tactics Set 3.5 Revival games on Convergence
    ConvergenceTeamfightTacticsSet35Revival,
}

/// The queue id of `q`.
pub open spec fn queue_id(q: Queue) -> u16 {
    match q {
        Queue::Custom => 0,
        Queue::SummonersRift5v5BlindPickDeprecated2 => 2,
        Queue::SummonersRift5v5RankedSoloDeprecated4 => 4,
        Queue::SummonersRift5v5RankedPremade => 6,
        Queue::SummonersRiftCoOpVsAi => 7,
        Queue::TwistedTreeline3v3Normal => 8,
        Queue::TwistedTreeline3v3RankedFlexDeprecated9 => 9,
        Queue::SummonersRift5v5DraftPickDeprecated14 => 14,
        Queue::CrystalScar5v5DominionBlindPick => 16,
        Queue::CrystalScar5v5DominionDraftPick => 17,
        Queue::CrystalScarDominionCoOpVsAi => 25,
        Queue::SummonersRiftCoOpVsAiIntroBotDeprecated31 => 31,
        Queue::SummonersRiftCoOpVsAiBeginnerBotDeprecated32 => 32,
        Queue::SummonersRiftCoOpVsAiIntermediateBotDeprecated33 => 33,
        Queue::TwistedTreeline3v3RankedTeam => 41,
        Queue::SummonersRift5v5RankedTeam => 42,
        Queue::TwistedTreelineCoOpVsAi => 52,
        Queue::SummonersRift5v5TeamBuilder => 61,
        Queue::HowlingAbyss5v5AramDeprecated65 => 65,
        Queue::HowlingAbyssAramCoOpVsAi => 67,
        Queue::SummonersRiftOneForAllDeprecated70 => 70,
        Queue::HowlingAbyss1v1SnowdownShowdown => 72,
        Queue::HowlingAbyss2v2SnowdownShowdown => 73,
        Queue::SummonersRift6v6Hexakill => 75,
        Queue::SummonersRiftUltraRapidFire => 76,
        Queue::HowlingAbyssOneForAllMirrorMode => 78,
        Queue::SummonersRiftCoOpVsAiUltraRapidFire => 83,
        Queue::SummonersRiftDoomBotsRank1 => 91,
        Queue::SummonersRiftDoomBotsRank2 => 92,
        Queue::SummonersRiftDoomBotsRank5 => 93,
        Queue::CrystalScarAscensionDeprecated96 => 96,
        Queue::TwistedTreeline6v6Hexakill => 98,
        Queue::ButchersBridge5v5Aram => 100,
        Queue::HowlingAbyssLegendOfThePoroKingDeprecated300 => 300,
        Queue::SummonersRiftNemesis => 310,
        Queue::SummonersRiftBlackMarketBrawlers => 313,
        Queue::SummonersRiftNexusSiegeDeprecated315 => 315,
        Queue::CrystalScarDefinitelyNotDominion => 317,
        Queue::SummonersRiftArurfDeprecated318 => 318,
        Queue::SummonersRiftAllRandom => 325,
        Queue::SummonersRift5v5DraftPick => 400,
        Queue::SummonersRift5v5RankedDynamic => 410,
        Queue::SummonersRift5v5RankedSolo => 420,
        Queue::SummonersRift5v5BlindPick => 430,
        Queue::SummonersRift5v5RankedFlex => 440,
        Queue::HowlingAbyss5v5Aram => 450,
        Queue::TwistedTreeline3v3BlindPick => 460,
        Queue::TwistedTreeline3v3RankedFlexDeprecated470 => 470,
        Queue::SummonersRiftNormalQuickplay => 490,
        Queue::SummonersRiftBloodHuntAssassin => 600,
        Queue::CosmicRuinsDarkStarSingularity => 610,
        Queue::SummonersRiftClash => 700,
        Queue::HowlingAbyssAramClash => 720,
        Queue::TwistedTreelineCoOpVsAiIntermediateBot => 800,
        Queue::TwistedTreelineCoOpVsAiIntroBot => 810,
        Queue::TwistedTreelineCoOpVsAiBeginnerBot => 820,
        Queue::SummonersRiftCoOpVsAiIntroBot => 830,
        Queue::SummonersRiftCoOpVsAiBeginnerBot => 840,
        Queue::SummonersRiftCoOpVsAiIntermediateBot => 850,
        Queue::SummonersRiftArurf => 900,
        Queue::CrystalScarAscension => 910,
        Queue::HowlingAbyssLegendOfThePoroKing => 920,
        Queue::SummonersRiftNexusSiege => 940,
        Queue::SummonersRiftDoomBotsVoting => 950,
        Queue::SummonersRiftDoomBotsStandard => 960,
        Queue::ValoranCityParkStarGuardianInvasionNormal => 980,
        Queue::ValoranCityParkStarGuardianInvasionOnslaught => 990,
        Queue::OverchargeProjectHunters => 1000,
        Queue::SummonersRiftSnowArurf => 1010,
        Queue::SummonersRiftOneForAll => 1020,
        Queue::CrashSiteOdysseyExtractionIntro => 1030,
        Queue::CrashSiteOdysseyExtractionCadet => 1040,
        Queue::CrashSiteOdysseyExtractionCrewmember => 1050,
        Queue::CrashSiteOdysseyExtractionCaptain => 1060,
        Queue::CrashSiteOdysseyExtractionOnslaught => 1070,
        Queue::ConvergenceTeamfightTactics => 1090,
        Queue::ConvergenceTeamfightTactics1v0 => 1091,
        Queue::ConvergenceTeamfightTactics2v0 => 1092,
        Queue::ConvergenceRankedTeamfightTactics => 1100,
        Queue::ConvergenceTeamfightTacticsTutorial => 1110,
        Queue::ConvergenceTeamfightTacticsSimulation => 1111,
        Queue::ConvergenceRankedTeamfightTacticsHyperRoll => 1130,
        Queue::ConvergenceRankedTeamfightTacticsDoubleUpWorkshopDeprecated1150 => 1150,
        Queue::ConvergenceRankedTeamfightTacticsDoubleUpWorkshop => 1160,
        Queue::NexusBlitzDeprecated1200 => 1200,
        Queue::ConvergenceTeamfightTacticsChonccsTreasure => 1210,
        Queue::NexusBlitz => 1300,
        Queue::SummonersRiftUltimateSpellbook => 1400,
        Queue::Arena2v2v2v2Cherry => 1700,
        Queue::RingsOfWrathArenaCherryGames => 1710,
        Queue::SwarmSoloStrawberryGames => 1810,
        Queue::SwarmDuoStrawberryGames => 1820,
        Queue::SwarmTrioStrawberryGames => 1830,
        Queue::SwarmQuadStrawberryGames => 1840,
        Queue::SummonersRiftPickUrf => 1900,
        Queue::SummonersRiftTutorial1 => 2000,
        Queue::SummonersRiftTutorial2 => 2010,
        Queue::SummonersRiftTutorial3 => 2020,
        Queue::ConvergenceTeamfightTacticsSet35Revival => 6000,
    }
}

/// The queue with id `v`; `Custom` for an id that names no queue.
pub open spec fn queue_from_id(v: u16) -> Queue {
    match v {
        0 => Queue::Custom,
        2 => Queue::SummonersRift5v5BlindPickDeprecated2,
        4 => Queue::SummonersRift5v5RankedSoloDeprecated4,
        6 => Queue::SummonersRift5v5RankedPremade,
        7 => Queue::SummonersRiftCoOpVsAi,
        8 => Queue::TwistedTreeline3v3Normal,
        9 => Queue::TwistedTreeline3v3RankedFlexDeprecated9,
        14 => Queue::SummonersRift5v5DraftPickDeprecated14,
        16 => Queue::CrystalScar5v5DominionBlindPick,
        17 => Queue::CrystalScar5v5DominionDraftPick,
        25 => Queue::CrystalScarDominionCoOpVsAi,
        31 => Queue::SummonersRiftCoOpVsAiIntroBotDeprecated31,
        32 => Queue::SummonersRiftCoOpVsAiBeginnerBotDeprecated32,
        33 => Queue::SummonersRiftCoOpVsAiIntermediateBotDeprecated33,
        41 => Queue::TwistedTreeline3v3RankedTeam,
        42 => Queue::SummonersRift5v5RankedTeam,
        52 => Queue::TwistedTreelineCoOpVsAi,
        61 => Queue::SummonersRift5v5TeamBuilder,
        65 => Queue::HowlingAbyss5v5AramDeprecated65,
        67 => Queue::HowlingAbyssAramCoOpVsAi,
        70 => Queue::SummonersRiftOneForAllDeprecated70,
        72 => Queue::HowlingAbyss1v1SnowdownShowdown,
        73 => Queue::HowlingAbyss2v2SnowdownShowdown,
        75 => Queue::SummonersRift6v6Hexakill,
        76 => Queue::SummonersRiftUltraRapidFire,
        78 => Queue::HowlingAbyssOneForAllMirrorMode,
        83 => Queue::SummonersRiftCoOpVsAiUltraRapidFire,
        91 => Queue::SummonersRiftDoomBotsRank1,
        92 => Queue::SummonersRiftDoomBotsRank2,
        93 => Queue::SummonersRiftDoomBotsRank5,
        96 => Queue::CrystalScarAscensionDeprecated96,
        98 => Queue::TwistedTreeline6v6Hexakill,
        100 => Queue::ButchersBridge5v5Aram,
        300 => Queue::HowlingAbyssLegendOfThePoroKingDeprecated300,
        310 => Queue::SummonersRiftNemesis,
        313 => Queue::SummonersRiftBlackMarketBrawlers,
        315 => Queue::SummonersRiftNexusSiegeDeprecated315,
        317 => Queue::CrystalScarDefinitelyNotDominion,
        318 => Queue::SummonersRiftArurfDeprecated318,
        325 => Queue::SummonersRiftAllRandom,
        400 => Queue::SummonersRift5v5DraftPick,
        410 => Queue::SummonersRift5v5RankedDynamic,
        420 => Queue::SummonersRift5v5RankedSolo,
        430 => Queue::SummonersRift5v5BlindPick,
        440 => Queue::SummonersRift5v5RankedFlex,
        450 => Queue::HowlingAbyss5v5Aram,
        460 => Queue::TwistedTreeline3v3BlindPick,
        470 => Queue::TwistedTreeline3v3RankedFlexDeprecated470,
        490 => Queue::SummonersRiftNormalQuickplay,
        600 => Queue::SummonersRiftBloodHuntAssassin,
        610 => Queue::CosmicRuinsDarkStarSingularity,
        700 => Queue::SummonersRiftClash,
        720 => Queue::HowlingAbyssAramClash,
        800 => Queue::TwistedTreelineCoOpVsAiIntermediateBot,
        810 => Queue::TwistedTreelineCoOpVsAiIntroBot,
        820 => Queue::TwistedTreelineCoOpVsAiBeginnerBot,
        830 => Queue::SummonersRiftCoOpVsAiIntroBot,
        840 => Queue::SummonersRiftCoOpVsAiBeginnerBot,
        850 => Queue::SummonersRiftCoOpVsAiIntermediateBot,
        900 => Queue::SummonersRiftArurf,
        910 => Queue::CrystalScarAscension,
        920 => Queue::HowlingAbyssLegendOfThePoroKing,
        940 => Queue::SummonersRiftNexusSiege,
        950 => Queue::SummonersRiftDoomBotsVoting,
        960 => Queue::SummonersRiftDoomBotsStandard,
        980 => Queue::ValoranCityParkStarGuardianInvasionNormal,
        990 => Queue::ValoranCityParkStarGuardianInvasionOnslaught,
        1000 => Queue::OverchargeProjectHunters,
        1010 => Queue::SummonersRiftSnowArurf,
        1020 => Queue::SummonersRiftOneForAll,
        1030 => Queue::CrashSiteOdysseyExtractionIntro,
        1040 => Queue::CrashSiteOdysseyExtractionCadet,
        1050 => Queue::CrashSiteOdysseyExtractionCrewmember,
        1060 => Queue::CrashSiteOdysseyExtractionCaptain,
        1070 => Queue::CrashSiteOdysseyExtractionOnslaught,
        1090 => Queue::ConvergenceTeamfightTactics,
        1091 => Queue::ConvergenceTeamfightTactics1v0,
        1092 => Queue::ConvergenceTeamfightTactics2v0,
        1100 => Queue::ConvergenceRankedTeamfightTactics,
        1110 => Queue::ConvergenceTeamfightTacticsTutorial,
        1111 => Queue::ConvergenceTeamfightTacticsSimulation,
        1130 => Queue::ConvergenceRankedTeamfightTacticsHyperRoll,
        1150 => Queue::ConvergenceRankedTeamfightTacticsDoubleUpWorkshopDeprecated1150,
        1160 => Queue::ConvergenceRankedTeamfightTacticsDoubleUpWorkshop,
        1200 => Queue::NexusBlitzDeprecated1200,
        1210 => Queue::ConvergenceTeamfightTacticsChonccsTreasure,
        1300 => Queue::NexusBlitz,
        1400 => Queue::SummonersRiftUltimateSpellbook,
        1700 => Queue::Arena2v2v2v2Cherry,
        1710 => Queue::RingsOfWrathArenaCherryGames,
        1810 => Queue::SwarmSoloStrawberryGames,
        1820 => Queue::SwarmDuoStrawberryGames,
        1830 => Queue::SwarmTrioStrawberryGames,
        1840 => Queue::SwarmQuadStrawberryGames,
        1900 => Queue::SummonersRiftPickUrf,
        2000 => Queue::SummonersRiftTutorial1,
        2010 => Queue::SummonersRiftTutorial2,
        2020 => Queue::SummonersRiftTutorial3,
        6000 => Queue::ConvergenceTeamfightTacticsSet35Revival,
        _ => Queue::Custom,
    }
}

/// The display name of `q`; "Unknown" for the queues without one.
pub open spec fn queue_name(q: Queue) -> Seq<char> {
    match q {
        Queue::SummonersRift5v5DraftPick => "Normal Draft Pick"@,
        Queue::SummonersRift5v5BlindPick => "Normal Blind Pick"@,
        Queue::SummonersRift5v5RankedSolo => "Ranked Solo/Duo"@,
        Queue::SummonersRift5v5RankedFlex => "Ranked Flex"@,
        Queue::HowlingAbyss5v5Aram => "ARAM"@,
        Queue::SummonersRiftArurf => "ARURF"@,
        Queue::SummonersRiftOneForAll => "One for All"@,
        Queue::Arena2v2v2v2Cherry => "2v2v2v2 Cherry"@,
        Queue::SummonersRiftPickUrf => "Pick URF"@,
        Queue::SummonersRiftUltimateSpellbook => "Ultimate Spellbook"@,
        Queue::SummonersRiftNexusSiege => "Nexus Siege"@,
        Queue::SummonersRiftClash => "Clash"@,
        Queue::SummonersRiftNormalQuickplay => "Normal Quickplay"@,
        Queue::NexusBlitz => "Nexus Blitz"@,
        _ => "Unknown"@,
    }
}

impl Queue {
    /// The display name of the queue; "Unknown" for the queues without one.
    pub fn to_str(&self) -> (res: &'static str)
        ensures
            res@ == queue_name(*self),
    {
        match self {
            Queue::SummonersRift5v5DraftPick => "Normal Draft Pick",
            Queue::SummonersRift5v5BlindPick => "Normal Blind Pick",
            Queue::SummonersRift5v5RankedSolo => "Ranked Solo/Duo",
            Queue::SummonersRift5v5RankedFlex => "Ranked Flex",
            Queue::HowlingAbyss5v5Aram => "ARAM",
            Queue::SummonersRiftArurf => "ARURF",
            Queue::SummonersRiftOneForAll => "One for All",
            Queue::Arena2v2v2v2Cherry => "2v2v2v2 Cherry",
            Queue::SummonersRiftPickUrf => "Pick URF",
            Queue::SummonersRiftUltimateSpellbook => "Ultimate Spellbook",
            Queue::SummonersRiftNexusSiege => "Nexus Siege",
            Queue::SummonersRiftClash => "Clash",
            Queue::SummonersRiftNormalQuickplay => "Normal Quickplay",
            Queue::NexusBlitz => "Nexus Blitz",
            _ => "Unknown",
        }
    }

    /// The queue id.
    pub fn to_u16(&self) -> (res: u16)
        ensures
            res == queue_id(*self),
    {
        match self {
            Queue::Custom => 0,
            Queue::SummonersRift5v5BlindPickDeprecated2 => 2,
            Queue::SummonersRift5v5RankedSoloDeprecated4 => 4,
            Queue::SummonersRift5v5RankedPremade => 6,
            Queue::SummonersRiftCoOpVsAi => 7,
            Queue::TwistedTreeline3v3Normal => 8,
            Queue::TwistedTreeline3v3RankedFlexDeprecated9 => 9,
            Queue::SummonersRift5v5DraftPickDeprecated14 => 14,
            Queue::CrystalScar5v5DominionBlindPick => 16,
            Queue::CrystalScar5v5DominionDraftPick => 17,
            Queue::CrystalScarDominionCoOpVsAi => 25,
            Queue::SummonersRiftCoOpVsAiIntroBotDeprecated31 => 31,
            Queue::SummonersRiftCoOpVsAiBeginnerBotDeprecated32 => 32,
            Queue::SummonersRiftCoOpVsAiIntermediateBotDeprecated33 => 33,
            Queue::TwistedTreeline3v3RankedTeam => 41,
            Queue::SummonersRift5v5RankedTeam => 42,
            Queue::TwistedTreelineCoOpVsAi => 52,
            Queue::SummonersRift5v5TeamBuilder => 61,
            Queue::HowlingAbyss5v5AramDeprecated65 => 65,
            Queue::HowlingAbyssAramCoOpVsAi => 67,
            Queue::SummonersRiftOneForAllDeprecated70 => 70,
            Queue::HowlingAbyss1v1SnowdownShowdown => 72,
            Queue::HowlingAbyss2v2SnowdownShowdown => 73,
            Queue::SummonersRift6v6Hexakill => 75,
            Queue::SummonersRiftUltraRapidFire => 76,
            Queue::HowlingAbyssOneForAllMirrorMode => 78,
            Queue::SummonersRiftCoOpVsAiUltraRapidFire => 83,
            Queue::SummonersRiftDoomBotsRank1 => 91,
            Queue::SummonersRiftDoomBotsRank2 => 92,
            Queue::SummonersRiftDoomBotsRank5 => 93,
            Queue::CrystalScarAscensionDeprecated96 => 96,
            Queue::TwistedTreeline6v6Hexakill => 98,
            Queue::ButchersBridge5v5Aram => 100,
            Queue::HowlingAbyssLegendOfThePoroKingDeprecated300 => 300,
            Queue::SummonersRiftNemesis => 310,
            Queue::SummonersRiftBlackMarketBrawlers => 313,
            Queue::SummonersRiftNexusSiegeDeprecated315 => 315,
            Queue::CrystalScarDefinitelyNotDominion => 317,
            Queue::SummonersRiftArurfDeprecated318 => 318,
            Queue::SummonersRiftAllRandom => 325,
            Queue::SummonersRift5v5DraftPick => 400,
            Queue::SummonersRift5v5RankedDynamic => 410,
            Queue::SummonersRift5v5RankedSolo => 420,
            Queue::SummonersRift5v5BlindPick => 430,
            Queue::SummonersRift5v5RankedFlex => 440,
            Queue::HowlingAbyss5v5Aram => 450,
            Queue::TwistedTreeline3v3BlindPick => 460,
            Queue::TwistedTreeline3v3RankedFlexDeprecated470 => 470,
            Queue::SummonersRiftNormalQuickplay => 490,
            Queue::SummonersRiftBloodHuntAssassin => 600,
            Queue::CosmicRuinsDarkStarSingularity => 610,
            Queue::SummonersRiftClash => 700,
            Queue::HowlingAbyssAramClash => 720,
            Queue::TwistedTreelineCoOpVsAiIntermediateBot => 800,
            Queue::TwistedTreelineCoOpVsAiIntroBot => 810,
            Queue::TwistedTreelineCoOpVsAiBeginnerBot => 820,
            Queue::SummonersRiftCoOpVsAiIntroBot => 830,
            Queue::SummonersRiftCoOpVsAiBeginnerBot => 840,
            Queue::SummonersRiftCoOpVsAiIntermediateBot => 850,
            Queue::SummonersRiftArurf => 900,
            Queue::CrystalScarAscension => 910,
            Queue::HowlingAbyssLegendOfThePoroKing => 920,
            Queue::SummonersRiftNexusSiege => 940,
            Queue::SummonersRiftDoomBotsVoting => 950,
            Queue::SummonersRiftDoomBotsStandard => 960,
            Queue::ValoranCityParkStarGuardianInvasionNormal => 980,
            Queue::ValoranCityParkStarGuardianInvasionOnslaught => 990,
            Queue::OverchargeProjectHunters => 1000,
            Queue::SummonersRiftSnowArurf => 1010,
            Queue::SummonersRiftOneForAll => 1020,
            Queue::CrashSiteOdysseyExtractionIntro => 1030,
            Queue::CrashSiteOdysseyExtractionCadet => 1040,
            Queue::CrashSiteOdysseyExtractionCrewmember => 1050,
            Queue::CrashSiteOdysseyExtractionCaptain => 1060,
            Queue::CrashSiteOdysseyExtractionOnslaught => 1070,
            Queue::ConvergenceTeamfightTactics => 1090,
            Queue::ConvergenceTeamfightTactics1v0 => 1091,
            Queue::ConvergenceTeamfightTactics2v0 => 1092,
            Queue::ConvergenceRankedTeamfightTactics => 1100,
            Queue::ConvergenceTeamfightTacticsTutorial => 1110,
            Queue::ConvergenceTeamfightTacticsSimulation => 1111,
            Queue::ConvergenceRankedTeamfightTacticsHyperRoll => 1130,
            Queue::ConvergenceRankedTeamfightTacticsDoubleUpWorkshopDeprecated1150 => 1150,
            Queue::ConvergenceRankedTeamfightTacticsDoubleUpWorkshop => 1160,
            Queue::NexusBlitzDeprecated1200 => 1200,
            Queue::ConvergenceTeamfightTacticsChonccsTreasure => 1210,
            Queue::NexusBlitz => 1300,
            Queue::SummonersRiftUltimateSpellbook => 1400,
            Queue::Arena2v2v2v2Cherry => 1700,
            Queue::RingsOfWrathArenaCherryGames => 1710,
            Queue::SwarmSoloStrawberryGames => 1810,
            Queue::SwarmDuoStrawberryGames => 1820,
            Queue::SwarmTrioStrawberryGames => 1830,
            Queue::SwarmQuadStrawberryGames => 1840,
            Queue::SummonersRiftPickUrf => 1900,
            Queue::SummonersRiftTutorial1 => 2000,
            Queue::SummonersRiftTutorial2 => 2010,
            Queue::SummonersRiftTutorial3 => 2020,
            Queue::ConvergenceTeamfightTacticsSet35Revival => 6000,
        }
    }

    /// The queue with id `value`; `Custom` for an id that names no queue.
    pub fn from_u16(value: u16) -> (res: Queue)
        ensures
            res == queue_from_id(value),
    {
        match value {
            0 => Queue::Custom,
            2 => Queue::SummonersRift5v5BlindPickDeprecated2,
            4 => Queue::SummonersRift5v5RankedSoloDeprecated4,
            6 => Queue::SummonersRift5v5RankedPremade,
            7 => Queue::SummonersRiftCoOpVsAi,
            8 => Queue::TwistedTreeline3v3Normal,
            9 => Queue::TwistedTreeline3v3RankedFlexDeprecated9,
            14 => Queue::SummonersRift5v5DraftPickDeprecated14,
            16 => Queue::CrystalScar5v5DominionBlindPick,
            17 => Queue::CrystalScar5v5DominionDraftPick,
            25 => Queue::CrystalScarDominionCoOpVsAi,
            31 => Queue::SummonersRiftCoOpVsAiIntroBotDeprecated31,
            32 => Queue::SummonersRiftCoOpVsAiBeginnerBotDeprecated32,
            33 => Queue::SummonersRiftCoOpVsAiIntermediateBotDeprecated33,
            41 => Queue::TwistedTreeline3v3RankedTeam,
            42 => Queue::SummonersRift5v5RankedTeam,
            52 => Queue::TwistedTreelineCoOpVsAi,
            61 => Queue::SummonersRift5v5TeamBuilder,
            65 => Queue::HowlingAbyss5v5AramDeprecated65,
            67 => Queue::HowlingAbyssAramCoOpVsAi,
            70 => Queue::SummonersRiftOneForAllDeprecated70,
            72 => Queue::HowlingAbyss1v1SnowdownShowdown,
            73 => Queue::HowlingAbyss2v2SnowdownShowdown,
            75 => Queue::SummonersRift6v6Hexakill,
            76 => Queue::SummonersRiftUltraRapidFire,
            78 => Queue::HowlingAbyssOneForAllMirrorMode,
            83 => Queue::SummonersRiftCoOpVsAiUltraRapidFire,
            91 => Queue::SummonersRiftDoomBotsRank1,
            92 => Queue::SummonersRiftDoomBotsRank2,
            93 => Queue::SummonersRiftDoomBotsRank5,
            96 => Queue::CrystalScarAscensionDeprecated96,
            98 => Queue::TwistedTreeline6v6Hexakill,
            100 => Queue::ButchersBridge5v5Aram,
            300 => Queue::HowlingAbyssLegendOfThePoroKingDeprecated300,
            310 => Queue::SummonersRiftNemesis,
            313 => Queue::SummonersRiftBlackMarketBrawlers,
            315 => Queue::SummonersRiftNexusSiegeDeprecated315,
            317 => Queue::CrystalScarDefinitelyNotDominion,
            318 => Queue::SummonersRiftArurfDeprecated318,
            325 => Queue::SummonersRiftAllRandom,
            400 => Queue::SummonersRift5v5DraftPick,
            410 => Queue::SummonersRift5v5RankedDynamic,
            420 => Queue::SummonersRift5v5RankedSolo,
            430 => Queue::SummonersRift5v5BlindPick,
            440 => Queue::SummonersRift5v5RankedFlex,
            450 => Queue::HowlingAbyss5v5Aram,
            460 => Queue::TwistedTreeline3v3BlindPick,
            470 => Queue::TwistedTreeline3v3RankedFlexDeprecated470,
            490 => Queue::SummonersRiftNormalQuickplay,
            600 => Queue::SummonersRiftBloodHuntAssassin,
            610 => Queue::CosmicRuinsDarkStarSingularity,
            700 => Queue::SummonersRiftClash,
            720 => Queue::HowlingAbyssAramClash,
            800 => Queue::TwistedTreelineCoOpVsAiIntermediateBot,
            810 => Queue::TwistedTreelineCoOpVsAiIntroBot,
            820 => Queue::TwistedTreelineCoOpVsAiBeginnerBot,
            830 => Queue::SummonersRiftCoOpVsAiIntroBot,
            840 => Queue::SummonersRiftCoOpVsAiBeginnerBot,
            850 => Queue::SummonersRiftCoOpVsAiIntermediateBot,
            900 => Queue::SummonersRiftArurf,
            910 => Queue::CrystalScarAscension,
            920 => Queue::HowlingAbyssLegendOfThePoroKing,
            940 => Queue::SummonersRiftNexusSiege,
            950 => Queue::SummonersRiftDoomBotsVoting,
            960 => Queue::SummonersRiftDoomBotsStandard,
            980 => Queue::ValoranCityParkStarGuardianInvasionNormal,
            990 => Queue::ValoranCityParkStarGuardianInvasionOnslaught,
            1000 => Queue::OverchargeProjectHunters,
            1010 => Queue::SummonersRiftSnowArurf,
            1020 => Queue::SummonersRiftOneForAll,
            1030 => Queue::CrashSiteOdysseyExtractionIntro,
            1040 => Queue::CrashSiteOdysseyExtractionCadet,
            1050 => Queue::CrashSiteOdysseyExtractionCrewmember,
            1060 => Queue::CrashSiteOdysseyExtractionCaptain,
            1070 => Queue::CrashSiteOdysseyExtractionOnslaught,
            1090 => Queue::ConvergenceTeamfightTactics,
            1091 => Queue::ConvergenceTeamfightTactics1v0,
            1092 => Queue::ConvergenceTeamfightTactics2v0,
            1100 => Queue::ConvergenceRankedTeamfightTactics,
            1110 => Queue::ConvergenceTeamfightTacticsTutorial,
            1111 => Queue::ConvergenceTeamfightTacticsSimulation,
            1130 => Queue::ConvergenceRankedTeamfightTacticsHyperRoll,
            1150 => Queue::ConvergenceRankedTeamfightTacticsDoubleUpWorkshopDeprecated1150,
            1160 => Queue::ConvergenceRankedTeamfightTacticsDoubleUpWorkshop,
            1200 => Queue::NexusBlitzDeprecated1200,
            1210 => Queue::ConvergenceTeamfightTacticsChonccsTreasure,
            1300 => Queue::NexusBlitz,
            1400 => Queue::SummonersRiftUltimateSpellbook,
            1700 => Queue::Arena2v2v2v2Cherry,
            1710 => Queue::RingsOfWrathArenaCherryGames,
            1810 => Queue::SwarmSoloStrawberryGames,
            1820 => Queue::SwarmDuoStrawberryGames,
            1830 => Queue::SwarmTrioStrawberryGames,
            1840 => Queue::SwarmQuadStrawberryGames,
            1900 => Queue::SummonersRiftPickUrf,
            2000 => Queue::SummonersRiftTutorial1,
            2010 => Queue::SummonersRiftTutorial2,
            2020 => Queue::SummonersRiftTutorial3,
            6000 => Queue::ConvergenceTeamfightTacticsSet35Revival,
            _ => Queue::Custom,
        }
    }
}

impl From<u16> for Queue {
    fn from(value: u16) -> (res: Queue) {
        Queue::from_u16(value)
    }
}

impl vstd::std_specs::convert::FromSpecImpl<u16> for Queue {
    open spec fn obeys_from_spec() -> bool {
        true
    }

    open spec fn from_spec(v: u16) -> Queue {
        queue_from_id(v)
    }
}

/// Every queue is found again from its queue id.
pub proof fn law_queue_id_roundtrip(q: Queue)
    ensures
        queue_from_id(queue_id(q)) == q,
{
}

/// An id that names a queue is that queue's id; any other id reads as `Custom`.
pub proof fn law_queue_from_id(v: u16)
    ensures
        queue_id(queue_from_id(v)) == v || queue_from_id(v) == Queue::Custom,
{
}

/// The display names by queue id: each of the queues that the site lists has its own name, and
/// every other id reads "Unknown".
pub proof fn law_queue_names_by_id(v: u16)
    ensures
        queue_name(queue_from_id(v)) == ({
        if v == 400 {
            "Normal Draft Pick"@
        } else if v == 420 {
            "Ranked Solo/Duo"@
        } else if v == 430 {
            "Normal Blind Pick"@
        } else if v == 440 {
            "Ranked Flex"@
        } else if v == 450 {
            "ARAM"@
        } else if v == 490 {
            "Normal Quickplay"@
        } else if v == 700 {
            "Clash"@
        } else if v == 900 {
            "ARURF"@
        } else if v == 940 {
            "Nexus Siege"@
        } else if v == 1020 {
            "One for All"@
        } else if v == 1300 {
            "Nexus Blitz"@
        } else if v == 1400 {
            "Ultimate Spellbook"@
        } else if v == 1700 {
            "2v2v2v2 Cherry"@
        } else if v == 1900 {
            "Pick URF"@
        } else {
            "Unknown"@
        }
        }),
{
}

spec fn queue_with_name(s: Seq<char>) -> Queue {
    if s == "Normal Draft Pick"@ {
        Queue::SummonersRift5v5DraftPick
    } else if s == "Normal Blind Pick"@ {
        Queue::SummonersRift5v5BlindPick
    } else if s == "Ranked Solo/Duo"@ {
        Queue::SummonersRift5v5RankedSolo
    } else if s == "Ranked Flex"@ {
        Queue::SummonersRift5v5RankedFlex
    } else if s == "ARAM"@ {
        Queue::HowlingAbyss5v5Aram
    } else if s == "ARURF"@ {
        Queue::SummonersRiftArurf
    } else if s == "One for All"@ {
        Queue::SummonersRiftOneForAll
    } else if s == "2v2v2v2 Cherry"@ {
        Queue::Arena2v2v2v2Cherry
    } else if s == "Pick URF"@ {
        Queue::SummonersRiftPickUrf
    } else if s == "Ultimate Spellbook"@ {
        Queue::SummonersRiftUltimateSpellbook
    } else if s == "Nexus Siege"@ {
        Queue::SummonersRiftNexusSiege
    } else if s == "Clash"@ {
        Queue::SummonersRiftClash
    } else if s == "Normal Quickplay"@ {
        Queue::SummonersRiftNormalQuickplay
    } else if s == "Nexus Blitz"@ {
        Queue::NexusBlitz
    } else {
        Queue::Custom
    }
}

proof fn lemma_queue_with_name(q: Queue)
    requires
        queue_name(q) != "Unknown"@,
    ensures
        queue_with_name(queue_name(q)) == q,
{
    reveal_strlit("Normal Draft Pick");
    reveal_strlit("Normal Blind Pick");
    reveal_strlit("Ranked Solo/Duo");
    reveal_strlit("Ranked Flex");
    reveal_strlit("ARAM");
    reveal_strlit("ARURF");
    reveal_strlit("One for All");
    reveal_strlit("2v2v2v2 Cherry");
    reveal_strlit("Pick URF");
    reveal_strlit("Ultimate Spellbook");
    reveal_strlit("Nexus Siege");
    reveal_strlit("Clash");
    reveal_strlit("Normal Quickplay");
    reveal_strlit("Nexus Blitz");
    reveal_strlit("Unknown");
    assert("Normal Draft Pick"@.len() == 17);
    assert("Normal Blind Pick"@.len() == 17);
    assert("Ranked Solo/Duo"@.len() == 15);
    assert("Ranked Flex"@.len() == 11);
    assert("ARAM"@.len() == 4);
    assert("ARURF"@.len() == 5);
    assert("One for All"@.len() == 11);
    assert("2v2v2v2 Cherry"@.len() == 14);
    assert("Pick URF"@.len() == 8);
    assert("Ultimate Spellbook"@.len() == 18);
    assert("Nexus Siege"@.len() == 11);
    assert("Clash"@.len() == 5);
    assert("Normal Quickplay"@.len() == 16);
    assert("Nexus Blitz"@.len() == 11);
    match q {
        Queue::SummonersRift5v5DraftPick => {
            assert(queue_with_name("Normal Draft Pick"@) == q);
        },
        Queue::SummonersRift5v5BlindPick => {
            assert("Normal Blind Pick"@[7] != "Normal Draft Pick"@[7]);
            assert(queue_with_name("Normal Blind Pick"@) == q);
        },
        Queue::SummonersRift5v5RankedSolo => {
            assert(queue_with_name("Ranked Solo/Duo"@) == q);
        },
        Queue::SummonersRift5v5RankedFlex => {
            assert(queue_with_name("Ranked Flex"@) == q);
        },
        Queue::HowlingAbyss5v5Aram => {
            assert(queue_with_name("ARAM"@) == q);
        },
        Queue::SummonersRiftArurf => {
            assert(queue_with_name("ARURF"@) == q);
        },
        Queue::SummonersRiftOneForAll => {
            assert("One for All"@[0] != "Ranked Flex"@[0]);
            assert(queue_with_name("One for All"@) == q);
        },
        Queue::Arena2v2v2v2Cherry => {
            assert(queue_with_name("2v2v2v2 Cherry"@) == q);
        },
        Queue::SummonersRiftPickUrf => {
            assert(queue_with_name("Pick URF"@) == q);
        },
        Queue::SummonersRiftUltimateSpellbook => {
            assert(queue_with_name("Ultimate Spellbook"@) == q);
        },
        Queue::SummonersRiftNexusSiege => {
            assert("Nexus Siege"@[0] != "Ranked Flex"@[0]);
            assert("Nexus Siege"@[0] != "One for All"@[0]);
            assert(queue_with_name("Nexus Siege"@) == q);
        },
        Queue::SummonersRiftClash => {
            assert("Clash"@[0] != "ARURF"@[0]);
            assert(queue_with_name("Clash"@) == q);
        },
        Queue::SummonersRiftNormalQuickplay => {
            assert(queue_with_name("Normal Quickplay"@) == q);
        },
        Queue::NexusBlitz => {
            assert("Nexus Blitz"@[0] != "Ranked Flex"@[0]);
            assert("Nexus Blitz"@[0] != "One for All"@[0]);
            assert("Nexus Blitz"@[6] != "Nexus Siege"@[6]);
            assert(queue_with_name("Nexus Blitz"@) == q);
        },
        _ => {
            assert(queue_name(q) == "Unknown"@);
        },
    }
}

/// Two queues with the same display name, other than "Unknown", are the same queue.
pub proof fn law_queue_names_distinct(a: Queue, b: Queue)
    ensures
        queue_name(a) == queue_name(b) && queue_name(a) != "Unknown"@ ==> a == b,
{
    if queue_name(a) == queue_name(b) && queue_name(a) != "Unknown"@ {
        lemma_queue_with_name(a);
        lemma_queue_with_name(b);
    }
}

} // verus!
