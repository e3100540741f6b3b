//! The default probabilities of the mode and side-information symbols and of
//! the key frame luma modes, from which each frame's adaptive probabilities
//! start. They are held as cumulative probabilities (out of 32768) and
//! converted to the stored CDF form when a context is built.
use vstd::prelude::*;
use crate::cdf::{CdfModeContext, stored_cdf0d, stored_cdf1d, stored_cdf2d, is_cdf0d, is_cdf1d, is_cdf2d};

verus! {
pub const MODE_Y_MODE_PROBS: [[u16; 12]; 4] = [
    [22801, 23489, 24293, 24756, 25601, 26123, 26606, 27418, 27945, 29228, 29685, 30349],
    [18673, 19845, 22631, 23318, 23950, 24649, 25527, 27364, 28152, 29701, 29984, 30852],
    [19770, 20979, 23396, 23939, 24241, 24654, 25136, 27073, 27830, 29360, 29730, 30659],
    [20155, 21301, 22838, 23178, 23261, 23533, 23703, 24804, 25352, 26575, 27016, 28049],
];

pub const MODE_UV_MODE_PROBS_0: [[u16; 12]; 13] = [
    [22631, 24152, 25378, 25661, 25986, 26520, 27055, 27923, 28244, 30059, 30941, 31961],
    [9513, 26881, 26973, 27046, 27118, 27664, 27739, 27824, 28359, 29505, 29800, 31796],
    [9845, 9915, 28663, 28704, 28757, 28780, 29198, 29822, 29854, 30764, 31777, 32029],
    [13639, 13897, 14171, 25331, 25606, 25727, 25953, 27148, 28577, 30612, 31355, 32493],
    [9764, 9835, 9930, 9954, 25386, 27053, 27958, 28148, 28243, 31101, 31744, 32363],
    [11825, 13589, 13677, 13720, 15048, 29213, 29301, 29458, 29711, 31161, 31441, 32550],
    [14175, 14399, 16608, 16821, 17718, 17775, 28551, 30200, 30245, 31837, 32342, 32667],
    [12885, 13038, 14978, 15590, 15673, 15748, 16176, 29128, 29267, 30643, 31961, 32461],
    [12026, 13661, 13874, 15305, 15490, 15726, 15995, 16273, 28443, 30388, 30767, 32416],
    [19052, 19840, 20579, 20916, 21150, 21467, 21885, 22719, 23174, 28861, 30379, 32175],
    [18627, 19649, 20974, 21219, 21492, 21816, 22199, 23119, 23527, 27053, 31397, 32148],
    [17026, 19004, 19997, 20339, 20586, 21103, 21349, 21907, 22482, 25896, 26541, 31819],
    [12124, 13759, 14959, 14992, 15007, 15051, 15078, 15166, 15255, 15753, 16039, 16606],
];

pub const MODE_UV_MODE_PROBS_1: [[u16; 13]; 13] = [
    [10407, 11208, 12900, 13181, 13823, 14175, 14899, 15656, 15986, 20086, 20995, 22455, 24212],
    [4532, 19780, 20057, 20215, 20428, 21071, 21199, 21451, 22099, 24228, 24693, 27032, 29472],
    [5273, 5379, 20177, 20270, 20385, 20439, 20949, 21695, 21774, 23138, 24256, 24703, 26679],
    [6740, 7167, 7662, 14152, 14536, 14785, 15034, 16741, 18371, 21520, 22206, 23389, 24182],
    [4987, 5368, 5928, 6068, 19114, 20315, 21857, 22253, 22411, 24911, 25380, 26027, 26376],
    [5370, 6889, 7247, 7393, 9498, 21114, 21402, 21753, 21981, 24780, 25386, 26517, 27176],
    [4816, 4961, 7204, 7326, 8765, 8930, 20169, 20682, 20803, 23188, 23763, 24455, 24940],
    [6608, 6740, 8529, 9049, 9257, 9356, 9735, 18827, 19059, 22336, 23204, 23964, 24793],
    [5998, 7419, 7781, 8933, 9255, 9549, 9753, 10417, 18898, 22494, 23139, 24764, 25989],
    [10660, 11298, 12550, 12957, 13322, 13624, 14040, 15004, 15534, 20714, 21789, 23443, 24861],
    [10522, 11530, 12552, 12963, 13378, 13779, 14245, 15235, 15902, 20102, 22696, 23774, 25838],
    [10099, 10691, 12639, 13049, 13386, 13665, 14125, 15163, 15636, 19676, 20474, 23519, 25208],
    [3144, 5087, 7382, 7504, 7593, 7690, 7801, 8064, 8232, 9248, 9875, 10521, 29048],
];

pub const MODE_WEDGE_IDX_PROBS: [[u16; 15]; 9] = [
    [
        2438, 4440, 6599, 8663, 11005, 12874, 15751, 18094, 20359, 22362, 24127, 25702, 27752,
        29450, 31171,
    ],
    [
        806, 3266, 6005, 6738, 7218, 7367, 7771, 14588, 16323, 17367, 18452, 19422, 22839, 26127,
        29629,
    ],
    [
        2779, 3738, 4683, 7213, 7775, 8017, 8655, 14357, 17939, 21332, 24520, 27470, 29456, 30529,
        31656,
    ],
    [
        1684, 3625, 5675, 7108, 9302, 11274, 14429, 17144, 19163, 20961, 22884, 24471, 26719,
        28714, 30877,
    ],
    [
        1142, 3491, 6277, 7314, 8089, 8355, 9023, 13624, 15369, 16730, 18114, 19313, 22521, 26012,
        29550,
    ],
    [
        2742, 4195, 5727, 8035, 8980, 9336, 10146, 14124, 17270, 20533, 23434, 25972, 27944, 29570,
        31416,
    ],
    [
        1727, 3948, 6101, 7796, 9841, 12344, 15766, 18944, 20638, 22038, 23963, 25311, 26988,
        28766, 31012,
    ],
    [
        154, 987, 1925, 2051, 2088, 2111, 2151, 23033, 23703, 24284, 24985, 25684, 27259, 28883,
        30911,
    ],
    [
        1135, 1322, 1493, 2635, 2696, 2737, 2770, 21016, 22935, 25057, 27251, 29173, 30089, 30960,
        31933,
    ],
];

pub const MODE_PARTITION_PROBS_0: [[u16; 7]; 4] = [
    [27899, 28219, 28529, 32484, 32539, 32619, 32639],
    [6607, 6990, 8268, 32060, 32219, 32338, 32371],
    [5429, 6676, 7122, 32027, 32227, 32531, 32582],
    [711, 966, 1172, 32448, 32538, 32617, 32664],
];

pub const MODE_PARTITION_PROBS_1: [[u16; 9]; 4] = [
    [20137, 21547, 23078, 29566, 29837, 30261, 30524, 30892, 31724],
    [6732, 7490, 9497, 27944, 28250, 28515, 28969, 29630, 30104],
    [5945, 7663, 8348, 28683, 29117, 29749, 30064, 30298, 32238],
    [870, 1212, 1487, 31198, 31394, 31574, 31743, 31881, 32332],
];

pub const MODE_PARTITION_PROBS_2: [[u16; 9]; 4] = [
    [18462, 20920, 23124, 27647, 28227, 29049, 29519, 30178, 31544],
    [7689, 9060, 12056, 24992, 25660, 26182, 26951, 28041, 29052],
    [6015, 9009, 10062, 24544, 25409, 26545, 27071, 27526, 32047],
    [1394, 2208, 2796, 28614, 29061, 29466, 29840, 30185, 31899],
];

pub const MODE_PARTITION_PROBS_3: [[u16; 9]; 4] = [
    [15597, 20929, 24571, 26706, 27664, 28821, 29601, 30571, 31902],
    [7925, 11043, 16785, 22470, 23971, 25043, 26651, 28701, 29834],
    [5414, 13269, 15111, 20488, 22360, 24500, 25537, 26336, 32117],
    [2662, 6362, 8614, 20860, 23053, 24778, 26436, 27829, 31171],
];

pub const MODE_PARTITION_PROBS_4: [[u16; 3]; 4] = [
    [19132, 25510, 30392],
    [13928, 19855, 28540],
    [12522, 23679, 28629],
    [9896, 18783, 25853],
];

pub const MODE_CFL_ALPHA_PROBS: [[u16; 15]; 6] = [
    [
        7637, 20719, 31401, 32481, 32657, 32688, 32692, 32696, 32700, 32704, 32708, 32712, 32716,
        32720, 32724,
    ],
    [
        14365, 23603, 28135, 31168, 32167, 32395, 32487, 32573, 32620, 32647, 32668, 32672, 32676,
        32680, 32684,
    ],
    [
        11532, 22380, 28445, 31360, 32349, 32523, 32584, 32649, 32673, 32677, 32681, 32685, 32689,
        32693, 32697,
    ],
    [
        26990, 31402, 32282, 32571, 32692, 32696, 32700, 32704, 32708, 32712, 32716, 32720, 32724,
        32728, 32732,
    ],
    [
        17248, 26058, 28904, 30608, 31305, 31877, 32126, 32321, 32394, 32464, 32516, 32560, 32576,
        32593, 32622,
    ],
    [
        14738, 21678, 25779, 27901, 29024, 30302, 30980, 31843, 32144, 32413, 32520, 32594, 32622,
        32656, 32660,
    ],
];

pub const MODE_TXTP_INTER1_PROBS: [[u16; 15]; 2] = [
    [
        4458, 5560, 7695, 9709, 13330, 14789, 17537, 20266, 21504, 22848, 23934, 25474, 27727,
        28915, 30631,
    ],
    [
        1645, 2573, 4778, 5711, 7807, 8622, 10522, 15357, 17674, 20408, 22517, 25010, 27116, 28856,
        30749,
    ],
];

pub const MODE_TXTP_INTER2_PROBS: [u16; 11] = [770, 2421, 5225, 12907, 15819, 18927, 21561, 24089, 26595, 28526, 30529];

pub const MODE_TXTP_INTRA1_PROBS: [[[u16; 6]; 13]; 2] = [
    [
        [1535, 8035, 9461, 12751, 23467, 27825],
        [564, 3335, 9709, 10870, 18143, 28094],
        [672, 3247, 3676, 11982, 19415, 23127],
        [5279, 13885, 15487, 18044, 23527, 30252],
        [4423, 6074, 7985, 10416, 25693, 29298],
        [1486, 4241, 9460, 10662, 16456, 27694],
        [439, 2838, 3522, 6737, 18058, 23754],
        [1190, 4233, 4855, 11670, 20281, 24377],
        [1045, 4312, 8647, 10159, 18644, 29335],
        [202, 3734, 4747, 7298, 17127, 24016],
        [447, 4312, 6819, 8884, 16010, 23858],
        [277, 4369, 5255, 8905, 16465, 22271],
        [3409, 5436, 10599, 15599, 19687, 24040],
    ],
    [
        [1870, 13742, 14530, 16498, 23770, 27698],
        [326, 8796, 14632, 15079, 19272, 27486],
        [484, 7576, 7712, 14443, 19159, 22591],
        [1126, 15340, 15895, 17023, 20896, 30279],
        [655, 4854, 5249, 5913, 22099, 27138],
        [1299, 6458, 8885, 9290, 14851, 25497],
        [311, 5295, 5552, 6885, 16107, 22672],
        [883, 8059, 8270, 11258, 17289, 21549],
        [741, 7580, 9318, 10345, 16688, 29046],
        [110, 7406, 7915, 9195, 16041, 23329],
        [363, 7974, 9357, 10673, 15629, 24474],
        [153, 7647, 8112, 9936, 15307, 19996],
        [3511, 6332, 11165, 15335, 19323, 23594],
    ],
];

pub const MODE_TXTP_INTRA2_PROBS: [[[u16; 4]; 13]; 3] = [
    [
        [6554, 13107, 19661, 26214],
        [6554, 13107, 19661, 26214],
        [6554, 13107, 19661, 26214],
        [6554, 13107, 19661, 26214],
        [6554, 13107, 19661, 26214],
        [6554, 13107, 19661, 26214],
        [6554, 13107, 19661, 26214],
        [6554, 13107, 19661, 26214],
        [6554, 13107, 19661, 26214],
        [6554, 13107, 19661, 26214],
        [6554, 13107, 19661, 26214],
        [6554, 13107, 19661, 26214],
        [6554, 13107, 19661, 26214],
    ],
    [
        [6554, 13107, 19661, 26214],
        [6554, 13107, 19661, 26214],
        [6554, 13107, 19661, 26214],
        [6554, 13107, 19661, 26214],
        [6554, 13107, 19661, 26214],
        [6554, 13107, 19661, 26214],
        [6554, 13107, 19661, 26214],
        [6554, 13107, 19661, 26214],
        [6554, 13107, 19661, 26214],
        [6554, 13107, 19661, 26214],
        [6554, 13107, 19661, 26214],
        [6554, 13107, 19661, 26214],
        [6554, 13107, 19661, 26214],
    ],
    [
        [1127, 12814, 22772, 27483],
        [145, 6761, 11980, 26667],
        [362, 5887, 11678, 16725],
        [385, 15213, 18587, 30693],
        [25, 2914, 23134, 27903],
        [60, 4470, 11749, 23991],
        [37, 3332, 14511, 21448],
        [157, 6320, 13036, 17439],
        [119, 6719, 12906, 29396],
        [47, 5537, 12576, 21499],
        [269, 6076, 11258, 23115],
        [83, 5615, 12001, 17228],
        [1968, 5556, 12023, 18547],
    ],
];

pub const MODE_CFL_SIGN_PROBS: [u16; 7] = [1418, 2123, 13340, 18405, 26972, 28343, 32294];

pub const MODE_ANGLE_DELTA_PROBS: [[u16; 6]; 8] = [
    [2180, 5032, 7567, 22776, 26989, 30217],
    [2301, 5608, 8801, 23487, 26974, 30330],
    [3780, 11018, 13699, 19354, 23083, 31286],
    [4581, 11226, 15147, 17138, 21834, 28397],
    [1737, 10927, 14509, 19588, 22745, 28823],
    [2664, 10176, 12485, 17650, 21600, 30495],
    [2240, 11096, 15453, 20341, 22561, 28917],
    [3605, 10428, 12459, 17676, 21244, 30655],
];

pub const MODE_FILTER_INTRA_PROBS: [u16; 4] = [8949, 12776, 17211, 29558];

pub const MODE_COMP_INTER_MODE_PROBS: [[u16; 7]; 8] = [
    [7760, 13823, 15808, 17641, 19156, 20666, 26891],
    [10730, 19452, 21145, 22749, 24039, 25131, 28724],
    [10664, 20221, 21588, 22906, 24295, 25387, 28436],
    [13298, 16984, 20471, 24182, 25067, 25736, 26422],
    [18904, 23325, 25242, 27432, 27898, 28258, 30758],
    [10725, 17454, 20124, 22820, 24195, 25168, 26046],
    [17125, 24273, 25814, 27492, 28214, 28704, 30592],
    [13046, 23214, 24505, 25942, 27435, 28442, 29330],
];

pub const MODE_SEG_ID_PROBS: [[u16; 7]; 3] = [
    [5622, 7893, 16093, 18233, 27809, 28373, 32533],
    [14274, 18230, 22557, 24935, 29980, 30851, 32344],
    [27527, 28487, 28723, 28890, 32397, 32647, 32679],
];

pub const MODE_PAL_SZ_PROBS: [[[u16; 6]; 7]; 2] = [
    [
        [7952, 13000, 18149, 21478, 25527, 29241],
        [7139, 11421, 16195, 19544, 23666, 28073],
        [7788, 12741, 17325, 20500, 24315, 28530],
        [8271, 14064, 18246, 21564, 25071, 28533],
        [12725, 19180, 21863, 24839, 27535, 30120],
        [9711, 14888, 16923, 21052, 25661, 27875],
        [14940, 20797, 21678, 24186, 27033, 28999],
    ],
    [
        [8713, 19979, 27128, 29609, 31331, 32272],
        [5839, 15573, 23581, 26947, 29848, 31700],
        [4426, 11260, 17999, 21483, 25863, 29430],
        [3228, 9464, 14993, 18089, 22523, 27420],
        [3768, 8886, 13091, 17852, 22495, 27207],
        [2464, 8451, 12861, 21632, 25525, 28555],
        [1269, 5435, 10433, 18963, 21700, 25865],
    ],
];

pub const MODE_COLOR_MAP_PROBS_0_0: [[u16; 1]; 5] = [
    [28710],
    [16384],
    [10553],
    [27036],
    [31603],
];

pub const MODE_COLOR_MAP_PROBS_0_1: [[u16; 2]; 5] = [
    [27877, 30490],
    [11532, 25697],
    [6544, 30234],
    [23018, 28072],
    [31915, 32385],
];

pub const MODE_COLOR_MAP_PROBS_0_2: [[u16; 3]; 5] = [
    [25572, 28046, 30045],
    [9478, 21590, 27256],
    [7248, 26837, 29824],
    [19167, 24486, 28349],
    [31400, 31825, 32250],
];

pub const MODE_COLOR_MAP_PROBS_0_3: [[u16; 4]; 5] = [
    [24779, 26955, 28576, 30282],
    [8669, 20364, 24073, 28093],
    [4255, 27565, 29377, 31067],
    [19864, 23674, 26716, 29530],
    [31646, 31893, 32147, 32426],
];

pub const MODE_COLOR_MAP_PROBS_0_4: [[u16; 5]; 5] = [
    [23132, 25407, 26970, 28435, 30073],
    [7443, 17242, 20717, 24762, 27982],
    [6300, 24862, 26944, 28784, 30671],
    [18916, 22895, 25267, 27435, 29652],
    [31270, 31550, 31808, 32059, 32353],
];

pub const MODE_COLOR_MAP_PROBS_0_5: [[u16; 6]; 5] = [
    [23105, 25199, 26464, 27684, 28931, 30318],
    [6950, 15447, 18952, 22681, 25567, 28563],
    [7560, 23474, 25490, 27203, 28921, 30708],
    [18544, 22373, 24457, 26195, 28119, 30045],
    [31198, 31451, 31670, 31882, 32123, 32391],
];

pub const MODE_COLOR_MAP_PROBS_0_6: [[u16; 7]; 5] = [
    [21689, 23883, 25163, 26352, 27506, 28827, 30195],
    [6892, 15385, 17840, 21606, 24287, 26753, 29204],
    [5651, 23182, 25042, 26518, 27982, 29392, 30900],
    [19349, 22578, 24418, 25994, 27524, 29031, 30448],
    [31028, 31270, 31504, 31705, 31927, 32153, 32392],
];

pub const MODE_COLOR_MAP_PROBS_1_0: [[u16; 1]; 5] = [
    [29089],
    [16384],
    [8713],
    [29257],
    [31610],
];

pub const MODE_COLOR_MAP_PROBS_1_1: [[u16; 2]; 5] = [
    [25257, 29145],
    [12287, 27293],
    [7033, 27960],
    [20145, 25405],
    [30608, 31639],
];

pub const MODE_COLOR_MAP_PROBS_1_2: [[u16; 3]; 5] = [
    [24210, 27175, 29903],
    [9888, 22386, 27214],
    [5901, 26053, 29293],
    [18318, 22152, 28333],
    [30459, 31136, 31926],
];

pub const MODE_COLOR_MAP_PROBS_1_3: [[u16; 4]; 5] = [
    [22980, 25479, 27781, 29986],
    [8413, 21408, 24859, 28874],
    [2257, 29449, 30594, 31598],
    [19189, 21202, 25915, 28620],
    [31844, 32044, 32281, 32518],
];

pub const MODE_COLOR_MAP_PROBS_1_4: [[u16; 5]; 5] = [
    [22217, 24567, 26637, 28683, 30548],
    [7307, 16406, 19636, 24632, 28424],
    [4441, 25064, 26879, 28942, 30919],
    [17210, 20528, 23319, 26750, 29582],
    [30674, 30953, 31396, 31735, 32207],
];

pub const MODE_COLOR_MAP_PROBS_1_5: [[u16; 6]; 5] = [
    [21239, 23168, 25044, 26962, 28705, 30506],
    [6545, 15012, 18004, 21817, 25503, 28701],
    [3448, 26295, 27437, 28704, 30126, 31442],
    [15889, 18323, 21704, 24698, 26976, 29690],
    [30988, 31204, 31479, 31734, 31983, 32325],
];

pub const MODE_COLOR_MAP_PROBS_1_6: [[u16; 7]; 5] = [
    [21442, 23288, 24758, 26246, 27649, 28980, 30563],
    [5863, 14933, 17552, 20668, 23683, 26411, 29273],
    [3415, 25810, 26877, 27990, 29223, 30394, 31618],
    [17965, 20084, 22232, 23974, 26274, 28402, 30390],
    [31190, 31329, 31516, 31679, 31825, 32026, 32322],
];

pub const MODE_FILTER_PROBS: [[[u16; 2]; 8]; 2] = [
    [
        [31935, 32720],
        [5568, 32719],
        [422, 2938],
        [28244, 32608],
        [31206, 31953],
        [4862, 32121],
        [770, 1152],
        [20889, 25637],
    ],
    [
        [31910, 32724],
        [4120, 32712],
        [305, 2247],
        [27403, 32636],
        [31022, 32009],
        [2963, 32093],
        [601, 943],
        [14969, 21398],
    ],
];

pub const MODE_TXSZ_PROBS: [[[u16; 2]; 3]; 4] = [
    [
        [19968, 0],
        [19968, 0],
        [24320, 0],
    ],
    [
        [12272, 30172],
        [12272, 30172],
        [18677, 30848],
    ],
    [
        [12986, 15180],
        [12986, 15180],
        [24302, 25602],
    ],
    [
        [5782, 11475],
        [5782, 11475],
        [16803, 22759],
    ],
];

pub const MODE_MOTION_MODE_PROBS: [[u16; 2]; 22] = [
    [32507, 32558],
    [30878, 31335],
    [28898, 30397],
    [29516, 30701],
    [21679, 26830],
    [29742, 31203],
    [20360, 28062],
    [26260, 29116],
    [11606, 24308],
    [26431, 30774],
    [28973, 31594],
    [5123, 23606],
    [19419, 26810],
    [5391, 25528],
    [0, 0],
    [28799, 31390],
    [4738, 24765],
    [7651, 24760],
    [0, 0],
    [0, 0],
    [0, 0],
    [0, 0],
];

pub const MODE_DELTA_Q_PROBS: [u16; 3] = [28160, 32120, 32677];

pub const MODE_DELTA_LF_PROBS: [[u16; 3]; 5] = [
    [28160, 32120, 32677],
    [28160, 32120, 32677],
    [28160, 32120, 32677],
    [28160, 32120, 32677],
    [28160, 32120, 32677],
];

pub const MODE_INTERINTRA_MODE_PROBS: [[u16; 3]; 4] = [
    [8192, 16384, 24576],
    [1875, 11082, 27332],
    [2473, 9996, 26388],
    [4238, 11537, 25926],
];

pub const MODE_RESTORE_SWITCHABLE_PROBS: [u16; 2] = [9413, 22581];

pub const MODE_RESTORE_WIENER_PROBS: [u16; 1] = [11570];

pub const MODE_RESTORE_SGRPROJ_PROBS: [u16; 1] = [16855];

pub const MODE_INTERINTRA_PROBS: [[u16; 1]; 7] = [
    [16384],
    [26887],
    [27597],
    [30237],
    [0],
    [0],
    [0],
];

pub const MODE_INTERINTRA_WEDGE_PROBS: [[u16; 1]; 7] = [
    [20036],
    [24957],
    [26704],
    [27530],
    [29564],
    [29444],
    [26872],
];

pub const MODE_TXTP_INTER3_PROBS: [[u16; 1]; 4] = [
    [16384],
    [4167],
    [1998],
    [748],
];

pub const MODE_USE_FILTER_INTRA_PROBS: [[u16; 1]; 22] = [
    [16384],
    [16384],
    [16384],
    [16384],
    [16384],
    [16384],
    [16384],
    [22343],
    [12756],
    [18101],
    [16384],
    [14301],
    [12408],
    [9394],
    [10368],
    [20229],
    [12551],
    [7866],
    [5893],
    [12770],
    [6743],
    [4621],
];

pub const MODE_NEWMV_MODE_PROBS: [[u16; 1]; 6] = [
    [24035],
    [16630],
    [15339],
    [8386],
    [12222],
    [4676],
];

pub const MODE_GLOBALMV_MODE_PROBS: [[u16; 1]; 2] = [
    [2175],
    [1054],
];

pub const MODE_REFMV_MODE_PROBS: [[u16; 1]; 6] = [
    [23974],
    [24188],
    [17848],
    [28622],
    [24312],
    [19923],
];

pub const MODE_DRL_BIT_PROBS: [[u16; 1]; 3] = [
    [13104],
    [24560],
    [18945],
];

pub const MODE_INTRA_PROBS: [[u16; 1]; 4] = [
    [806],
    [16662],
    [20186],
    [26538],
];

pub const MODE_COMP_PROBS: [[u16; 1]; 5] = [
    [26828],
    [24035],
    [12031],
    [10640],
    [2901],
];

pub const MODE_COMP_DIR_PROBS: [[u16; 1]; 5] = [
    [1198],
    [2070],
    [9166],
    [7499],
    [22475],
];

pub const MODE_JNT_COMP_PROBS: [[u16; 1]; 6] = [
    [18244],
    [12865],
    [7053],
    [13259],
    [9334],
    [4644],
];

pub const MODE_MASK_COMP_PROBS: [[u16; 1]; 6] = [
    [26607],
    [22891],
    [18840],
    [24594],
    [19934],
    [22674],
];

pub const MODE_WEDGE_COMP_PROBS: [[u16; 1]; 9] = [
    [23431],
    [13171],
    [11470],
    [9770],
    [9100],
    [8233],
    [6172],
    [11820],
    [7701],
];

pub const MODE_SINGLE_REF_PROBS: [[[u16; 1]; 3]; 6] = [
    [
        [4897],
        [16973],
        [29744],
    ],
    [
        [1555],
        [16751],
        [30279],
    ],
    [
        [4236],
        [19647],
        [31194],
    ],
    [
        [8650],
        [24773],
        [31895],
    ],
    [
        [904],
        [11014],
        [26875],
    ],
    [
        [1444],
        [15087],
        [30304],
    ],
];

pub const MODE_COMP_FWD_REF_PROBS: [[[u16; 1]; 3]; 3] = [
    [
        [4946],
        [19891],
        [30731],
    ],
    [
        [9468],
        [22441],
        [31059],
    ],
    [
        [1503],
        [15160],
        [27544],
    ],
];

pub const MODE_COMP_BWD_REF_PROBS: [[[u16; 1]; 3]; 2] = [
    [
        [2235],
        [17182],
        [30606],
    ],
    [
        [1423],
        [15175],
        [30489],
    ],
];

pub const MODE_COMP_UNI_REF_PROBS: [[[u16; 1]; 3]; 3] = [
    [
        [5284],
        [23152],
        [31774],
    ],
    [
        [3865],
        [14173],
        [25120],
    ],
    [
        [3128],
        [15270],
        [26710],
    ],
];

pub const MODE_TXPART_PROBS: [[[u16; 1]; 3]; 7] = [
    [
        [28581],
        [23846],
        [20847],
    ],
    [
        [24315],
        [18196],
        [12133],
    ],
    [
        [18791],
        [10887],
        [11005],
    ],
    [
        [27179],
        [20004],
        [11281],
    ],
    [
        [26549],
        [19308],
        [14224],
    ],
    [
        [28015],
        [21546],
        [14400],
    ],
    [
        [28165],
        [22401],
        [16088],
    ],
];

pub const MODE_SKIP_PROBS: [[u16; 1]; 3] = [
    [31671],
    [16515],
    [4576],
];

pub const MODE_SKIP_MODE_PROBS: [[u16; 1]; 3] = [
    [32621],
    [20708],
    [8127],
];

pub const MODE_SEG_PRED_PROBS: [[u16; 1]; 3] = [
    [16384],
    [16384],
    [16384],
];

pub const MODE_OBMC_PROBS: [[u16; 1]; 22] = [
    [32638],
    [31560],
    [31014],
    [30128],
    [22083],
    [26879],
    [22823],
    [25817],
    [15142],
    [20901],
    [24008],
    [14423],
    [17432],
    [9301],
    [0],
    [23664],
    [9371],
    [10437],
    [0],
    [0],
    [0],
    [0],
];

pub const MODE_PAL_Y_PROBS: [[[u16; 1]; 3]; 7] = [
    [
        [31676],
        [3419],
        [1261],
    ],
    [
        [31912],
        [2859],
        [980],
    ],
    [
        [31823],
        [3400],
        [781],
    ],
    [
        [32030],
        [3561],
        [904],
    ],
    [
        [32309],
        [7337],
        [1462],
    ],
    [
        [32265],
        [4015],
        [1521],
    ],
    [
        [32450],
        [7946],
        [129],
    ],
];

pub const MODE_PAL_UV_PROBS: [[u16; 1]; 2] = [
    [32461],
    [21488],
];

pub const MODE_INTRABC_PROBS: [u16; 1] = [30531];

pub const KF_Y_MODE_PROBS: [[[u16; 12]; 5]; 5] = [
    [
        [15588, 17027, 19338, 20218, 20682, 21110, 21825, 23244, 24189, 28165, 29093, 30466],
        [12016, 18066, 19516, 20303, 20719, 21444, 21888, 23032, 24434, 28658, 30172, 31409],
        [10052, 10771, 22296, 22788, 23055, 23239, 24133, 25620, 26160, 29336, 29929, 31567],
        [14091, 15406, 16442, 18808, 19136, 19546, 19998, 22096, 24746, 29585, 30958, 32462],
        [12122, 13265, 15603, 16501, 18609, 20033, 22391, 25583, 26437, 30261, 31073, 32475],
    ],
    [
        [10023, 19585, 20848, 21440, 21832, 22760, 23089, 24023, 25381, 29014, 30482, 31436],
        [5983, 24099, 24560, 24886, 25066, 25795, 25913, 26423, 27610, 29905, 31276, 31794],
        [7444, 12781, 20177, 20728, 21077, 21607, 22170, 23405, 24469, 27915, 29090, 30492],
        [8537, 14689, 15432, 17087, 17408, 18172, 18408, 19825, 24649, 29153, 31096, 32210],
        [7543, 14231, 15496, 16195, 17905, 20717, 21984, 24516, 26001, 29675, 30981, 31994],
    ],
    [
        [12613, 13591, 21383, 22004, 22312, 22577, 23401, 25055, 25729, 29538, 30305, 32077],
        [9687, 13470, 18506, 19230, 19604, 20147, 20695, 22062, 23219, 27743, 29211, 30907],
        [6183, 6505, 26024, 26252, 26366, 26434, 27082, 28354, 28555, 30467, 30794, 32086],
        [10718, 11734, 14954, 17224, 17565, 17924, 18561, 21523, 23878, 28975, 30287, 32252],
        [9194, 9858, 16501, 17263, 18424, 19171, 21563, 25961, 26561, 30072, 30737, 32463],
    ],
    [
        [12602, 14399, 15488, 18381, 18778, 19315, 19724, 21419, 25060, 29696, 30917, 32409],
        [8203, 13821, 14524, 17105, 17439, 18131, 18404, 19468, 25225, 29485, 31158, 32342],
        [8451, 9731, 15004, 17643, 18012, 18425, 19070, 21538, 24605, 29118, 30078, 32018],
        [7714, 9048, 9516, 16667, 16817, 16994, 17153, 18767, 26743, 30389, 31536, 32528],
        [8843, 10280, 11496, 15317, 16652, 17943, 19108, 22718, 25769, 29953, 30983, 32485],
    ],
    [
        [12578, 13671, 15979, 16834, 19075, 20913, 22989, 25449, 26219, 30214, 31150, 32477],
        [9563, 13626, 15080, 15892, 17756, 20863, 22207, 24236, 25380, 29653, 31143, 32277],
        [8356, 8901, 17616, 18256, 19350, 20106, 22598, 25947, 26466, 29900, 30523, 32261],
        [10835, 11815, 13124, 16042, 17018, 18039, 18947, 22753, 24615, 29489, 30883, 32482],
        [7618, 8288, 9859, 10509, 15386, 18657, 22903, 28776, 29180, 31355, 31802, 32593],
    ],
];

/// `m` holds the default mode and side-information probabilities.
pub closed spec fn is_default_mode_cdf(m: CdfModeContext) -> bool {
    &&& is_cdf1d(m.y_mode, MODE_Y_MODE_PROBS)
    &&& is_cdf1d(m.uv_mode[0], MODE_UV_MODE_PROBS_0)
    &&& is_cdf1d(m.uv_mode[1], MODE_UV_MODE_PROBS_1)
    &&& is_cdf1d(m.wedge_idx, MODE_WEDGE_IDX_PROBS)
    &&& is_cdf1d(m.partition[0], MODE_PARTITION_PROBS_0)
    &&& is_cdf1d(m.partition[1], MODE_PARTITION_PROBS_1)
    &&& is_cdf1d(m.partition[2], MODE_PARTITION_PROBS_2)
    &&& is_cdf1d(m.partition[3], MODE_PARTITION_PROBS_3)
    &&& is_cdf1d(m.partition[4], MODE_PARTITION_PROBS_4)
    &&& is_cdf1d(m.cfl_alpha, MODE_CFL_ALPHA_PROBS)
    &&& is_cdf1d(m.txtp_inter1, MODE_TXTP_INTER1_PROBS)
    &&& is_cdf0d(m.txtp_inter2, MODE_TXTP_INTER2_PROBS)
    &&& is_cdf2d(m.txtp_intra1, MODE_TXTP_INTRA1_PROBS)
    &&& is_cdf2d(m.txtp_intra2, MODE_TXTP_INTRA2_PROBS)
    &&& is_cdf0d(m.cfl_sign, MODE_CFL_SIGN_PROBS)
    &&& is_cdf1d(m.angle_delta, MODE_ANGLE_DELTA_PROBS)
    &&& is_cdf0d(m.filter_intra, MODE_FILTER_INTRA_PROBS)
    &&& is_cdf1d(m.comp_inter_mode, MODE_COMP_INTER_MODE_PROBS)
    &&& is_cdf1d(m.seg_id, MODE_SEG_ID_PROBS)
    &&& is_cdf2d(m.pal_sz, MODE_PAL_SZ_PROBS)
    &&& is_cdf1d(m.color_map[0][0], MODE_COLOR_MAP_PROBS_0_0)
    &&& is_cdf1d(m.color_map[0][1], MODE_COLOR_MAP_PROBS_0_1)
    &&& is_cdf1d(m.color_map[0][2], MODE_COLOR_MAP_PROBS_0_2)
    &&& is_cdf1d(m.color_map[0][3], MODE_COLOR_MAP_PROBS_0_3)
    &&& is_cdf1d(m.color_map[0][4], MODE_COLOR_MAP_PROBS_0_4)
    &&& is_cdf1d(m.color_map[0][5], MODE_COLOR_MAP_PROBS_0_5)
    &&& is_cdf1d(m.color_map[0][6], MODE_COLOR_MAP_PROBS_0_6)
    &&& is_cdf1d(m.color_map[1][0], MODE_COLOR_MAP_PROBS_1_0)
    &&& is_cdf1d(m.color_map[1][1], MODE_COLOR_MAP_PROBS_1_1)
    &&& is_cdf1d(m.color_map[1][2], MODE_COLOR_MAP_PROBS_1_2)
    &&& is_cdf1d(m.color_map[1][3], MODE_COLOR_MAP_PROBS_1_3)
    &&& is_cdf1d(m.color_map[1][4], MODE_COLOR_MAP_PROBS_1_4)
    &&& is_cdf1d(m.color_map[1][5], MODE_COLOR_MAP_PROBS_1_5)
    &&& is_cdf1d(m.color_map[1][6], MODE_COLOR_MAP_PROBS_1_6)
    &&& is_cdf2d(m.filter, MODE_FILTER_PROBS)
    &&& is_cdf2d(m.txsz, MODE_TXSZ_PROBS)
    &&& is_cdf1d(m.motion_mode, MODE_MOTION_MODE_PROBS)
    &&& is_cdf0d(m.delta_q, MODE_DELTA_Q_PROBS)
    &&& is_cdf1d(m.delta_lf, MODE_DELTA_LF_PROBS)
    &&& is_cdf1d(m.interintra_mode, MODE_INTERINTRA_MODE_PROBS)
    &&& is_cdf0d(m.restore_switchable, MODE_RESTORE_SWITCHABLE_PROBS)
    &&& is_cdf0d(m.restore_wiener, MODE_RESTORE_WIENER_PROBS)
    &&& is_cdf0d(m.restore_sgrproj, MODE_RESTORE_SGRPROJ_PROBS)
    &&& is_cdf1d(m.interintra, MODE_INTERINTRA_PROBS)
    &&& is_cdf1d(m.interintra_wedge, MODE_INTERINTRA_WEDGE_PROBS)
    &&& is_cdf1d(m.txtp_inter3, MODE_TXTP_INTER3_PROBS)
    &&& is_cdf1d(m.use_filter_intra, MODE_USE_FILTER_INTRA_PROBS)
    &&& is_cdf1d(m.newmv_mode, MODE_NEWMV_MODE_PROBS)
    &&& is_cdf1d(m.globalmv_mode, MODE_GLOBALMV_MODE_PROBS)
    &&& is_cdf1d(m.refmv_mode, MODE_REFMV_MODE_PROBS)
    &&& is_cdf1d(m.drl_bit, MODE_DRL_BIT_PROBS)
    &&& is_cdf1d(m.intra, MODE_INTRA_PROBS)
    &&& is_cdf1d(m.comp, MODE_COMP_PROBS)
    &&& is_cdf1d(m.comp_dir, MODE_COMP_DIR_PROBS)
    &&& is_cdf1d(m.jnt_comp, MODE_JNT_COMP_PROBS)
    &&& is_cdf1d(m.mask_comp, MODE_MASK_COMP_PROBS)
    &&& is_cdf1d(m.wedge_comp, MODE_WEDGE_COMP_PROBS)
    &&& is_cdf2d(m.single_ref, MODE_SINGLE_REF_PROBS)
    &&& is_cdf2d(m.comp_fwd_ref, MODE_COMP_FWD_REF_PROBS)
    &&& is_cdf2d(m.comp_bwd_ref, MODE_COMP_BWD_REF_PROBS)
    &&& is_cdf2d(m.comp_uni_ref, MODE_COMP_UNI_REF_PROBS)
    &&& is_cdf2d(m.txpart, MODE_TXPART_PROBS)
    &&& is_cdf1d(m.skip, MODE_SKIP_PROBS)
    &&& is_cdf1d(m.skip_mode, MODE_SKIP_MODE_PROBS)
    &&& is_cdf1d(m.seg_pred, MODE_SEG_PRED_PROBS)
    &&& is_cdf1d(m.obmc, MODE_OBMC_PROBS)
    &&& is_cdf2d(m.pal_y, MODE_PAL_Y_PROBS)
    &&& is_cdf1d(m.pal_uv, MODE_PAL_UV_PROBS)
    &&& is_cdf0d(m.intrabc, MODE_INTRABC_PROBS)
}

/// Unfolds `is_default_mode_cdf`: each table of `m` is the stored form of its
/// default probabilities.
pub proof fn lemma_default_mode_cdf(m: CdfModeContext)
    requires
        is_default_mode_cdf(m),
    ensures
        is_cdf1d(m.y_mode, MODE_Y_MODE_PROBS),
        is_cdf1d(m.uv_mode[0], MODE_UV_MODE_PROBS_0),
        is_cdf1d(m.uv_mode[1], MODE_UV_MODE_PROBS_1),
        is_cdf1d(m.wedge_idx, MODE_WEDGE_IDX_PROBS),
        is_cdf1d(m.partition[0], MODE_PARTITION_PROBS_0),
        is_cdf1d(m.partition[1], MODE_PARTITION_PROBS_1),
        is_cdf1d(m.partition[2], MODE_PARTITION_PROBS_2),
        is_cdf1d(m.partition[3], MODE_PARTITION_PROBS_3),
        is_cdf1d(m.partition[4], MODE_PARTITION_PROBS_4),
        is_cdf1d(m.cfl_alpha, MODE_CFL_ALPHA_PROBS),
        is_cdf1d(m.txtp_inter1, MODE_TXTP_INTER1_PROBS),
        is_cdf0d(m.txtp_inter2, MODE_TXTP_INTER2_PROBS),
        is_cdf2d(m.txtp_intra1, MODE_TXTP_INTRA1_PROBS),
        is_cdf2d(m.txtp_intra2, MODE_TXTP_INTRA2_PROBS),
        is_cdf0d(m.cfl_sign, MODE_CFL_SIGN_PROBS),
        is_cdf1d(m.angle_delta, MODE_ANGLE_DELTA_PROBS),
        is_cdf0d(m.filter_intra, MODE_FILTER_INTRA_PROBS),
        is_cdf1d(m.comp_inter_mode, MODE_COMP_INTER_MODE_PROBS),
        is_cdf1d(m.seg_id, MODE_SEG_ID_PROBS),
        is_cdf2d(m.pal_sz, MODE_PAL_SZ_PROBS),
        is_cdf1d(m.color_map[0][0], MODE_COLOR_MAP_PROBS_0_0),
        is_cdf1d(m.color_map[0][1], MODE_COLOR_MAP_PROBS_0_1),
        is_cdf1d(m.color_map[0][2], MODE_COLOR_MAP_PROBS_0_2),
        is_cdf1d(m.color_map[0][3], MODE_COLOR_MAP_PROBS_0_3),
        is_cdf1d(m.color_map[0][4], MODE_COLOR_MAP_PROBS_0_4),
        is_cdf1d(m.color_map[0][5], MODE_COLOR_MAP_PROBS_0_5),
        is_cdf1d(m.color_map[0][6], MODE_COLOR_MAP_PROBS_0_6),
        is_cdf1d(m.color_map[1][0], MODE_COLOR_MAP_PROBS_1_0),
        is_cdf1d(m.color_map[1][1], MODE_COLOR_MAP_PROBS_1_1),
        is_cdf1d(m.color_map[1][2], MODE_COLOR_MAP_PROBS_1_2),
        is_cdf1d(m.color_map[1][3], MODE_COLOR_MAP_PROBS_1_3),
        is_cdf1d(m.color_map[1][4], MODE_COLOR_MAP_PROBS_1_4),
        is_cdf1d(m.color_map[1][5], MODE_COLOR_MAP_PROBS_1_5),
        is_cdf1d(m.color_map[1][6], MODE_COLOR_MAP_PROBS_1_6),
        is_cdf2d(m.filter, MODE_FILTER_PROBS),
        is_cdf2d(m.txsz, MODE_TXSZ_PROBS),
        is_cdf1d(m.motion_mode, MODE_MOTION_MODE_PROBS),
        is_cdf0d(m.delta_q, MODE_DELTA_Q_PROBS),
        is_cdf1d(m.delta_lf, MODE_DELTA_LF_PROBS),
        is_cdf1d(m.interintra_mode, MODE_INTERINTRA_MODE_PROBS),
        is_cdf0d(m.restore_switchable, MODE_RESTORE_SWITCHABLE_PROBS),
        is_cdf0d(m.restore_wiener, MODE_RESTORE_WIENER_PROBS),
        is_cdf0d(m.restore_sgrproj, MODE_RESTORE_SGRPROJ_PROBS),
        is_cdf1d(m.interintra, MODE_INTERINTRA_PROBS),
        is_cdf1d(m.interintra_wedge, MODE_INTERINTRA_WEDGE_PROBS),
        is_cdf1d(m.txtp_inter3, MODE_TXTP_INTER3_PROBS),
        is_cdf1d(m.use_filter_intra, MODE_USE_FILTER_INTRA_PROBS),
        is_cdf1d(m.newmv_mode, MODE_NEWMV_MODE_PROBS),
        is_cdf1d(m.globalmv_mode, MODE_GLOBALMV_MODE_PROBS),
        is_cdf1d(m.refmv_mode, MODE_REFMV_MODE_PROBS),
        is_cdf1d(m.drl_bit, MODE_DRL_BIT_PROBS),
        is_cdf1d(m.intra, MODE_INTRA_PROBS),
        is_cdf1d(m.comp, MODE_COMP_PROBS),
        is_cdf1d(m.comp_dir, MODE_COMP_DIR_PROBS),
        is_cdf1d(m.jnt_comp, MODE_JNT_COMP_PROBS),
        is_cdf1d(m.mask_comp, MODE_MASK_COMP_PROBS),
        is_cdf1d(m.wedge_comp, MODE_WEDGE_COMP_PROBS),
        is_cdf2d(m.single_ref, MODE_SINGLE_REF_PROBS),
        is_cdf2d(m.comp_fwd_ref, MODE_COMP_FWD_REF_PROBS),
        is_cdf2d(m.comp_bwd_ref, MODE_COMP_BWD_REF_PROBS),
        is_cdf2d(m.comp_uni_ref, MODE_COMP_UNI_REF_PROBS),
        is_cdf2d(m.txpart, MODE_TXPART_PROBS),
        is_cdf1d(m.skip, MODE_SKIP_PROBS),
        is_cdf1d(m.skip_mode, MODE_SKIP_MODE_PROBS),
        is_cdf1d(m.seg_pred, MODE_SEG_PRED_PROBS),
        is_cdf1d(m.obmc, MODE_OBMC_PROBS),
        is_cdf2d(m.pal_y, MODE_PAL_Y_PROBS),
        is_cdf1d(m.pal_uv, MODE_PAL_UV_PROBS),
        is_cdf0d(m.intrabc, MODE_INTRABC_PROBS),
{
}

/// The stored default values of some one-symbol tables.
pub proof fn lemma_default_mode_cdf_values(m: CdfModeContext)
    requires
        is_default_mode_cdf(m),
    ensures
        m.intrabc == [2237u16, 0u16],
        m.skip == [[1097u16, 0u16], [16253u16, 0u16], [28192u16, 0u16]],
        m.restore_wiener == [21198u16, 0u16],
        m.restore_sgrproj == [15913u16, 0u16],
        m.pal_uv == [[307u16, 0u16], [11280u16, 0u16]],
{
    assert(m.intrabc =~= [2237u16, 0u16]);
    assert(m.skip[0] =~= [1097u16, 0u16]);
    assert(m.skip[1] =~= [16253u16, 0u16]);
    assert(m.skip[2] =~= [28192u16, 0u16]);
    assert(m.skip =~= [[1097u16, 0u16], [16253u16, 0u16], [28192u16, 0u16]]);
    assert(m.restore_wiener =~= [21198u16, 0u16]);
    assert(m.restore_sgrproj =~= [15913u16, 0u16]);
    assert(m.pal_uv[0] =~= [307u16, 0u16]);
    assert(m.pal_uv[1] =~= [11280u16, 0u16]);
    assert(m.pal_uv =~= [[307u16, 0u16], [11280u16, 0u16]]);
}

/// The default mode and side-information probabilities.
pub fn av1_default_cdf() -> (m: CdfModeContext)
    ensures
        is_default_mode_cdf(m),
{
    CdfModeContext {
        y_mode: stored_cdf1d(MODE_Y_MODE_PROBS),
        uv_mode: [stored_cdf1d(MODE_UV_MODE_PROBS_0), stored_cdf1d(MODE_UV_MODE_PROBS_1)],
        wedge_idx: stored_cdf1d(MODE_WEDGE_IDX_PROBS),
        partition: [stored_cdf1d(MODE_PARTITION_PROBS_0), stored_cdf1d(MODE_PARTITION_PROBS_1), stored_cdf1d(MODE_PARTITION_PROBS_2), stored_cdf1d(MODE_PARTITION_PROBS_3), stored_cdf1d(MODE_PARTITION_PROBS_4)],
        cfl_alpha: stored_cdf1d(MODE_CFL_ALPHA_PROBS),
        txtp_inter1: stored_cdf1d(MODE_TXTP_INTER1_PROBS),
        txtp_inter2: stored_cdf0d(MODE_TXTP_INTER2_PROBS),
        txtp_intra1: stored_cdf2d(MODE_TXTP_INTRA1_PROBS),
        txtp_intra2: stored_cdf2d(MODE_TXTP_INTRA2_PROBS),
        cfl_sign: stored_cdf0d(MODE_CFL_SIGN_PROBS),
        angle_delta: stored_cdf1d(MODE_ANGLE_DELTA_PROBS),
        filter_intra: stored_cdf0d(MODE_FILTER_INTRA_PROBS),
        comp_inter_mode: stored_cdf1d(MODE_COMP_INTER_MODE_PROBS),
        seg_id: stored_cdf1d(MODE_SEG_ID_PROBS),
        pal_sz: stored_cdf2d(MODE_PAL_SZ_PROBS),
        color_map: [[stored_cdf1d(MODE_COLOR_MAP_PROBS_0_0), stored_cdf1d(MODE_COLOR_MAP_PROBS_0_1), stored_cdf1d(MODE_COLOR_MAP_PROBS_0_2), stored_cdf1d(MODE_COLOR_MAP_PROBS_0_3), stored_cdf1d(MODE_COLOR_MAP_PROBS_0_4), stored_cdf1d(MODE_COLOR_MAP_PROBS_0_5), stored_cdf1d(MODE_COLOR_MAP_PROBS_0_6)], [stored_cdf1d(MODE_COLOR_MAP_PROBS_1_0), stored_cdf1d(MODE_COLOR_MAP_PROBS_1_1), stored_cdf1d(MODE_COLOR_MAP_PROBS_1_2), stored_cdf1d(MODE_COLOR_MAP_PROBS_1_3), stored_cdf1d(MODE_COLOR_MAP_PROBS_1_4), stored_cdf1d(MODE_COLOR_MAP_PROBS_1_5), stored_cdf1d(MODE_COLOR_MAP_PROBS_1_6)]],
        filter: stored_cdf2d(MODE_FILTER_PROBS),
        txsz: stored_cdf2d(MODE_TXSZ_PROBS),
        motion_mode: stored_cdf1d(MODE_MOTION_MODE_PROBS),
        delta_q: stored_cdf0d(MODE_DELTA_Q_PROBS),
        delta_lf: stored_cdf1d(MODE_DELTA_LF_PROBS),
        interintra_mode: stored_cdf1d(MODE_INTERINTRA_MODE_PROBS),
        restore_switchable: stored_cdf0d(MODE_RESTORE_SWITCHABLE_PROBS),
        restore_wiener: stored_cdf0d(MODE_RESTORE_WIENER_PROBS),
        restore_sgrproj: stored_cdf0d(MODE_RESTORE_SGRPROJ_PROBS),
        interintra: stored_cdf1d(MODE_INTERINTRA_PROBS),
        interintra_wedge: stored_cdf1d(MODE_INTERINTRA_WEDGE_PROBS),
        txtp_inter3: stored_cdf1d(MODE_TXTP_INTER3_PROBS),
        use_filter_intra: stored_cdf1d(MODE_USE_FILTER_INTRA_PROBS),
        newmv_mode: stored_cdf1d(MODE_NEWMV_MODE_PROBS),
        globalmv_mode: stored_cdf1d(MODE_GLOBALMV_MODE_PROBS),
        refmv_mode: stored_cdf1d(MODE_REFMV_MODE_PROBS),
        drl_bit: stored_cdf1d(MODE_DRL_BIT_PROBS),
        intra: stored_cdf1d(MODE_INTRA_PROBS),
        comp: stored_cdf1d(MODE_COMP_PROBS),
        comp_dir: stored_cdf1d(MODE_COMP_DIR_PROBS),
        jnt_comp: stored_cdf1d(MODE_JNT_COMP_PROBS),
        mask_comp: stored_cdf1d(MODE_MASK_COMP_PROBS),
        wedge_comp: stored_cdf1d(MODE_WEDGE_COMP_PROBS),
        single_ref: stored_cdf2d(MODE_SINGLE_REF_PROBS),
        comp_fwd_ref: stored_cdf2d(MODE_COMP_FWD_REF_PROBS),
        comp_bwd_ref: stored_cdf2d(MODE_COMP_BWD_REF_PROBS),
        comp_uni_ref: stored_cdf2d(MODE_COMP_UNI_REF_PROBS),
        txpart: stored_cdf2d(MODE_TXPART_PROBS),
        skip: stored_cdf1d(MODE_SKIP_PROBS),
        skip_mode: stored_cdf1d(MODE_SKIP_MODE_PROBS),
        seg_pred: stored_cdf1d(MODE_SEG_PRED_PROBS),
        obmc: stored_cdf1d(MODE_OBMC_PROBS),
        pal_y: stored_cdf2d(MODE_PAL_Y_PROBS),
        pal_uv: stored_cdf1d(MODE_PAL_UV_PROBS),
        intrabc: stored_cdf0d(MODE_INTRABC_PROBS),
    }
}

/// `k` holds the default key frame luma mode probabilities.
pub closed spec fn is_default_kf_y_mode_cdf(k: [[[u16; 16]; 5]; 5]) -> bool {
    is_cdf2d(k, KF_Y_MODE_PROBS)
}

/// Unfolds `is_default_kf_y_mode_cdf`.
pub proof fn lemma_default_kf_y_mode_cdf(k: [[[u16; 16]; 5]; 5])
    requires
        is_default_kf_y_mode_cdf(k),
    ensures
        is_cdf2d(k, KF_Y_MODE_PROBS),
{
}

/// The default key frame luma mode probabilities, by the modes above and to
/// the left.
pub fn default_kf_y_mode_cdf() -> (k: [[[u16; 16]; 5]; 5])
    ensures
        is_default_kf_y_mode_cdf(k),
{
    stored_cdf2d(KF_Y_MODE_PROBS)
}

} // verus!
