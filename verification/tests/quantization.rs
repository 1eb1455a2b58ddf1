use ironrdp_client::quantization::{decode, Quant};

/// A tile of 4096 coefficients holding `values` at the given positions and
/// zero elsewhere.
fn tile(values: &[(usize, i16)]) -> [i16; 4096] {
    let mut buffer = [0i16; 4096];
    for &(position, value) in values {
        buffer[position] = value;
    }
    buffer
}

#[test]
fn decode_does_not_change_buffer_with_null_quant_values() {
    let mut buffer = tile(QUANTIZED_NONZERO);
    let expected = tile(QUANTIZED_NONZERO);
    let quant = Quant { ll3: 0, lh3: 0, hl3: 0, hh3: 0, lh2: 0, hl2: 0, hh2: 0, lh1: 0, hl1: 0, hh1: 0 };

    decode(&mut buffer, &quant);
    assert_eq!(expected.as_ref(), buffer.as_ref());
}

#[test]
fn decode_works_with_not_empty_quant_values() {
    let mut buffer = tile(QUANTIZED_NONZERO);
    let expected = tile(DEQUANTIZED_NONZERO);
    let quant = Quant { ll3: 6, lh3: 6, hl3: 6, hh3: 6, lh2: 7, hl2: 7, hh2: 8, lh1: 8, hl1: 8, hh1: 9 };

    decode(&mut buffer, &quant);
    assert_eq!(expected.as_ref(), buffer.as_ref());
}

/// The non-zero coefficients of a quantized tile, by position.
const QUANTIZED_NONZERO: &[(usize, i16)] = &[
    (1, 1), (96, 1), (98, 2), (103, -1), (123, 1), (130, 1), (134, 2), (169, 1), (178, -1),
    (188, -1), (189, 1), (198, -3), (202, 1), (209, 2), (217, 1), (219, -2), (220, 4),
    (221, -5), (222, -1), (229, -1), (230, -3), (241, -3), (243, 3), (250, -1), (251, 4),
    (252, 4), (253, -5), (254, -1), (261, -2), (262, 5), (269, 2), (270, 1), (272, 2),
    (273, -5), (274, -4), (275, 1), (282, 1), (283, 3), (284, -1), (285, 5), (287, -1),
    (293, -2), (294, -2), (295, -3), (301, 3), (304, 7), (306, -4), (315, -1), (317, -1),
    (318, 2), (319, -1), (325, -3), (326, 1), (327, 5), (334, -1), (337, 1), (338, 7),
    (349, -1), (356, 2), (360, -2), (366, 1), (368, -9), (369, -3), (370, 5), (381, -1),
    (390, -1), (391, -1), (392, -1), (399, 6), (400, -2), (401, -8), (402, -1), (413, -1),
    (420, -3), (427, -1), (429, -1), (431, 5), (432, 2), (433, 3), (442, 1), (444, 2),
    (451, -1), (452, 1), (455, -1), (456, 2), (459, 1), (462, -1), (464, -1), (465, 7),
    (476, -3), (477, -2), (483, 3), (484, -1), (486, -1), (488, 1), (492, 1), (493, 2),
    (494, -1), (496, -5), (497, 1), (507, -3), (508, -4), (514, -1), (515, -6), (516, 1),
    (518, -1), (526, 6), (528, -1), (530, 1), (533, 1), (534, -1), (546, 3), (547, -5),
    (557, -1), (558, -1), (559, 1), (560, 10), (564, -1), (565, 1), (570, -1), (571, 1),
    (578, 7), (589, 1), (590, -5), (591, -5), (592, 3), (601, -1), (603, -1), (609, -1),
    (610, -2), (614, -1), (621, 3), (622, -1), (623, -7), (634, 1), (635, -6), (642, -8),
    (653, 3), (654, 2), (655, 4), (661, -1), (666, 6), (667, -1), (672, -1), (673, 7),
    (674, -1), (678, -1), (679, -1), (685, -3), (686, -1), (687, 6), (698, 3), (699, 1),
    (705, 4), (706, 1), (707, 2), (708, -2), (709, -2), (711, -1), (716, 1), (717, -1),
    (718, -7), (719, 1), (730, -6), (736, -1), (737, -10), (738, 3), (739, 1), (740, 2),
    (742, -2), (743, 1), (744, 1), (750, -1), (754, -1), (761, 3), (762, -2), (768, 6),
    (769, -8), (770, -2), (772, -2), (773, 1), (776, -1), (777, -1), (778, -1), (779, 1),
    (780, 1), (781, 1), (782, 6), (793, 4), (794, 1), (800, 3), (801, 2), (803, 1), (806, 1),
    (807, 1), (810, 1), (811, -2), (812, 5), (813, -3), (814, 2), (819, 1), (825, -2),
    (842, -1), (845, -3), (847, 1), (850, 1), (851, 1), (857, -4), (878, -1), (879, 1),
    (880, -1), (881, -1), (884, 1), (888, 3), (910, -1), (914, 1), (915, 1), (916, 1),
    (917, -2), (919, 1), (944, -1), (946, -2), (947, 1), (948, 1), (979, 3), (980, -1),
    (1011, -1), (1096, 1), (1098, -1), (1099, -1), (1102, -1), (1103, -1), (1104, 1),
    (1120, -1), (1121, -1), (1122, -1), (1127, -1), (1137, -1), (1152, -1), (1153, -1),
    (1154, -1), (1204, -1), (1205, 1), (1212, -2), (1213, -8), (1214, 2), (1222, -1),
    (1238, -1), (1241, 1), (1243, -2), (1244, 4), (1245, 4), (1246, -1), (1253, -1), (1254, 3),
    (1255, -1), (1262, 1), (1265, 1), (1274, -1), (1275, 3), (1276, 3), (1277, -7), (1278, -1),
    (1287, 1), (1298, -1), (1299, 1), (1307, 1), (1310, 6), (1311, 3), (1323, 1), (1328, 1),
    (1342, -8), (1355, 1), (1356, -2), (1357, -2), (1358, 2), (1359, -1), (1362, -1),
    (1381, -1), (1384, 1), (1385, 1), (1386, 3), (1387, 1), (1399, 1), (1413, -1), (1415, -1),
    (1416, -5), (1417, -3), (1418, -4), (1419, -6), (1420, -6), (1421, 7), (1422, 1), (1423, 1),
    (1424, -1), (1432, -1), (1433, -2), (1434, -3), (1436, 1), (1445, 1), (1447, 2), (1448, -1),
    (1450, -2), (1451, -3), (1452, 1), (1453, 1), (1454, -8), (1455, 6), (1457, -1), (1458, 1),
    (1463, 1), (1464, 1), (1467, 6), (1468, -3), (1469, -1), (1475, -1), (1476, 5), (1477, 2),
    (1478, -6), (1479, -2), (1483, 2), (1484, 7), (1485, -6), (1486, -1), (1489, 1), (1498, -1),
    (1499, -1), (1500, 1), (1501, 6), (1508, -2), (1509, 1), (1517, -1), (1518, 6), (1519, -1),
    (1520, 1), (1521, -6), (1522, 7), (1531, 1), (1532, -1), (1533, -1), (1539, 1), (1552, -1),
    (1553, -2), (1555, -8), (1556, 6), (1557, 6), (1558, 4), (1559, 3), (1560, 3), (1561, 4),
    (1562, -1), (1563, -2), (1582, 2), (1583, -1), (1584, -1), (1585, 7), (1586, -8), (1588, 1),
    (1589, -2), (1590, -4), (1591, -3), (1592, -1), (1593, 1), (1594, -3), (1595, -4),
    (1596, 1), (1610, 1), (1612, 1), (1613, -3), (1614, -5), (1616, 1), (1619, 8), (1620, -1),
    (1621, -7), (1622, -9), (1623, -7), (1624, -2), (1625, 6), (1626, 3), (1634, 1), (1638, -1),
    (1639, -1), (1645, 1), (1646, -1), (1670, 1), (1679, -1), (1680, 1), (1686, -1), (1687, 1),
    (1690, 1), (1691, -1), (1696, -1), (1697, 1), (1698, -1), (1699, 1), (1700, 1), (1720, -1),
    (1721, 1), (1722, -1), (1729, 1), (1730, 1), (1731, 3), (1732, 3), (1734, 1), (1735, 1),
    (1736, -1), (1737, 1), (1754, 1), (1758, 1), (1762, 2), (1763, 1), (1764, -4), (1765, -5),
    (1766, -8), (1767, -6), (1768, -4), (1769, 1), (1772, -1), (1787, 1), (1792, 3), (1793, -9),
    (1794, -5), (1795, 10), (1796, 2), (1797, 2), (1799, -1), (1800, 2), (1801, 6), (1802, -4),
    (1803, -1), (1824, -1), (1825, 2), (1826, -1), (1827, -1), (1828, 1), (1834, -1), (1835, 4),
    (1836, -2), (1837, -1), (1838, 1), (1839, -1), (1840, 1), (1841, -1), (1849, 1), (1871, 1),
    (1872, -1), (1873, 1), (1889, 1), (1902, -1), (1903, -1), (1905, -1), (1906, 1), (1907, 1),
    (1909, 1), (1911, -1), (1912, 3), (1913, -1), (1935, -1), (1936, -1), (1937, -1), (1938, 1),
    (1939, 1), (1940, 1), (1942, -2), (1943, -3), (1970, -1), (1971, 4), (1972, 2), (1973, 1),
    (2004, -2), (2236, -1), (2237, 1), (2267, -2), (2268, -1), (2269, 1), (2277, -1),
    (2278, -1), (2289, -1), (2298, -1), (2299, 1), (2300, -2), (2322, -1), (2331, -1),
    (2334, 1), (2335, -1), (2341, -1), (2443, -1), (2447, 1), (2468, 1), (2479, -1), (2481, 1),
    (2492, 1), (2500, 1), (2509, -1), (2523, 1), (2524, 1), (2542, -1), (2544, 1), (2555, 1),
    (2563, -1), (2576, -2), (2606, -1), (2608, -1), (2619, 1), (2637, -1), (2638, 1),
    (2651, -1), (2669, 1), (2703, 1), (2714, 1), (2721, 1), (2725, 1), (2754, -1), (2757, 1),
    (2758, 1), (2785, -1), (2786, -1), (2787, 2), (2789, -1), (2816, 1), (2817, -1), (2825, 1),
    (2826, -1), (2862, 1), (2928, -1), (2960, -1), (2994, -1), (2995, -1), (2996, 1),
    (3027, -1), (3072, 1), (3088, 1), (3091, 1), (3094, 1), (3101, -1), (3104, -1), (3105, -1),
    (3107, -5), (3108, 3), (3109, -2), (3110, 1), (3112, -1), (3117, 1), (3118, -4), (3119, -1),
    (3122, 1), (3123, -5), (3124, -2), (3125, 1), (3126, 1), (3127, 1), (3128, 6), (3129, -2),
    (3130, -1), (3132, 1), (3133, -4), (3134, 21), (3135, 6), (3138, -5), (3139, -1), (3140, 1),
    (3141, 2), (3142, 4), (3143, 4), (3144, 3), (3145, 5), (3148, -1), (3149, 4), (3150, -8),
    (3151, -11), (3154, -2), (3155, 8), (3156, -1), (3158, 3), (3159, 1), (3160, -18),
    (3161, 16), (3162, 1), (3163, -1), (3164, 2), (3166, -4), (3167, -4), (3170, -6), (3171, 1),
    (3172, -3), (3173, -1), (3174, 1), (3175, 14), (3176, -23), (3177, 1), (3179, 1), (3181, 1),
    (3182, -3), (3183, -1), (3187, -5), (3188, -2), (3189, 3), (3190, -1), (3191, 11),
    (3192, -8), (3193, -3), (3195, 1), (3197, -1), (3198, -3), (3199, 1), (3201, 14), (3202, 1),
    (3204, -1), (3207, -15), (3208, -2), (3209, 7), (3210, 1), (3211, -1), (3212, 1),
    (3213, -3), (3214, -1), (3215, -1), (3216, -2), (3217, -14), (3219, 1), (3222, 5),
    (3223, -18), (3224, 14), (3225, -7), (3226, -1), (3227, -1), (3228, -2), (3229, 13),
    (3230, 1), (3231, -1), (3232, 3), (3233, -14), (3234, 1), (3235, -2), (3236, 2), (3237, -1),
    (3238, 11), (3239, -16), (3240, -2), (3241, 2), (3242, -1), (3243, 1), (3245, -9),
    (3247, -1), (3248, 19), (3249, 1), (3250, 1), (3251, 1), (3253, 2), (3254, 2), (3255, 8),
    (3260, 1), (3261, -13), (3264, -6), (3265, -3), (3266, -1), (3268, -2), (3269, -2),
    (3270, 6), (3271, 13), (3275, 1), (3276, 9), (3277, 1), (3280, -1), (3281, 2), (3284, 1),
    (3286, -5), (3289, -1), (3292, 1), (3293, 1), (3302, 1), (3303, -2), (3304, -4), (3305, 1),
    (3306, 4), (3307, 4), (3308, -2), (3311, -1), (3320, 1), (3322, -4), (3323, -1), (3344, -2),
    (3345, -1), (3346, 1), (3347, 1), (3348, -1), (3349, -3), (3351, -2), (3352, -3),
    (3360, -2), (3361, -2), (3363, 1), (3364, -1), (3365, 2), (3369, 1), (3370, -1), (3371, 1),
    (3373, 1), (3374, -8), (3375, -1), (3378, 1), (3379, -3), (3382, -1), (3383, 3), (3386, 1),
    (3387, -3), (3388, -3), (3389, -3), (3390, 3), (3391, -4), (3395, 1), (3398, 3), (3399, -3),
    (3400, 3), (3401, -1), (3402, 1), (3403, 1), (3405, 1), (3406, -5), (3407, 20), (3411, -1),
    (3412, 2), (3413, 7), (3414, -1), (3416, 3), (3417, -2), (3418, 1), (3420, 4), (3421, -1),
    (3423, 1), (3425, 1), (3426, -3), (3427, 2), (3428, -9), (3429, -12), (3430, -19),
    (3431, 10), (3432, -1), (3433, 2), (3435, -1), (3436, 1), (3437, 9), (3438, -13), (3441, 1),
    (3442, -4), (3443, -13), (3446, 16), (3447, -7), (3449, 16), (3450, -3), (3451, 1),
    (3452, -2), (3453, -1), (3454, 2), (3455, -1), (3459, 1), (3460, 1), (3463, 4), (3464, -3),
    (3465, -17), (3466, -14), (3467, 2), (3468, -4), (3469, -14), (3470, -1), (3472, -1),
    (3473, 1), (3475, -1), (3477, 1), (3478, 1), (3479, -2), (3480, 1), (3481, 3), (3482, 17),
    (3483, 13), (3484, 15), (3485, 9), (3486, -2), (3488, 2), (3489, -3), (3490, 2), (3491, 2),
    (3492, -2), (3493, 2), (3494, 1), (3495, -1), (3496, 1), (3499, -2), (3500, 5), (3501, 7),
    (3502, -1), (3504, 1), (3505, 4), (3506, -7), (3507, -14), (3508, -7), (3509, 2),
    (3510, -2), (3517, -1), (3518, 1), (3520, -3), (3521, 17), (3522, 8), (3523, -1), (3524, 4),
    (3525, 8), (3526, -9), (3527, 6), (3529, 1), (3536, -1), (3537, 1), (3543, -2), (3544, -2),
    (3545, 2), (3548, 5), (3549, -1), (3552, -1), (3560, -5), (3561, -4), (3562, -2),
    (3563, -6), (3564, -1), (3578, -7), (3579, 1), (3603, 1), (3628, -1), (3630, -4),
    (3631, -1), (3638, -1), (3639, -1), (3640, 1), (3641, -1), (3646, 2), (3647, 2), (3651, 3),
    (3654, 1), (3655, 1), (3656, -1), (3657, 1), (3662, -4), (3663, -8), (3667, -1), (3670, -1),
    (3671, -1), (3672, -1), (3683, 1), (3684, 1), (3685, -1), (3686, -3), (3687, 3), (3691, -1),
    (3692, 1), (3697, 1), (3698, -2), (3701, -1), (3702, 3), (3703, 1), (3704, 2), (3705, -1),
    (3709, -2), (3710, -1), (3720, 1), (3722, 1), (3723, 1), (3725, -3), (3734, 1), (3736, -1),
    (3737, 2), (3739, -1), (3740, 1), (3744, 1), (3745, 1), (3751, -1), (3755, -1), (3757, -2),
    (3760, 2), (3761, 2), (3762, 1), (3763, -1), (3765, -1), (3776, -2), (3777, 2), (3780, 1),
    (3781, -2), (3782, 1), (3783, -1), (3784, -1), (3798, 1), (3803, -1), (3804, -2), (3816, 1),
    (3817, 1), (3818, -1), (3819, -1), (3834, 1), (3842, -2), (3843, -2), (3844, 1), (3846, -1),
    (3847, -2), (3849, -1), (3850, 8), (3851, 6), (3852, 3), (3854, -1), (3855, -6), (3857, 4),
    (3858, 5), (3859, -13), (3860, -53), (3861, -3), (3862, -2), (3864, -2), (3865, -15),
    (3866, -7), (3867, 25), (3868, 8), (3869, 3), (3870, 7), (3871, -25), (3872, 26),
    (3873, -12), (3874, 5), (3875, 20), (3876, 6), (3877, 7), (3878, -5), (3879, -13),
    (3880, 2), (3881, -2), (3882, 5), (3883, -54), (3884, 10), (3885, -2), (3886, 30),
    (3887, 3), (3888, -46), (3889, 11), (3890, -9), (3891, -1), (3892, -2), (3893, 1),
    (3894, -18), (3895, -2), (3896, 8), (3897, -3), (3898, 3), (3899, -5), (3900, -4),
    (3901, -1), (3902, -5), (3903, -2), (3904, -3), (3906, 1), (3907, -10), (3908, -3),
    (3909, 1), (3910, -1), (3911, 1), (3912, -5), (3913, -1), (3914, -3), (3915, 3), (3916, 7),
    (3917, -14), (3918, -13), (3919, 10), (3921, -1), (3922, 11), (3923, 2), (3924, 5),
    (3925, 2), (3926, 12), (3928, -8), (3929, 24), (3930, -21), (3931, -49), (3932, -4),
    (3933, 10), (3934, 9), (3935, 31), (3936, -1), (3937, 5), (3938, 10), (3939, 1), (3940, 13),
    (3941, -57), (3942, -52), (3943, 9), (3944, 12), (3945, -6), (3946, -18), (3947, 5),
    (3948, 1), (3949, -3), (3950, -4), (3951, -1), (3952, 13), (3953, 21), (3954, 8),
    (3955, 11), (3956, 3), (3957, 7), (3958, 7), (3959, -2), (3960, -3), (3961, -1), (3963, 2),
    (3964, -14), (3965, -19), (3966, -7), (3967, 1), (3968, -1), (3969, -1), (3970, -3),
    (3971, -2), (3974, -1), (3975, -1), (3976, -1), (3977, -7), (3978, 3), (3979, 4), (3980, 7),
    (3981, -1), (3982, -6), (3983, -14), (3984, -1), (3985, -7), (3986, 3), (3987, -12),
    (3988, -16), (3989, -2), (3990, 2), (3991, -1), (3992, -9), (3993, 1), (3994, 7),
    (3995, -21), (3996, 25), (3997, -4), (3998, -2), (3999, -23), (4000, 2), (4001, 2),
    (4002, 3), (4003, -4), (4004, 22), (4005, -4), (4006, 5), (4007, -4), (4008, -2),
    (4009, -2), (4010, 4), (4011, -7), (4014, 3), (4015, 2), (4016, 17), (4017, -6), (4018, 7),
    (4019, 5), (4020, 3), (4021, 1), (4022, -5), (4024, 1), (4027, 6), (4028, 1), (4029, -4),
    (4030, 2), (4032, -1), (4034, -1), (4035, -15), (4036, -12), (4037, -12), (4038, -19),
    (4039, -23), (4040, 27), (4041, 14), (4042, 3), (4043, 37), (4044, 11), (4045, -12),
    (4046, -15), (4047, -16), (4048, 29), (4049, 25), (4050, 46), (4051, 103), (4052, 86),
    (4053, 43), (4054, 26), (4055, 11), (4056, 38), (4057, 31), (4058, 56), (4059, 86),
    (4060, 63), (4061, 128), (4062, 115), (4063, 27), (4064, 72), (4065, -31), (4066, 54),
    (4067, 125), (4068, 9), (4069, 97), (4070, 67), (4071, 10), (4072, 67), (4073, -34),
    (4074, 60), (4075, 85), (4076, 102), (4077, 107), (4078, 113), (4079, 6), (4080, 21),
    (4081, -10), (4082, 10), (4083, -16), (4084, 126), (4085, 108), (4086, 85), (4087, -10),
    (4088, 59), (4089, 52), (4090, 39), (4091, 30), (4092, 35), (4093, 53), (4094, 15),
    (4095, -3),
];

/// The non-zero coefficients of the same tile after decoding, by position.
const DEQUANTIZED_NONZERO: &[(usize, i16)] = &[
    (1, 128), (96, 128), (98, 256), (103, -128), (123, 128), (130, 128), (134, 256), (169, 128),
    (178, -128), (188, -128), (189, 128), (198, -384), (202, 128), (209, 256), (217, 128),
    (219, -256), (220, 512), (221, -640), (222, -128), (229, -128), (230, -384), (241, -384),
    (243, 384), (250, -128), (251, 512), (252, 512), (253, -640), (254, -128), (261, -256),
    (262, 640), (269, 256), (270, 128), (272, 256), (273, -640), (274, -512), (275, 128),
    (282, 128), (283, 384), (284, -128), (285, 640), (287, -128), (293, -256), (294, -256),
    (295, -384), (301, 384), (304, 896), (306, -512), (315, -128), (317, -128), (318, 256),
    (319, -128), (325, -384), (326, 128), (327, 640), (334, -128), (337, 128), (338, 896),
    (349, -128), (356, 256), (360, -256), (366, 128), (368, -1152), (369, -384), (370, 640),
    (381, -128), (390, -128), (391, -128), (392, -128), (399, 768), (400, -256), (401, -1024),
    (402, -128), (413, -128), (420, -384), (427, -128), (429, -128), (431, 640), (432, 256),
    (433, 384), (442, 128), (444, 256), (451, -128), (452, 128), (455, -128), (456, 256),
    (459, 128), (462, -128), (464, -128), (465, 896), (476, -384), (477, -256), (483, 384),
    (484, -128), (486, -128), (488, 128), (492, 128), (493, 256), (494, -128), (496, -640),
    (497, 128), (507, -384), (508, -512), (514, -128), (515, -768), (516, 128), (518, -128),
    (526, 768), (528, -128), (530, 128), (533, 128), (534, -128), (546, 384), (547, -640),
    (557, -128), (558, -128), (559, 128), (560, 1280), (564, -128), (565, 128), (570, -128),
    (571, 128), (578, 896), (589, 128), (590, -640), (591, -640), (592, 384), (601, -128),
    (603, -128), (609, -128), (610, -256), (614, -128), (621, 384), (622, -128), (623, -896),
    (634, 128), (635, -768), (642, -1024), (653, 384), (654, 256), (655, 512), (661, -128),
    (666, 768), (667, -128), (672, -128), (673, 896), (674, -128), (678, -128), (679, -128),
    (685, -384), (686, -128), (687, 768), (698, 384), (699, 128), (705, 512), (706, 128),
    (707, 256), (708, -256), (709, -256), (711, -128), (716, 128), (717, -128), (718, -896),
    (719, 128), (730, -768), (736, -128), (737, -1280), (738, 384), (739, 128), (740, 256),
    (742, -256), (743, 128), (744, 128), (750, -128), (754, -128), (761, 384), (762, -256),
    (768, 768), (769, -1024), (770, -256), (772, -256), (773, 128), (776, -128), (777, -128),
    (778, -128), (779, 128), (780, 128), (781, 128), (782, 768), (793, 512), (794, 128),
    (800, 384), (801, 256), (803, 128), (806, 128), (807, 128), (810, 128), (811, -256),
    (812, 640), (813, -384), (814, 256), (819, 128), (825, -256), (842, -128), (845, -384),
    (847, 128), (850, 128), (851, 128), (857, -512), (878, -128), (879, 128), (880, -128),
    (881, -128), (884, 128), (888, 384), (910, -128), (914, 128), (915, 128), (916, 128),
    (917, -256), (919, 128), (944, -128), (946, -256), (947, 128), (948, 128), (979, 384),
    (980, -128), (1011, -128), (1096, 128), (1098, -128), (1099, -128), (1102, -128),
    (1103, -128), (1104, 128), (1120, -128), (1121, -128), (1122, -128), (1127, -128),
    (1137, -128), (1152, -128), (1153, -128), (1154, -128), (1204, -128), (1205, 128),
    (1212, -256), (1213, -1024), (1214, 256), (1222, -128), (1238, -128), (1241, 128),
    (1243, -256), (1244, 512), (1245, 512), (1246, -128), (1253, -128), (1254, 384),
    (1255, -128), (1262, 128), (1265, 128), (1274, -128), (1275, 384), (1276, 384),
    (1277, -896), (1278, -128), (1287, 128), (1298, -128), (1299, 128), (1307, 128),
    (1310, 768), (1311, 384), (1323, 128), (1328, 128), (1342, -1024), (1355, 128),
    (1356, -256), (1357, -256), (1358, 256), (1359, -128), (1362, -128), (1381, -128),
    (1384, 128), (1385, 128), (1386, 384), (1387, 128), (1399, 128), (1413, -128), (1415, -128),
    (1416, -640), (1417, -384), (1418, -512), (1419, -768), (1420, -768), (1421, 896),
    (1422, 128), (1423, 128), (1424, -128), (1432, -128), (1433, -256), (1434, -384),
    (1436, 128), (1445, 128), (1447, 256), (1448, -128), (1450, -256), (1451, -384),
    (1452, 128), (1453, 128), (1454, -1024), (1455, 768), (1457, -128), (1458, 128),
    (1463, 128), (1464, 128), (1467, 768), (1468, -384), (1469, -128), (1475, -128),
    (1476, 640), (1477, 256), (1478, -768), (1479, -256), (1483, 256), (1484, 896),
    (1485, -768), (1486, -128), (1489, 128), (1498, -128), (1499, -128), (1500, 128),
    (1501, 768), (1508, -256), (1509, 128), (1517, -128), (1518, 768), (1519, -128),
    (1520, 128), (1521, -768), (1522, 896), (1531, 128), (1532, -128), (1533, -128),
    (1539, 128), (1552, -128), (1553, -256), (1555, -1024), (1556, 768), (1557, 768),
    (1558, 512), (1559, 384), (1560, 384), (1561, 512), (1562, -128), (1563, -256), (1582, 256),
    (1583, -128), (1584, -128), (1585, 896), (1586, -1024), (1588, 128), (1589, -256),
    (1590, -512), (1591, -384), (1592, -128), (1593, 128), (1594, -384), (1595, -512),
    (1596, 128), (1610, 128), (1612, 128), (1613, -384), (1614, -640), (1616, 128),
    (1619, 1024), (1620, -128), (1621, -896), (1622, -1152), (1623, -896), (1624, -256),
    (1625, 768), (1626, 384), (1634, 128), (1638, -128), (1639, -128), (1645, 128),
    (1646, -128), (1670, 128), (1679, -128), (1680, 128), (1686, -128), (1687, 128),
    (1690, 128), (1691, -128), (1696, -128), (1697, 128), (1698, -128), (1699, 128),
    (1700, 128), (1720, -128), (1721, 128), (1722, -128), (1729, 128), (1730, 128), (1731, 384),
    (1732, 384), (1734, 128), (1735, 128), (1736, -128), (1737, 128), (1754, 128), (1758, 128),
    (1762, 256), (1763, 128), (1764, -512), (1765, -640), (1766, -1024), (1767, -768),
    (1768, -512), (1769, 128), (1772, -128), (1787, 128), (1792, 384), (1793, -1152),
    (1794, -640), (1795, 1280), (1796, 256), (1797, 256), (1799, -128), (1800, 256),
    (1801, 768), (1802, -512), (1803, -128), (1824, -128), (1825, 256), (1826, -128),
    (1827, -128), (1828, 128), (1834, -128), (1835, 512), (1836, -256), (1837, -128),
    (1838, 128), (1839, -128), (1840, 128), (1841, -128), (1849, 128), (1871, 128),
    (1872, -128), (1873, 128), (1889, 128), (1902, -128), (1903, -128), (1905, -128),
    (1906, 128), (1907, 128), (1909, 128), (1911, -128), (1912, 384), (1913, -128),
    (1935, -128), (1936, -128), (1937, -128), (1938, 128), (1939, 128), (1940, 128),
    (1942, -256), (1943, -384), (1970, -128), (1971, 512), (1972, 256), (1973, 128),
    (2004, -256), (2236, -256), (2237, 256), (2267, -512), (2268, -256), (2269, 256),
    (2277, -256), (2278, -256), (2289, -256), (2298, -256), (2299, 256), (2300, -512),
    (2322, -256), (2331, -256), (2334, 256), (2335, -256), (2341, -256), (2443, -256),
    (2447, 256), (2468, 256), (2479, -256), (2481, 256), (2492, 256), (2500, 256), (2509, -256),
    (2523, 256), (2524, 256), (2542, -256), (2544, 256), (2555, 256), (2563, -256),
    (2576, -512), (2606, -256), (2608, -256), (2619, 256), (2637, -256), (2638, 256),
    (2651, -256), (2669, 256), (2703, 256), (2714, 256), (2721, 256), (2725, 256), (2754, -256),
    (2757, 256), (2758, 256), (2785, -256), (2786, -256), (2787, 512), (2789, -256),
    (2816, 256), (2817, -256), (2825, 256), (2826, -256), (2862, 256), (2928, -256),
    (2960, -256), (2994, -256), (2995, -256), (2996, 256), (3027, -256), (3072, 64), (3088, 64),
    (3091, 64), (3094, 64), (3101, -64), (3104, -64), (3105, -64), (3107, -320), (3108, 192),
    (3109, -128), (3110, 64), (3112, -64), (3117, 64), (3118, -256), (3119, -64), (3122, 64),
    (3123, -320), (3124, -128), (3125, 64), (3126, 64), (3127, 64), (3128, 384), (3129, -128),
    (3130, -64), (3132, 64), (3133, -256), (3134, 1344), (3135, 384), (3138, -320), (3139, -64),
    (3140, 64), (3141, 128), (3142, 256), (3143, 256), (3144, 192), (3145, 320), (3148, -64),
    (3149, 256), (3150, -512), (3151, -704), (3154, -128), (3155, 512), (3156, -64),
    (3158, 192), (3159, 64), (3160, -1152), (3161, 1024), (3162, 64), (3163, -64), (3164, 128),
    (3166, -256), (3167, -256), (3170, -384), (3171, 64), (3172, -192), (3173, -64), (3174, 64),
    (3175, 896), (3176, -1472), (3177, 64), (3179, 64), (3181, 64), (3182, -192), (3183, -64),
    (3187, -320), (3188, -128), (3189, 192), (3190, -64), (3191, 704), (3192, -512),
    (3193, -192), (3195, 64), (3197, -64), (3198, -192), (3199, 64), (3201, 896), (3202, 64),
    (3204, -64), (3207, -960), (3208, -128), (3209, 448), (3210, 64), (3211, -64), (3212, 64),
    (3213, -192), (3214, -64), (3215, -64), (3216, -128), (3217, -896), (3219, 64), (3222, 320),
    (3223, -1152), (3224, 896), (3225, -448), (3226, -64), (3227, -64), (3228, -128),
    (3229, 832), (3230, 64), (3231, -64), (3232, 192), (3233, -896), (3234, 64), (3235, -128),
    (3236, 128), (3237, -64), (3238, 704), (3239, -1024), (3240, -128), (3241, 128),
    (3242, -64), (3243, 64), (3245, -576), (3247, -64), (3248, 1216), (3249, 64), (3250, 64),
    (3251, 64), (3253, 128), (3254, 128), (3255, 512), (3260, 64), (3261, -832), (3264, -384),
    (3265, -192), (3266, -64), (3268, -128), (3269, -128), (3270, 384), (3271, 832), (3275, 64),
    (3276, 576), (3277, 64), (3280, -64), (3281, 128), (3284, 64), (3286, -320), (3289, -64),
    (3292, 64), (3293, 64), (3302, 64), (3303, -128), (3304, -256), (3305, 64), (3306, 256),
    (3307, 256), (3308, -128), (3311, -64), (3320, 64), (3322, -256), (3323, -64), (3344, -128),
    (3345, -64), (3346, 64), (3347, 64), (3348, -64), (3349, -192), (3351, -128), (3352, -192),
    (3360, -128), (3361, -128), (3363, 64), (3364, -64), (3365, 128), (3369, 64), (3370, -64),
    (3371, 64), (3373, 64), (3374, -512), (3375, -64), (3378, 64), (3379, -192), (3382, -64),
    (3383, 192), (3386, 64), (3387, -192), (3388, -192), (3389, -192), (3390, 192),
    (3391, -256), (3395, 64), (3398, 192), (3399, -192), (3400, 192), (3401, -64), (3402, 64),
    (3403, 64), (3405, 64), (3406, -320), (3407, 1280), (3411, -64), (3412, 128), (3413, 448),
    (3414, -64), (3416, 192), (3417, -128), (3418, 64), (3420, 256), (3421, -64), (3423, 64),
    (3425, 64), (3426, -192), (3427, 128), (3428, -576), (3429, -768), (3430, -1216),
    (3431, 640), (3432, -64), (3433, 128), (3435, -64), (3436, 64), (3437, 576), (3438, -832),
    (3441, 64), (3442, -256), (3443, -832), (3446, 1024), (3447, -448), (3449, 1024),
    (3450, -192), (3451, 64), (3452, -128), (3453, -64), (3454, 128), (3455, -64), (3459, 64),
    (3460, 64), (3463, 256), (3464, -192), (3465, -1088), (3466, -896), (3467, 128),
    (3468, -256), (3469, -896), (3470, -64), (3472, -64), (3473, 64), (3475, -64), (3477, 64),
    (3478, 64), (3479, -128), (3480, 64), (3481, 192), (3482, 1088), (3483, 832), (3484, 960),
    (3485, 576), (3486, -128), (3488, 128), (3489, -192), (3490, 128), (3491, 128),
    (3492, -128), (3493, 128), (3494, 64), (3495, -64), (3496, 64), (3499, -128), (3500, 320),
    (3501, 448), (3502, -64), (3504, 64), (3505, 256), (3506, -448), (3507, -896), (3508, -448),
    (3509, 128), (3510, -128), (3517, -64), (3518, 64), (3520, -192), (3521, 1088), (3522, 512),
    (3523, -64), (3524, 256), (3525, 512), (3526, -576), (3527, 384), (3529, 64), (3536, -64),
    (3537, 64), (3543, -128), (3544, -128), (3545, 128), (3548, 320), (3549, -64), (3552, -64),
    (3560, -320), (3561, -256), (3562, -128), (3563, -384), (3564, -64), (3578, -448),
    (3579, 64), (3603, 128), (3628, -128), (3630, -512), (3631, -128), (3638, -128),
    (3639, -128), (3640, 128), (3641, -128), (3646, 256), (3647, 256), (3651, 384), (3654, 128),
    (3655, 128), (3656, -128), (3657, 128), (3662, -512), (3663, -1024), (3667, -128),
    (3670, -128), (3671, -128), (3672, -128), (3683, 128), (3684, 128), (3685, -128),
    (3686, -384), (3687, 384), (3691, -128), (3692, 128), (3697, 128), (3698, -256),
    (3701, -128), (3702, 384), (3703, 128), (3704, 256), (3705, -128), (3709, -256),
    (3710, -128), (3720, 128), (3722, 128), (3723, 128), (3725, -384), (3734, 128),
    (3736, -128), (3737, 256), (3739, -128), (3740, 128), (3744, 128), (3745, 128),
    (3751, -128), (3755, -128), (3757, -256), (3760, 256), (3761, 256), (3762, 128),
    (3763, -128), (3765, -128), (3776, -256), (3777, 256), (3780, 128), (3781, -256),
    (3782, 128), (3783, -128), (3784, -128), (3798, 128), (3803, -128), (3804, -256),
    (3816, 128), (3817, 128), (3818, -128), (3819, -128), (3834, 128), (3842, -64), (3843, -64),
    (3844, 32), (3846, -32), (3847, -64), (3849, -32), (3850, 256), (3851, 192), (3852, 96),
    (3854, -32), (3855, -192), (3857, 128), (3858, 160), (3859, -416), (3860, -1696),
    (3861, -96), (3862, -64), (3864, -64), (3865, -480), (3866, -224), (3867, 800), (3868, 256),
    (3869, 96), (3870, 224), (3871, -800), (3872, 832), (3873, -384), (3874, 160), (3875, 640),
    (3876, 192), (3877, 224), (3878, -160), (3879, -416), (3880, 64), (3881, -64), (3882, 160),
    (3883, -1728), (3884, 320), (3885, -64), (3886, 960), (3887, 96), (3888, -1472),
    (3889, 352), (3890, -288), (3891, -32), (3892, -64), (3893, 32), (3894, -576), (3895, -64),
    (3896, 256), (3897, -96), (3898, 96), (3899, -160), (3900, -128), (3901, -32), (3902, -160),
    (3903, -64), (3904, -96), (3906, 32), (3907, -320), (3908, -96), (3909, 32), (3910, -32),
    (3911, 32), (3912, -160), (3913, -32), (3914, -96), (3915, 96), (3916, 224), (3917, -448),
    (3918, -416), (3919, 320), (3921, -32), (3922, 352), (3923, 64), (3924, 160), (3925, 64),
    (3926, 384), (3928, -256), (3929, 768), (3930, -672), (3931, -1568), (3932, -128),
    (3933, 320), (3934, 288), (3935, 992), (3936, -32), (3937, 160), (3938, 320), (3939, 32),
    (3940, 416), (3941, -1824), (3942, -1664), (3943, 288), (3944, 384), (3945, -192),
    (3946, -576), (3947, 160), (3948, 32), (3949, -96), (3950, -128), (3951, -32), (3952, 416),
    (3953, 672), (3954, 256), (3955, 352), (3956, 96), (3957, 224), (3958, 224), (3959, -64),
    (3960, -96), (3961, -32), (3963, 64), (3964, -448), (3965, -608), (3966, -224), (3967, 32),
    (3968, -32), (3969, -32), (3970, -96), (3971, -64), (3974, -32), (3975, -32), (3976, -32),
    (3977, -224), (3978, 96), (3979, 128), (3980, 224), (3981, -32), (3982, -192), (3983, -448),
    (3984, -32), (3985, -224), (3986, 96), (3987, -384), (3988, -512), (3989, -64), (3990, 64),
    (3991, -32), (3992, -288), (3993, 32), (3994, 224), (3995, -672), (3996, 800), (3997, -128),
    (3998, -64), (3999, -736), (4000, 64), (4001, 64), (4002, 96), (4003, -128), (4004, 704),
    (4005, -128), (4006, 160), (4007, -128), (4008, -64), (4009, -64), (4010, 128),
    (4011, -224), (4014, 96), (4015, 64), (4016, 544), (4017, -192), (4018, 224), (4019, 160),
    (4020, 96), (4021, 32), (4022, -160), (4024, 32), (4027, 192), (4028, 32), (4029, -128),
    (4030, 64), (4032, -32), (4034, -32), (4035, -480), (4036, -384), (4037, -384),
    (4038, -608), (4039, -736), (4040, 864), (4041, 448), (4042, 96), (4043, 1184), (4044, 352),
    (4045, -384), (4046, -480), (4047, -512), (4048, 928), (4049, 800), (4050, 1472),
    (4051, 3296), (4052, 2752), (4053, 1376), (4054, 832), (4055, 352), (4056, 1216),
    (4057, 992), (4058, 1792), (4059, 2752), (4060, 2016), (4061, 4096), (4062, 3680),
    (4063, 864), (4064, 2304), (4065, -992), (4066, 1728), (4067, 4000), (4068, 288),
    (4069, 3104), (4070, 2144), (4071, 320), (4072, 2144), (4073, -1088), (4074, 1920),
    (4075, 2720), (4076, 3264), (4077, 3424), (4078, 3616), (4079, 192), (4080, 672),
    (4081, -320), (4082, 320), (4083, -512), (4084, 4032), (4085, 3456), (4086, 2720),
    (4087, -320), (4088, 1888), (4089, 1664), (4090, 1248), (4091, 960), (4092, 1120),
    (4093, 1696), (4094, 480), (4095, -96),
];
