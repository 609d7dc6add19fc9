use d3d12_practice::{
    feature_level_step, feature_levels, select_adapter, LevelStep, units_equal, utf16_to_vec, FEATURE_LEVEL_11_0,
    FEATURE_LEVEL_12_1,
};

#[test]
fn utf16_ascii() {
    assert_eq!(utf16_to_vec("NVIDIA"), vec![78, 86, 73, 68, 73, 65, 0]);
    assert_eq!(utf16_to_vec(""), vec![0]);
}

#[test]
fn utf16_matches_std() {
    let s = "DX12Sample \u{e9}\u{4e2d}\u{1F600}";
    let mut expected: Vec<u16> = s.encode_utf16().collect();
    expected.push(0);
    assert_eq!(utf16_to_vec(s), expected);
    assert_eq!(utf16_to_vec("\u{1F600}"), vec![0xD83D, 0xDE00, 0]);
}

#[test]
fn units_equal_cases() {
    assert!(units_equal(&vec![1, 2, 3], &vec![1, 2, 3]));
    assert!(!units_equal(&vec![1, 2, 3], &vec![1, 2]));
    assert!(!units_equal(&vec![1, 2, 3], &vec![1, 5, 3]));
    assert!(units_equal(&vec![], &vec![]));
}

#[test]
fn select_adapter_first_not_excluded() {
    let nv = utf16_to_vec("NVIDIA");
    let other = utf16_to_vec("Basic Render Driver");
    assert_eq!(select_adapter(&vec![nv.clone(), other.clone(), nv.clone()], &nv), Some(1));
    assert_eq!(select_adapter(&vec![other.clone()], &nv), Some(0));
    assert_eq!(select_adapter(&vec![nv.clone(), nv.clone()], &nv), None);
    assert_eq!(select_adapter(&vec![], &nv), None);
}

#[test]
fn select_adapter_full_description_differs() {
    // a full 128-unit description never equals a short terminated name
    let mut desc = vec![0u16; 128];
    for (i, u) in utf16_to_vec("NVIDIA").into_iter().enumerate() {
        desc[i] = u;
    }
    assert_eq!(select_adapter(&vec![desc], &utf16_to_vec("NVIDIA")), Some(0));
}

#[test]
fn feature_levels_in_order() {
    let levels = feature_levels();
    assert_eq!(levels, vec![0xc100, 0xc000, 0xb100, 0xb000]);
    assert_eq!(levels[0], FEATURE_LEVEL_12_1);
    assert_eq!(levels[3], FEATURE_LEVEL_11_0);
}

#[test]
fn feature_level_steps() {
    assert_eq!(feature_level_step(4, 0, 0), LevelStep::Created);
    assert_eq!(feature_level_step(4, 3, 0), LevelStep::Created);
    assert_eq!(feature_level_step(4, 0, -2147467259), LevelStep::Next(1));
    assert_eq!(feature_level_step(4, 2, 1), LevelStep::Next(3));
    assert_eq!(feature_level_step(4, 3, -1), LevelStep::Exhausted);
    assert_eq!(feature_level_step(0, 0, -1), LevelStep::Exhausted);
}
