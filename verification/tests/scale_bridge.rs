use hisab_mimamsa::unified::scale_bridge::{
    dominant_index, element_tally, house_tally, modality_tally, planet_weight, sign_element,
    sign_modality, NUM_PLANETS, NUM_SIGNS,
};

/// One body per sign, starting at Aries.
fn spread_signs() -> [usize; 10] {
    [0, 1, 2, 3, 4, 5, 6, 7, 8, 9]
}

#[test]
fn planet_weights_luminaries_double() {
    assert_eq!(planet_weight(0), 2);
    assert_eq!(planet_weight(1), 2);
    for p in 2..NUM_PLANETS {
        assert_eq!(planet_weight(p), 1);
    }
}

#[test]
fn sign_element_table() {
    let expected = [0, 1, 2, 3, 0, 1, 2, 3, 0, 1, 2, 3];
    for s in 0..NUM_SIGNS {
        assert_eq!(sign_element(s), expected[s]);
    }
}

#[test]
fn sign_modality_table() {
    let expected = [0, 1, 2, 0, 1, 2, 0, 1, 2, 0, 1, 2];
    for s in 0..NUM_SIGNS {
        assert_eq!(sign_modality(s), expected[s]);
    }
}

#[test]
fn element_tally_all_aries_is_all_fire() {
    assert_eq!(element_tally(&[0; 10]), [12, 0, 0, 0]);
}

#[test]
fn element_tally_spread() {
    // Sun (Aries, 2), Moon (Taurus, 2), then one body in each of Gemini..Capricorn.
    let t = element_tally(&spread_signs());
    assert_eq!(t, [4, 4, 2, 2]);
    assert_eq!(t.iter().sum::<u32>(), 12);
}

#[test]
fn modality_tally_spread() {
    let t = modality_tally(&spread_signs());
    assert_eq!(t, [5, 4, 3]);
    assert_eq!(t.iter().sum::<u32>(), 12);
}

#[test]
fn modality_tally_all_pisces() {
    assert_eq!(modality_tally(&[11; 10]), [0, 0, 12]);
}

#[test]
fn house_tally_spread() {
    let t = house_tally(&spread_signs());
    assert_eq!(t, [2, 2, 1, 1, 1, 1, 1, 1, 1, 1, 0, 0]);
    assert_eq!(t.iter().sum::<u32>(), 12);
}

#[test]
fn house_tally_luminaries_in_last_house() {
    let t = house_tally(&[11, 11, 0, 0, 0, 0, 0, 0, 0, 0]);
    assert_eq!(t[11], 4);
    assert_eq!(t[0], 8);
}

#[test]
fn dominant_index_takes_last_of_ties() {
    assert_eq!(dominant_index(&[4, 4, 2, 2]), 1);
    assert_eq!(dominant_index(&[1, 3, 3]), 2);
    assert_eq!(dominant_index(&[7]), 0);
    assert_eq!(dominant_index(&[12, 0, 0, 0]), 0);
}

#[test]
fn dominant_index_unique_maximum() {
    assert_eq!(dominant_index(&[5, 4, 3]), 0);
    assert_eq!(dominant_index(&[0, 0, 9, 1]), 2);
}
