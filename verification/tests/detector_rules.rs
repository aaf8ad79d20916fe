use juragan_dsp::detector::{decide, freq_to_bin, Detection};
use juragan_dsp::filters::{filter_index_accepted, filter_type_for_id, FilterType};

#[test]
fn decision_table() {
    // No active reference: never a decision, whatever the ratios say.
    assert_eq!(decide(false, false, false), Detection::Hold);
    assert_eq!(decide(false, false, true), Detection::Hold);
    assert_eq!(decide(false, true, false), Detection::Hold);
    assert_eq!(decide(false, true, true), Detection::Hold);
    // Presence energy wins over everything: genuine hi-fi material.
    assert_eq!(decide(true, true, false), Detection::Disarm);
    assert_eq!(decide(true, true, true), Detection::Disarm);
    // Dead cutoff band without presence energy: brick-wall evidence.
    assert_eq!(decide(true, false, true), Detection::Arm);
    // Borderline cutoff ratio: hold, to avoid flicker.
    assert_eq!(decide(true, false, false), Detection::Hold);
}

#[test]
fn band_edges_at_48000() {
    assert_eq!(freq_to_bin(2000, 48000, 4096), 170);
    assert_eq!(freq_to_bin(4500, 48000, 4096), 384);
    assert_eq!(freq_to_bin(8000, 48000, 4096), 682);
    assert_eq!(freq_to_bin(12000, 48000, 4096), 1024);
    assert_eq!(freq_to_bin(14000, 48000, 4096), 1194);
    assert_eq!(freq_to_bin(18000, 48000, 4096), 1536);
}

#[test]
fn band_edges_at_44100() {
    assert_eq!(freq_to_bin(2000, 44100, 4096), 185);
    assert_eq!(freq_to_bin(4500, 44100, 4096), 417);
    assert_eq!(freq_to_bin(8000, 44100, 4096), 743);
    assert_eq!(freq_to_bin(12000, 44100, 4096), 1114);
    assert_eq!(freq_to_bin(14000, 44100, 4096), 1300);
    assert_eq!(freq_to_bin(18000, 44100, 4096), 1671);
}

#[test]
fn type_id_mapping() {
    assert_eq!(filter_type_for_id(0), FilterType::LowShelf);
    assert_eq!(filter_type_for_id(1), FilterType::Peaking);
    assert_eq!(filter_type_for_id(2), FilterType::HighShelf);
    assert_eq!(filter_type_for_id(3), FilterType::Peaking);
    assert_eq!(filter_type_for_id(255), FilterType::Peaking);
}

#[test]
fn band_index_rule() {
    assert!(filter_index_accepted(0));
    assert!(filter_index_accepted(10));
    assert!(!filter_index_accepted(11));
    assert!(!filter_index_accepted(usize::MAX));
}
