use dtc_client::dcs::{aircraft_by_name, Aircraft};

#[test]
fn f16_is_recognised_by_its_dcs_name() {
    assert_eq!(aircraft_by_name(String::from("F-16C_50")), Aircraft::F_16Cb50);
}

#[test]
fn other_names_are_unknown() {
    assert_eq!(aircraft_by_name(String::from("FA-18C_hornet")), Aircraft::Unknown);
    assert_eq!(aircraft_by_name(String::from("AH-64D_BLK_II")), Aircraft::Unknown);
    assert_eq!(aircraft_by_name(String::from("")), Aircraft::Unknown);
    assert_eq!(aircraft_by_name(String::from("F-16C_50 ")), Aircraft::Unknown);
    assert_eq!(aircraft_by_name(String::from("\"F-16C_50\"")), Aircraft::Unknown);
}

#[test]
fn friendly_names() {
    assert_eq!(Aircraft::F_16Cb50.get_friendly_name(), "F-16C block 50");
    assert_eq!(Aircraft::FA_18C.get_friendly_name(), "F/A 18C Hornet");
    assert_eq!(Aircraft::AH_64D.get_friendly_name(), "AH-64D Apache");
    assert_eq!(Aircraft::Unknown.get_friendly_name(), "Unsupported aircraft");
}

#[test]
fn only_the_f16_is_ever_recognised() {
    for name in ["F-16C_50", "FA-18C_hornet", "AH-64D_BLK_II", "Su-27", "", "f-16c_50"] {
        let aircraft = aircraft_by_name(String::from(name));
        assert!(aircraft == Aircraft::F_16Cb50 || aircraft == Aircraft::Unknown);
        assert_eq!(aircraft == Aircraft::F_16Cb50, name == "F-16C_50");
    }
}
