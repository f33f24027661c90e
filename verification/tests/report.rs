use ursa_minor_haptics::report::{restart_report, vibration_report};

#[test]
fn vibration_report_carries_the_intensity_in_its_ninth_byte() {
    assert_eq!(vibration_report(0), [0x02, 7, 191, 0, 0, 3, 0x49, 0, 0, 0, 0, 0, 0, 0]);
    assert_eq!(vibration_report(200), [0x02, 7, 191, 0, 0, 3, 0x49, 0, 200, 0, 0, 0, 0, 0]);
    assert_eq!(vibration_report(255), [0x02, 7, 191, 0, 0, 3, 0x49, 0, 255, 0, 0, 0, 0, 0]);
}

#[test]
fn vibration_reports_differ_in_the_intensity_only() {
    let silent = vibration_report(0);
    for value in 0..=255u8 {
        let report = vibration_report(value);
        assert_eq!(report.len(), 14);
        for i in 0..14 {
            if i == 8 {
                assert_eq!(report[i], value);
            } else {
                assert_eq!(report[i], silent[i]);
            }
        }
    }
}

#[test]
fn restart_report_is_fixed() {
    assert_eq!(
        restart_report(),
        [0x02, 0x01, 0x00, 0x00, 0x00, 0x01, 0x04, 0x00, 0x00, 0x00, 0x00, 0x00, 0x00, 0x00]
    );
}
