use hardware_temp::preflight::{
    bullet_lines, check_required_dlls, missing_dlls, missing_dlls_message, required_dlls,
    REQUIRED_DLL_COUNT,
};

const HEAD: &str =
    "ERROR: The following required DLL files are missing from the executable directory:\n";
const TAIL: &str =
    "\n\nPlease ensure all DLL files are placed in the same directory as the executable.";

fn expected_message(lines: &str, dir: &str) -> String {
    format!("{}{}\n\nExecutable directory: {}{}", HEAD, lines, dir, TAIL)
}

#[test]
fn four_files_are_required_the_module_first() {
    assert_eq!(
        required_dlls(),
        vec![
            "HardwareTemp.dll",
            "HardwareWrapper.dll",
            "LibreHardwareMonitorLib.dll",
            "HidSharp.dll"
        ]
    );
    assert_eq!(required_dlls().len(), REQUIRED_DLL_COUNT);
}

#[test]
fn the_check_passes_when_every_file_is_present() {
    assert_eq!(check_required_dlls(&[true, true, true, true], "C:\\monitor"), Ok(()));
    assert!(missing_dlls(&[true, true, true, true]).is_empty());
}

#[test]
fn one_absent_file_is_the_only_one_listed() {
    let dir = "C:\\monitor";
    let result = check_required_dlls(&[true, true, false, true], dir);
    let message = result.unwrap_err();
    assert_eq!(message, expected_message("  - LibreHardwareMonitorLib.dll", dir));
    assert!(!message.contains("  - HardwareTemp.dll"));
    assert!(!message.contains("  - HardwareWrapper.dll"));
    assert!(!message.contains("  - HidSharp.dll"));
}

#[test]
fn every_absent_file_is_listed_not_only_the_first() {
    let dir = "/opt/monitor/bin";
    let message = check_required_dlls(&[false, true, false, false], dir).unwrap_err();
    assert_eq!(
        message,
        expected_message(
            "  - HardwareTemp.dll\n  - LibreHardwareMonitorLib.dll\n  - HidSharp.dll",
            dir
        )
    );
    assert!(!message.contains("HardwareWrapper.dll"));
}

#[test]
fn all_files_absent_lists_all_four_in_order() {
    let message = check_required_dlls(&[false; 4], "").unwrap_err();
    assert_eq!(
        message,
        expected_message(
            "  - HardwareTemp.dll\n  - HardwareWrapper.dll\n  - LibreHardwareMonitorLib.dll\n  - HidSharp.dll",
            ""
        )
    );
}

#[test]
fn each_single_absence_is_reported_by_name() {
    let names = required_dlls();
    for absent in 0..4 {
        let mut present = [true; 4];
        present[absent] = false;
        assert_eq!(missing_dlls(&present), vec![names[absent]]);
        let message = check_required_dlls(&present, "dir").unwrap_err();
        for (i, name) in names.iter().enumerate() {
            assert_eq!(message.contains(&format!("  - {}", name)), i == absent);
        }
    }
}

#[test]
fn every_combination_lists_exactly_the_absent_files() {
    let names = required_dlls();
    for mask in 0u32..16 {
        let present = [mask & 1 != 0, mask & 2 != 0, mask & 4 != 0, mask & 8 != 0];
        let expected: Vec<&str> =
            (0..4).filter(|i| !present[*i]).map(|i| names[i]).collect();
        assert_eq!(missing_dlls(&present), expected);
        let result = check_required_dlls(&present, "here");
        assert_eq!(result.is_ok(), expected.is_empty());
        if let Err(message) = result {
            assert_eq!(message, missing_dlls_message(&expected, "here"));
        }
    }
}

#[test]
fn the_list_has_one_line_for_each_name() {
    assert_eq!(bullet_lines(&vec![]), "");
    assert_eq!(bullet_lines(&vec!["a.dll"]), "  - a.dll");
    assert_eq!(bullet_lines(&vec!["a.dll", "b.dll"]), "  - a.dll\n  - b.dll");
}

#[test]
fn the_message_names_the_directory() {
    let message = missing_dlls_message(&vec!["HidSharp.dll"], "D:\\tools\\hw");
    assert_eq!(message, expected_message("  - HidSharp.dll", "D:\\tools\\hw"));
    assert!(message.contains("\n\nExecutable directory: D:\\tools\\hw\n\n"));
}
