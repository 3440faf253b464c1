use libghr::os::{find_distro_name, os_info, OperatingSystemInfo, Uname};
use libghr::sleep::{linux_sleep_info, parse_state_file, Sleep, SleepMode, SystemConfInfo};

#[test]
fn check_states() {
    let sleep = linux_sleep_info(Some("freeze mem disk\n".to_string()));
    let expected = Sleep {
        s0: SleepMode::Supported,
        s1: SleepMode::Unsupported,
        s3: SleepMode::Unsupported,
        s4: SleepMode::Supported,
        ..Sleep::default()
    };
    assert_eq!(expected, sleep);
}

#[test]
fn unreadable_state_file_leaves_everything_unknown() {
    assert_eq!(linux_sleep_info(None), Sleep::default());
}

#[test]
fn parse_state_file_updates_in_place() {
    let mut s = Sleep::default();
    s.s0ix = SleepMode::Supported;
    parse_state_file(&mut s, "s2idle shallow deep");
    assert_eq!(s.s0, SleepMode::Supported);
    assert_eq!(s.s1, SleepMode::Supported);
    assert_eq!(s.s2, SleepMode::Unknown);
    assert_eq!(s.s0ix, SleepMode::Supported);
    assert_eq!(s.s3, SleepMode::Supported);
    assert_eq!(s.s4, SleepMode::Unsupported);
    assert_eq!(SleepMode::from(true), SleepMode::Supported);
    assert_eq!(SystemConfInfo::new(s).sleep, s);
}

#[test]
fn get_distro_name() {
    let text = "NAME=\"GHR Linux\"\nVERSION=\"40 (Forty)\"\nPRETTY_NAME=\"GHR Linux 40 (Forty)\"\nID=ghr\n";
    assert_eq!(find_distro_name(text).unwrap(), "GHR Linux 40 (Forty)");
}

#[test]
fn distro_name_missing() {
    assert_eq!(find_distro_name("NAME=x\nID=y"), None);
    assert_eq!(find_distro_name(""), None);
}

fn uname() -> Uname {
    Uname {
        sysname: "Linux".to_string(),
        release: "6.11.3-200.fc40.x86_64".to_string(),
        machine: "x86_64".to_string(),
        version: "#1 SMP".to_string(),
        domainname: "(none)".to_string(),
        nodename: "host".to_string(),
    }
}

#[test]
fn os_info_from_uname() {
    let os = os_info(uname(), Some("PRETTY_NAME=\"Fedora Linux 40 (Forty)\"".to_string()));
    assert_eq!(os.name(), "Linux");
    assert_eq!(os.version(), "6.11.3-200.fc40.x86_64");
    assert_eq!(os.arch(), "x86_64");
    assert_eq!(os.distro_name().unwrap(), "Fedora Linux 40 (Forty)");
    assert_eq!(os.other().len(), 3);
    assert_eq!(os.other()[2], ("nodename".to_string(), "host".to_string()));
    let plain = OperatingSystemInfo::new("Windows".to_string(), None, "10.0.22631".to_string(), "AMD64".to_string(), vec![]);
    assert!(plain.distro_name().is_none());
    assert!(plain.other().is_empty());
}
