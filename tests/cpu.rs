use libghr::components::{ComponentBus, ComponentDescription};
use libghr::cpu::{core_cache, core_cache_entry, core_freq, core_processor_id, core_range, cpu, cpu_from_record, Cache, CacheFiles, CacheKind, CoreCache, CoreReading, Frequency};
use libghr::error::GhrError;

fn files(path: &str, level: &str, size: &str, kind: &str) -> CacheFiles {
    CacheFiles { path: path.to_string(), level: Some(level.to_string()), size: Some(size.to_string()), kind: Some(kind.to_string()) }
}

#[test]
fn check_freqs() {
    let f = core_freq(Some("400000\n".to_string()), Some("4700000\n".to_string()));
    assert_eq!(f, Frequency { min: Some(400), max: Some(4700) });
    assert_eq!(core_freq(None, Some("x".to_string())), Frequency { min: None, max: None });
}

#[test]
fn core_range_reads_present_file() {
    assert_eq!(core_range("0-7\n"), Ok((0, 7)));
    assert!(matches!(core_range("0"), Err(GhrError::ComponentInfoInaccessible(_))));
    assert!(matches!(core_range("a-7"), Err(GhrError::ComponentInfoInaccessible(_))));
}

#[test]
fn cache_entries() {
    let c = core_cache_entry(&files("/sys/devices/system/cpu/cpu0/cache/index0", "1\n", "32K\n", "Data\n")).unwrap();
    assert_eq!(c, CoreCache { level: 1, size: 32 * 1024, kind: CacheKind::Data });
    assert!(core_cache_entry(&files("/sys/devices/system/cpu/cpu0/cache/uevent", "1", "32K", "Data")).is_none());
    assert!(core_cache_entry(&files("/cache/index1", "1", "32K", "Weird")).is_none());
    assert!(core_cache_entry(&files("/cache/index1", "1", "9999999K", "Data")).is_none());
    let all = core_cache(&vec![
        files("/c/index0", "1", "48K", "Data"),
        files("/c/uevent", "", "", ""),
        files("/c/index3", "3", "16384K", "Unified"),
    ]);
    assert_eq!(all.len(), 2);
    assert_eq!(all[1].level, 3);
}

#[test]
fn processor_id_defaults_to_zero() {
    assert_eq!(core_processor_id(Some("1\n".to_string())), 1);
    assert_eq!(core_processor_id(Some("x".to_string())), 0);
    assert_eq!(core_processor_id(None), 0);
}

fn reading(pid: u32, num: u32, min: u32, max: Option<u32>, level: u32) -> CoreReading {
    CoreReading {
        processor_id: pid,
        core_num: num,
        cache: vec![CoreCache { level, size: 1024, kind: CacheKind::Unified }],
        speeds: Frequency { min: Some(min), max },
    }
}

#[test]
fn cores_are_grouped_per_processor() {
    let cores = vec![reading(0, 0, 400, Some(3000), 1), reading(1, 1, 800, Some(2000), 2), reading(0, 2, 500, Some(4700), 3), reading(0, 3, 600, Some(4700), 4)];
    let models = vec![Some("Model A".to_string()), Some("Model B".to_string())];
    let vendors = vec![Some("AuthenticAMD".to_string())];
    let cpus = cpu(&cores, &models, &vendors);
    assert_eq!(cpus.len(), 2);
    assert_eq!(cpus[0].bus, ComponentBus::Sys);
    assert_eq!(cpus[0].id.clone().unwrap(), "Model A");
    assert_eq!(cpus[0].vendor_id.clone().unwrap(), "AuthenticAMD");
    assert!(cpus[1].vendor_id.is_none());
    let ComponentDescription::CpuDescription(d) = &cpus[0].desc else { panic!() };
    assert_eq!(d.clock_speed, Frequency { min: Some(500), max: Some(4700) });
    assert_eq!(d.core_ct, Some(3));
    assert_eq!(d.cache.clone().unwrap(), vec![Cache::L1 { size: 1024, speed: None }, Cache::L3 { size: 1024, speed: None }]);
    assert_eq!(d.cores.clone().unwrap().len(), 3);
    let ComponentDescription::CpuDescription(d) = &cpus[1].desc else { panic!() };
    assert_eq!(d.core_ct, Some(1));
}

#[test]
fn cache_level_conversion() {
    assert_eq!(Cache::try_from(CoreCache { level: 2, size: 5, kind: CacheKind::Data }), Ok(Cache::L2 { size: 5, speed: None }));
    assert!(matches!(Cache::try_from(CoreCache { level: 4, size: 5, kind: CacheKind::Data }), Err(GhrError::ComponentInfoWeirdInfo(_))));
}

#[test]
fn check_amd_cpu_windows() {
    let c = cpu_from_record(Some("AMD Ryzen 7 5800X 8-Core Processor             ".to_string()), Some("AuthenticAMD".to_string()), Some(3801), Some(8));
    assert_eq!(c.id().unwrap(), "AMD Ryzen 7 5800X 8-Core Processor");
    assert_eq!(c.vendor_id().unwrap(), "AuthenticAMD");
    let ComponentDescription::CpuDescription(d) = c.desc() else { panic!("wrong desc") };
    assert_eq!(d.clock_speed.max, Some(3801));
}
