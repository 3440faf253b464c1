use libghr::components::{ComponentBus, ComponentDescription};
use libghr::gpu::{amdgpu, clock, driver_kind, generic, gpu_for_driver, i915, vendor_gpu, GpuDescription, GpuDriver, PciCodes, VendorBus, VendorGpuReadings};

fn amd_codes() -> PciCodes {
    PciCodes {
        class: Some("0x030000".to_string()),
        device: Some("0x73df".to_string()),
        vendor: Some("0x1002".to_string()),
    }
}

#[test]
fn amdgpu_linux_clock() {
    let clk = clock("0: 500Mhz\n1: 2880Mhz *\n").unwrap();
    assert_eq!(clk, 2880, "clock speed func");
}

#[test]
fn amdgpu_linux_memory_clock() {
    let clk = clock("0: 96Mhz\n1: 456Mhz\n2: 673Mhz\n3: 1124Mhz *").unwrap();
    assert_eq!(clk, 1124, "mem speed func");
}

#[test]
fn clock_edge_cases() {
    assert_eq!(clock(""), None);
    assert_eq!(clock("0:"), None);
    assert_eq!(clock("0: fastMhz"), None);
    assert_eq!(clock("0: 300Mhz\r\n1: 800Mhz\r\n"), Some(800));
}

#[test]
fn amdgpu_linux_device_specs() {
    let c = amdgpu(amd_codes(), Some(12272 * 1_048_576), Some("1: 2880Mhz *".to_string()), Some("3: 1124Mhz *".to_string()));
    let ComponentDescription::GpuDescription(specs) = c.desc else {
        panic!("expected a gpu description");
    };
    assert_eq!(12272, specs.video_memory.unwrap(), "total vram");
    assert_eq!(2880, specs.clock_speed.unwrap(), "clock speed");
    assert_eq!(1124, specs.video_memory_speed.unwrap(), "vram clock");
    assert_eq!(c.class.unwrap(), "Display controller (VGA compatible controller)");
    assert_eq!(c.vendor_id.unwrap(), "Advanced Micro Devices, Inc. [AMD/ATI]");
}

#[test]
fn driver_dispatch() {
    assert_eq!(driver_kind("amdgpu"), GpuDriver::Amdgpu);
    assert_eq!(driver_kind("AMDGPU"), GpuDriver::Amdgpu);
    assert_eq!(driver_kind("i915"), GpuDriver::I915);
    assert_eq!(driver_kind("NVIDIA"), GpuDriver::Nvidia);
    assert_eq!(driver_kind("nouveau"), GpuDriver::Generic);
    assert!(gpu_for_driver("nvidia", amd_codes(), None, None, None, None).is_none());
    assert!(gpu_for_driver("simpledrm", amd_codes(), None, None, None, None).is_some());
}

#[test]
fn i915_zero_frequency_is_unknown() {
    let ComponentDescription::GpuDescription(d) = i915(amd_codes(), Some(0)).desc else { panic!() };
    assert_eq!(d.clock_speed, None);
    let ComponentDescription::GpuDescription(d) = i915(amd_codes(), Some(1450)).desc else { panic!() };
    assert_eq!(d.clock_speed, Some(1450));
    let ComponentDescription::GpuDescription(d) = i915(amd_codes(), Some(u32::MAX as u64 + 1)).desc else { panic!() };
    assert_eq!(d.clock_speed, None);
}

#[test]
fn dispatch_descriptions() {
    let c = gpu_for_driver("amdgpu", amd_codes(), Some(2 * 1_048_576), Some("0: 9Mhz".to_string()), None, Some(5)).unwrap();
    assert_eq!(c.desc, ComponentDescription::GpuDescription(GpuDescription { clock_speed: Some(9), video_memory: Some(2), video_memory_speed: None }));
    let c = gpu_for_driver("i915", amd_codes(), Some(2 * 1_048_576), None, None, Some(5)).unwrap();
    assert_eq!(c.desc, ComponentDescription::GpuDescription(GpuDescription { clock_speed: Some(5), video_memory: None, video_memory_speed: None }));
}

#[test]
fn generic_gpu_has_identity_only() {
    let c = generic(amd_codes());
    assert_eq!(c.bus, ComponentBus::Pci);
    assert_eq!(c.desc, ComponentDescription::GpuDescription(GpuDescription { clock_speed: None, video_memory: None, video_memory_speed: None }));
}

#[test]
fn vendor_library_gpu() {
    let c = vendor_gpu(VendorGpuReadings {
        graphics_clock: Some(2100),
        memory_total: Some(8 * 1024 * 1_048_576),
        memory_clock: Some(7000),
        bus: Some(VendorBus::Pcie),
        name: Some("Card".to_string()),
        brand: Some("GeForce".to_string()),
    });
    assert_eq!(c.bus, ComponentBus::Pcie);
    assert_eq!(c.vendor_id.clone().unwrap(), "NVIDIA (GeForce)");
    let ComponentDescription::GpuDescription(d) = c.desc else { panic!() };
    assert_eq!(d.video_memory, Some(8192));
    let c = vendor_gpu(VendorGpuReadings { graphics_clock: None, memory_total: None, memory_clock: None, bus: Some(VendorBus::Unknown), name: None, brand: None });
    assert_eq!(c.bus, ComponentBus::Pci);
}
