//! PCI and USB bus listings.

use vstd::prelude::*;
use crate::components::{ComponentBus, ComponentDescription, ComponentInfo};
use crate::gpu::{resolved_identity, PciCodes};
use crate::ids::{convert_to_pci_class, convert_to_pci_names, resolved_usb_class, resolved_usb_names, usb_class, usb_vendor_and_id};
use crate::text::opt_view;

verus! {

/// A device found on a bus, with the directory it was read from.
pub struct InitialDevice {
    /// The device's directory.
    pub path: String,
    /// The device's component.
    pub info: ComponentInfo,
}

impl InitialDevice {
    /// Pairs a device's directory with its component.
    pub fn new(path: String, info: ComponentInfo) -> (r: InitialDevice)
        ensures
            r.path@ == path@,
            r.info == info,
    {
        InitialDevice { path, info }
    }

    /// The directory the device was read from.
    pub fn path(&self) -> (r: String)
        ensures
            r@ == self.path@,
    {
        self.path.clone()
    }

    /// The device's component.
    pub fn into_info(self) -> (r: ComponentInfo)
        ensures
            r == self.info,
    {
        self.info
    }
}

/// Builds the component for one PCI device from its codes: the device and
/// vendor names and the class name resolved where possible.
pub fn pci_device(codes: PciCodes) -> (c: ComponentInfo)
    ensures
        c.bus == ComponentBus::Pci,
        c.status is None,
        c.desc is NoDescription,
        resolved_identity(codes, c),
{
    let (id, vendor_id) = convert_to_pci_names(codes.device, codes.vendor);
    let class = convert_to_pci_class(codes.class);
    ComponentInfo::new(ComponentBus::Pci, id, class, vendor_id, None, ComponentDescription::NoDescription)
}

/// The readings of one USB device directory.
pub struct UsbReadings {
    /// `iManufacturer`.
    pub manufacturer: Option<String>,
    /// `iProduct`.
    pub product: Option<String>,
    /// `idVendor`.
    pub id_vendor: Option<String>,
    /// `idProduct`.
    pub id_product: Option<String>,
    /// `bDeviceClass`.
    pub class: Option<String>,
    /// `bDeviceSubClass`.
    pub subclass: Option<String>,
}

/// Builds the component for one USB device from its readings.
pub fn usb_device(r: UsbReadings) -> (c: ComponentInfo)
    ensures
        c.bus == ComponentBus::Usb,
        c.status is None,
        c.desc is NoDescription,
        (opt_view(c.vendor_id), opt_view(c.id)) == resolved_usb_names(
            opt_view(r.manufacturer),
            opt_view(r.product),
            opt_view(r.id_vendor),
            opt_view(r.id_product),
        ),
        opt_view(c.class) == resolved_usb_class(opt_view(r.class), opt_view(r.subclass)),
{
    let (vendor_id, id) = usb_vendor_and_id(r.manufacturer, r.product, r.id_vendor, r.id_product);
    let class = usb_class(r.class, r.subclass);
    ComponentInfo::new(ComponentBus::Usb, id, class, vendor_id, None, ComponentDescription::NoDescription)
}

} // verus!
