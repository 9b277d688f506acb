//! What the device bring-up collaborator needs to create the instance and
//! pick a physical device, and the library's description of the devices it is
//! offered.

use vstd::prelude::*;

verus! {

/// A physical device as the bring-up collaborator reports it.
pub struct PhysicalDevice {
    pub name: String,
    pub device_type: PhysicalDeviceType,
}

/// How capable a physical device is for this library's purposes.
#[derive(Clone, Copy, Debug, PartialEq, Eq, Structural)]
pub enum PhysicalDeviceType {
    Discrete,
    Integrated,
    NotSupported,
}

/// The default device choice: accept the first discrete or integrated device.
pub fn default_physical_device_filter(physical_device: &PhysicalDevice) -> (r: bool)
    ensures
        r == (physical_device.device_type is Discrete || physical_device.device_type
            is Integrated),
{
    match physical_device.device_type {
        PhysicalDeviceType::Discrete | PhysicalDeviceType::Integrated => true,
        PhysicalDeviceType::NotSupported => false,
    }
}

/// Pack an api version from its parts, as the device expects it:
/// variant, major, minor and patch in their fixed bit fields.
pub open spec fn spec_make_api_version(variant: u32, major: u32, minor: u32, patch: u32) -> u32 {
    (variant << 29) | (major << 22) | (minor << 12) | patch
}

pub fn make_api_version(variant: u32, major: u32, minor: u32, patch: u32) -> (r: u32)
    ensures
        r == spec_make_api_version(variant, major, minor, patch),
{
    (variant << 29u32) | (major << 22u32) | (minor << 12u32) | patch
}

/// Everything the bring-up collaborator needs from application code. Surface
/// creation and a custom physical-device choice are handed to it separately
/// by the code that owns the window.
pub struct VustCreateInfo {
    pub app_name: String,
    /// Must be given from `make_api_version`.
    pub app_version: u32,
    pub enabled_instance_extensions: Vec<String>,
    pub framebuffer_size: (usize, usize),
}

impl VustCreateInfo {
    /// Name the application towards the device.
    pub fn with_app_name(self, app_name: &str) -> (r: Self)
        ensures
            r.app_name@ == app_name@,
            r.app_version == self.app_version,
            r.enabled_instance_extensions == self.enabled_instance_extensions,
            r.framebuffer_size == self.framebuffer_size,
    {
        let VustCreateInfo { app_name: _, app_version, enabled_instance_extensions, framebuffer_size } =
            self;
        VustCreateInfo {
            app_name: app_name.to_owned(),
            app_version,
            enabled_instance_extensions,
            framebuffer_size,
        }
    }

    /// Set the application version; must be given from `make_api_version`.
    pub fn with_app_version(self, app_version: u32) -> (r: Self)
        ensures
            r.app_version == app_version,
            r.app_name == self.app_name,
            r.enabled_instance_extensions == self.enabled_instance_extensions,
            r.framebuffer_size == self.framebuffer_size,
    {
        let VustCreateInfo { app_name, app_version: _, enabled_instance_extensions, framebuffer_size } =
            self;
        VustCreateInfo { app_name, app_version, enabled_instance_extensions, framebuffer_size }
    }

    /// The instance extensions the windowing collaborator requires.
    pub fn with_extensions(self, extensions: Vec<String>) -> (r: Self)
        ensures
            r.enabled_instance_extensions == extensions,
            r.app_name == self.app_name,
            r.app_version == self.app_version,
            r.framebuffer_size == self.framebuffer_size,
    {
        let VustCreateInfo { app_name, app_version, enabled_instance_extensions: _, framebuffer_size } =
            self;
        VustCreateInfo {
            app_name,
            app_version,
            enabled_instance_extensions: extensions,
            framebuffer_size,
        }
    }

    /// The framebuffer size of the surface about to be rendered to.
    pub fn with_framebuffer_size(self, framebuffer_size: (usize, usize)) -> (r: Self)
        ensures
            r.framebuffer_size == framebuffer_size,
            r.app_name == self.app_name,
            r.app_version == self.app_version,
            r.enabled_instance_extensions == self.enabled_instance_extensions,
    {
        let VustCreateInfo { app_name, app_version, enabled_instance_extensions, framebuffer_size: _ } =
            self;
        VustCreateInfo { app_name, app_version, enabled_instance_extensions, framebuffer_size }
    }
}

impl Default for VustCreateInfo {
    /// The defaults: a generic application name, version 1.0.0, no extra
    /// extensions, and a zero framebuffer until the window reports its size.
    fn default() -> (r: Self)
        ensures
            r.app_version == spec_make_api_version(0, 1, 0, 0),
            r.enabled_instance_extensions@.len() == 0,
            r.framebuffer_size == (0usize, 0usize),
    {
        VustCreateInfo {
            app_name: "Vust App".to_owned(),
            app_version: make_api_version(0, 1, 0, 0),
            enabled_instance_extensions: Vec::new(),
            framebuffer_size: (0, 0),
        }
    }
}

} // verus!
