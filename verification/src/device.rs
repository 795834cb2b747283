//! The choice of a physical device and of its queue families, and the device
//! once it is open.

use crate::error::{ExtensionProperty, GfxError};
use crate::extensions::{
    check_device_extensions, device_extension_names, device_extension_versions, lists_extensions,
    missing_extensions, required_device_extensions,
};
use crate::features::{enabled_features, features_contain};
use vstd::prelude::*;

verus! {

/// The queue families that were chosen: one to draw with, one to present
/// with. They may be the same family.
#[derive(Debug, Clone, Copy, PartialEq, Eq)]
pub struct QueueFamilyIndices {
    pub graphics: u32,
    pub present: u32,
}

/// What the driver reports of one queue family of a device.
#[derive(Debug, Clone, Copy, PartialEq, Eq)]
pub struct QueueFamily {
    /// The capabilities of the family's queues, one bit for each, as Vulkan numbers them.
    pub queue_flags: u32,
    /// How many queues the family has.
    pub queue_count: u32,
    /// Whether the family can present to the surface; `None` where the driver
    /// failed to say.
    pub surface_support: Option<bool>,
}

impl QueueFamily {
    /// The family has a queue, and its queues take graphics commands.
    pub open spec fn draws(self) -> bool {
        self.queue_count != 0 && (self.queue_flags & 1) == 1
    }

    /// The family has a queue, and its queues can present to the surface.
    pub open spec fn presents(self) -> bool {
        self.queue_count != 0 && self.surface_support == Some(true)
    }
}

/// `i` is the first family of `families` that draws.
pub open spec fn is_first_drawing(families: Seq<QueueFamily>, i: int) -> bool {
    &&& 0 <= i < families.len()
    &&& families[i].draws()
    &&& forall|j: int| 0 <= j < i ==> !(#[trigger] families[j]).draws()
}

/// `i` is the first family of `families` that presents.
pub open spec fn is_first_presenting(families: Seq<QueueFamily>, i: int) -> bool {
    &&& 0 <= i < families.len()
    &&& families[i].presents()
    &&& forall|j: int| 0 <= j < i ==> !(#[trigger] families[j]).presents()
}

/// `i` is the first family of `families` that both draws and presents.
pub open spec fn is_first_drawing_and_presenting(families: Seq<QueueFamily>, i: int) -> bool {
    &&& 0 <= i < families.len()
    &&& families[i].draws() && families[i].presents()
    &&& forall|j: int|
        0 <= j < i ==> !((#[trigger] families[j]).draws() && families[j].presents())
}

/// Some family of `families` draws, and some family presents.
pub open spec fn has_queues(families: Seq<QueueFamily>) -> bool {
    &&& exists|i: int| 0 <= i < families.len() && (#[trigger] families[i]).draws()
    &&& exists|i: int| 0 <= i < families.len() && (#[trigger] families[i]).presents()
}

/// `QueueFlags::from_bits_truncate` and `QueueFlags::contains`, asked for
/// `QueueFlags::GRAPHICS`: whether the lowest bit of `queue_flags` is set.
#[verifier::external_body]
fn queue_flags_contain_graphics(queue_flags: u32) -> (r: bool)
    ensures
        r == ((queue_flags & 1) == 1),
{
    dacite::core::QueueFlags::from_bits_truncate(queue_flags).contains(
        dacite::core::QueueFlags::GRAPHICS,
    )
}

/// Chooses the queue family to draw with and the one to present with: for
/// each, the first family in the device's order that has a queue and the
/// capability. Fails when either capability is found in no family.
pub fn find_queue_family_indices(
    families: &Vec<QueueFamily>,
) -> (r: Result<QueueFamilyIndices, GfxError>)
    requires
        families.len() <= u32::MAX,
    ensures
        match r {
            Ok(indices) => {
                &&& is_first_drawing(families@, indices.graphics as int)
                &&& is_first_presenting(families@, indices.present as int)
            },
            Err(e) => e is NoSuitableQueue && !has_queues(families@),
        },
{
    let mut graphics: Option<u32> = None;
    let mut present: Option<u32> = None;
    let mut index: usize = 0;
    while index < families.len()
        invariant
            index <= families.len() <= u32::MAX,
            match graphics {
                Some(g) => g < index && is_first_drawing(families@, g as int),
                None => forall|j: int| 0 <= j < index ==> !(#[trigger] families@[j]).draws(),
            },
            match present {
                Some(p) => p < index && is_first_presenting(families@, p as int),
                None => forall|j: int| 0 <= j < index ==> !(#[trigger] families@[j]).presents(),
            },
        decreases families.len() - index,
    {
        let family = &families[index];
        if family.queue_count != 0 {
            if graphics.is_none() && queue_flags_contain_graphics(family.queue_flags) {
                graphics = Some(index as u32);
            }
            if present.is_none() {
                if let Some(true) = family.surface_support {
                    present = Some(index as u32);
                }
            }
        }
        index += 1;
    }
    match (graphics, present) {
        (Some(graphics), Some(present)) => Ok(QueueFamilyIndices { graphics, present }),
        _ => Err(GfxError::NoSuitableQueue),
    }
}

/// Chooses one queue family for both drawing and presenting: the first in the
/// device's order that has a queue and both capabilities, if there is one.
pub fn find_graphics_present_family(families: &Vec<QueueFamily>) -> (r: Option<usize>)
    ensures
        match r {
            Some(i) => is_first_drawing_and_presenting(families@, i as int),
            None => forall|j: int|
                0 <= j < families.len() ==> !((#[trigger] families@[j]).draws()
                    && families@[j].presents()),
        },
{
    let mut index: usize = 0;
    while index < families.len()
        invariant
            index <= families.len(),
            forall|j: int|
                0 <= j < index ==> !((#[trigger] families@[j]).draws() && families@[j].presents()),
        decreases families.len() - index,
    {
        let family = &families[index];
        if family.queue_count != 0 && queue_flags_contain_graphics(family.queue_flags) {
            if let Some(true) = family.surface_support {
                return Some(index);
            }
        }
        index += 1;
    }
    None
}

/// What is known of one physical device before it is chosen.
#[derive(Debug, PartialEq, Eq)]
pub struct DeviceReport {
    /// The features the device offers.
    pub supported_features: vulkano::device::Features,
    /// The device's queue families, in the driver's order.
    pub queue_families: Vec<QueueFamily>,
    /// The extensions the device offers; `None` where the driver failed to say.
    pub extensions: Option<dacite::core::DeviceExtensionsProperties>,
}

impl DeviceReport {
    /// The device offers every feature of `required`.
    pub open spec fn has_features(self, required: Set<Seq<char>>) -> bool {
        required.subset_of(enabled_features(self.supported_features))
    }

    /// The device offers every required extension.
    pub open spec fn has_extensions(self) -> bool {
        match self.extensions {
            Some(available) => missing_extensions(
                required_device_extensions(),
                device_extension_versions(available),
            ).dom().is_empty(),
            None => false,
        }
    }

    /// The device would do but for its extensions: it offers every feature of
    /// `required`, it can draw and present, and the driver has said which
    /// extensions it offers, but a required one is not among them.
    pub open spec fn lacks_only_extensions(self, required: Set<Seq<char>>) -> bool {
        &&& self.has_features(required)
        &&& has_queues(self.queue_families@)
        &&& self.extensions is Some
        &&& !self.has_extensions()
    }

    /// The device can be used: it offers every feature of `required`, it can
    /// draw, it can present to the surface, and it offers every required
    /// extension.
    pub open spec fn suitable(self, required: Set<Seq<char>>) -> bool {
        self.has_features(required) && has_queues(self.queue_families@) && self.has_extensions()
    }
}

/// The device that was chosen, and how it is to be opened.
#[derive(Debug, PartialEq, Eq)]
pub struct DeviceSettings {
    /// The device's place in the order in which the instance lists its devices.
    pub physical_device: usize,
    pub queue_family_indices: QueueFamilyIndices,
    /// The extensions to enable on the device.
    pub device_extensions: dacite::core::DeviceExtensions,
}

impl DeviceSettings {
    /// The settings are those that the choice gives for `device`, the device
    /// at `position`.
    pub open spec fn chosen_for(self, device: DeviceReport, position: usize) -> bool {
        &&& self.physical_device == position
        &&& is_first_drawing(device.queue_families@, self.queue_family_indices.graphics as int)
        &&& is_first_presenting(device.queue_families@, self.queue_family_indices.present as int)
        &&& device_extension_names(self.device_extensions) == required_device_extensions().dom()
    }
}

/// Checks one device, the one at `position` in the instance's list. The
/// features are looked at first, then the queue families, then the extensions;
/// the error is that of the first check that fails.
pub fn check_device_suitability(
    device: &DeviceReport,
    position: usize,
    required_features: &vulkano::device::Features,
) -> (r: Result<DeviceSettings, GfxError>)
    requires
        device.queue_families.len() <= u32::MAX,
    ensures
        match r {
            Ok(settings) => {
                &&& device.suitable(enabled_features(*required_features))
                &&& settings.chosen_for(*device, position)
            },
            Err(GfxError::FeatureMissing) => !device.has_features(
                enabled_features(*required_features),
            ),
            Err(GfxError::NoSuitableQueue) => {
                &&& device.has_features(enabled_features(*required_features))
                &&& !has_queues(device.queue_families@)
            },
            Err(GfxError::ExtensionsUnknown) => {
                &&& device.has_features(enabled_features(*required_features))
                &&& has_queues(device.queue_families@)
                &&& device.extensions is None
            },
            Err(GfxError::ExtensionMissing(list)) => {
                &&& device.has_features(enabled_features(*required_features))
                &&& has_queues(device.queue_families@)
                &&& !device.has_extensions()
                &&& device.extensions matches Some(available) && lists_extensions(
                    list@,
                    missing_extensions(
                        required_device_extensions(),
                        device_extension_versions(available),
                    ),
                )
            },
            Err(_) => false,
        },
{
    if !features_contain(&device.supported_features, required_features) {
        return Err(GfxError::FeatureMissing);
    }
    let queue_family_indices = match find_queue_family_indices(&device.queue_families) {
        Ok(indices) => indices,
        Err(_) => {
            return Err(GfxError::NoSuitableQueue);
        },
    };
    let device_extensions = match &device.extensions {
        Some(available) => match check_device_extensions(available) {
            Ok(enabled) => enabled,
            Err(e) => {
                return Err(e);
            },
        },
        None => {
            return Err(GfxError::ExtensionsUnknown);
        },
    };
    Ok(DeviceSettings { physical_device: position, queue_family_indices, device_extensions })
}

/// `i` is the first device of `devices` that can be used.
pub open spec fn is_first_suitable(
    devices: Seq<DeviceReport>,
    required: Set<Seq<char>>,
    i: int,
) -> bool {
    &&& 0 <= i < devices.len()
    &&& devices[i].suitable(required)
    &&& forall|j: int| 0 <= j < i ==> !(#[trigger] devices[j]).suitable(required)
}

/// `i` is the first device of `devices` that would do but for its extensions.
pub open spec fn is_first_lacking_extensions(
    devices: Seq<DeviceReport>,
    required: Set<Seq<char>>,
    i: int,
) -> bool {
    &&& 0 <= i < devices.len()
    &&& devices[i].lacks_only_extensions(required)
    &&& forall|j: int| 0 <= j < i ==> !(#[trigger] devices[j]).lacks_only_extensions(required)
}

/// `list` names the required extensions that the device at `i` does not offer.
pub open spec fn names_missing_of(
    list: Seq<ExtensionProperty>,
    devices: Seq<DeviceReport>,
    i: int,
) -> bool {
    devices[i].extensions matches Some(available) && lists_extensions(
        list,
        missing_extensions(required_device_extensions(), device_extension_versions(available)),
    )
}

/// Chooses the device: the first in the instance's order that passes every
/// check. Nothing ranks the devices beyond that order.
///
/// Where no device passes, the error tells why. If some device would do but
/// for its extensions, the error names the extensions that the first such
/// device lacks. Otherwise there is no suitable device.
pub fn find_suitable_device(
    devices: &Vec<DeviceReport>,
    required_features: &vulkano::device::Features,
) -> (r: Result<DeviceSettings, GfxError>)
    requires
        forall|i: int|
            0 <= i < devices.len() ==> (#[trigger] devices@[i]).queue_families.len() <= u32::MAX,
    ensures
        match r {
            Ok(settings) => {
                &&& is_first_suitable(
                    devices@,
                    enabled_features(*required_features),
                    settings.physical_device as int,
                )
                &&& settings.chosen_for(
                    devices@[settings.physical_device as int],
                    settings.physical_device,
                )
            },
            Err(GfxError::NoSuitableDevice) => {
                &&& forall|i: int|
                    0 <= i < devices.len() ==> !(#[trigger] devices@[i]).suitable(
                        enabled_features(*required_features),
                    )
                &&& forall|i: int|
                    0 <= i < devices.len() ==> !(#[trigger] devices@[i]).lacks_only_extensions(
                        enabled_features(*required_features),
                    )
            },
            Err(GfxError::ExtensionMissing(list)) => {
                &&& forall|i: int|
                    0 <= i < devices.len() ==> !(#[trigger] devices@[i]).suitable(
                        enabled_features(*required_features),
                    )
                &&& exists|i: int|
                    #![trigger devices@[i]]
                    is_first_lacking_extensions(
                        devices@,
                        enabled_features(*required_features),
                        i,
                    ) && names_missing_of(list@, devices@, i)
            },
            Err(_) => false,
        },
{
    let ghost required = enabled_features(*required_features);
    let mut missing: Option<Vec<ExtensionProperty>> = None;
    let ghost mut lacking: int = -1;
    let mut position: usize = 0;
    while position < devices.len()
        invariant
            position <= devices.len(),
            required == enabled_features(*required_features),
            forall|i: int|
                0 <= i < devices.len() ==> (#[trigger] devices@[i]).queue_families.len()
                    <= u32::MAX,
            forall|j: int| 0 <= j < position ==> !(#[trigger] devices@[j]).suitable(required),
            match missing {
                Some(list) => {
                    &&& lacking < position
                    &&& is_first_lacking_extensions(devices@, required, lacking)
                    &&& names_missing_of(list@, devices@, lacking)
                },
                None => forall|j: int|
                    0 <= j < position ==> !(#[trigger] devices@[j]).lacks_only_extensions(
                        required,
                    ),
            },
        decreases devices.len() - position,
    {
        match check_device_suitability(&devices[position], position, required_features) {
            Ok(settings) => {
                return Ok(settings);
            },
            Err(GfxError::ExtensionMissing(list)) => {
                if missing.is_none() {
                    missing = Some(list);
                    proof {
                        lacking = position as int;
                    }
                }
            },
            Err(_) => {},
        }
        position += 1;
    }
    match missing {
        Some(list) => {
            assert(is_first_lacking_extensions(devices@, required, lacking) && names_missing_of(
                list@,
                devices@,
                lacking,
            ));
            Err(GfxError::ExtensionMissing(list))
        },
        None => Err(GfxError::NoSuitableDevice),
    }
}

/// The queue families of which the device is asked for a queue when it is
/// opened: one queue of each family that was chosen, so one family where a
/// single family draws and presents.
pub open spec fn requested_families(indices: QueueFamilyIndices) -> Seq<u32> {
    if indices.graphics == indices.present {
        seq![indices.graphics]
    } else {
        seq![indices.graphics, indices.present]
    }
}

/// What the driver is asked for when the device is opened.
#[derive(Debug, PartialEq, Eq)]
pub struct DeviceCreateInfo {
    /// The families of which one queue each is asked for.
    pub queue_families: Vec<u32>,
    /// The extensions to enable.
    pub enabled_extensions: dacite::core::DeviceExtensions,
}

/// Says how the chosen device is to be opened: with one queue of each chosen
/// family, and with the extensions of `settings`.
pub fn create_device(settings: DeviceSettings) -> (r: DeviceCreateInfo)
    ensures
        r.queue_families@ == requested_families(settings.queue_family_indices),
        r.enabled_extensions == settings.device_extensions,
{
    let indices = settings.queue_family_indices;
    let mut queue_families: Vec<u32> = Vec::new();
    queue_families.push(indices.graphics);
    if indices.graphics != indices.present {
        queue_families.push(indices.present);
    }
    DeviceCreateInfo { queue_families, enabled_extensions: settings.device_extensions }
}

/// The memory type at `index` can hold a resource that allows the types of
/// `allowed`, one bit for each index, and has every property of `wanted`.
pub open spec fn memory_type_fits(
    allowed: u32,
    properties: Seq<u32>,
    wanted: u32,
    index: int,
) -> bool {
    &&& 0 <= index < properties.len()
    &&& index < 32
    &&& ((allowed >> (index as u32)) & 1) == 1
    &&& (properties[index] & wanted) == wanted
}

/// Chooses the kind of memory for a resource: the first memory type of the
/// device, in the device's order, that the resource allows and that has
/// every property that is wanted. `properties` holds the property bits of
/// each memory type.
pub fn choose_memory_type(allowed: u32, properties: &Vec<u32>, wanted: u32) -> (r: Option<u32>)
    ensures
        match r {
            Some(index) => {
                &&& memory_type_fits(allowed, properties@, wanted, index as int)
                &&& forall|j: int|
                    0 <= j < index ==> !memory_type_fits(allowed, properties@, wanted, j)
            },
            None => forall|j: int| !memory_type_fits(allowed, properties@, wanted, j),
        },
{
    let mut index: u32 = 0;
    while index < 32 && (index as usize) < properties.len()
        invariant
            index <= 32,
            index <= properties.len(),
            forall|j: int| 0 <= j < index ==> !memory_type_fits(allowed, properties@, wanted, j),
        decreases 32 - index,
    {
        if ((allowed >> index) & 1) == 1 && (properties[index as usize] & wanted) == wanted {
            return Some(index);
        }
        index += 1;
    }
    None
}

/// What the driver hands back for a device that it has opened.
#[derive(Debug, Clone, Copy, PartialEq, Eq)]
pub struct OpenDevice {
    pub device: u64,
    pub graphics_queue: u64,
    pub present_queue: u64,
}

/// The open device with its queues. It is made once, and nothing of it
/// changes afterwards.
#[derive(Debug, Clone, Copy, PartialEq, Eq)]
pub struct Device {
    pub physical_device: usize,
    pub queue_family_indices: QueueFamilyIndices,
    pub device: u64,
    pub graphics_queue: u64,
    pub present_queue: u64,
}

impl Device {
    /// Takes what came of opening the device at `physical_device`. A refusal
    /// by the driver is final: the error keeps the driver's code.
    pub fn new(
        physical_device: usize,
        queue_family_indices: QueueFamilyIndices,
        opened: Result<OpenDevice, i32>,
    ) -> (r: Result<Device, GfxError>)
        ensures
            r == match opened {
                Ok(open) => Ok::<Device, GfxError>(
                    Device {
                        physical_device,
                        queue_family_indices,
                        device: open.device,
                        graphics_queue: open.graphics_queue,
                        present_queue: open.present_queue,
                    },
                ),
                Err(code) => Err(GfxError::DeviceCreationFailed(code)),
            },
    {
        match opened {
            Ok(open) => Ok(
                Device {
                    physical_device,
                    queue_family_indices,
                    device: open.device,
                    graphics_queue: open.graphics_queue,
                    present_queue: open.present_queue,
                },
            ),
            Err(code) => Err(GfxError::DeviceCreationFailed(code)),
        }
    }
}

} // verus!
