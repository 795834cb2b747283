//! The sets of extensions of the Vulkan instance and of a device, as `dacite`
//! holds them, and the check that everything required is on offer.

use crate::error::{ExtensionProperty, GfxError};
use vstd::prelude::*;

verus! {

/// `dacite::core::DeviceExtensionsProperties`: device extensions by name, each with a revision.
#[verifier::external_type_specification]
#[verifier::external_body]
pub struct ExDeviceExtensionsProperties(dacite::core::DeviceExtensionsProperties);

/// `dacite::core::DeviceExtensions`: a set of device extensions by name.
#[verifier::external_type_specification]
#[verifier::external_body]
pub struct ExDeviceExtensions(dacite::core::DeviceExtensions);

/// `dacite::core::InstanceExtensionsProperties`: instance extensions by name, each with a revision.
#[verifier::external_type_specification]
#[verifier::external_body]
pub struct ExInstanceExtensionsProperties(dacite::core::InstanceExtensionsProperties);

/// `dacite::core::InstanceExtensions`: a set of instance extensions by name.
#[verifier::external_type_specification]
#[verifier::external_body]
pub struct ExInstanceExtensions(dacite::core::InstanceExtensions);

/// What a `DeviceExtensionsProperties` holds: the revision of each extension in it, by name.
pub uninterp spec fn device_extension_versions(p: dacite::core::DeviceExtensionsProperties) -> Map<Seq<char>, u32>;

/// What a `DeviceExtensions` holds: the names of the extensions in it.
pub uninterp spec fn device_extension_names(e: dacite::core::DeviceExtensions) -> Set<Seq<char>>;

/// What an `InstanceExtensionsProperties` holds: the revision of each extension in it, by name.
pub uninterp spec fn instance_extension_versions(p: dacite::core::InstanceExtensionsProperties) -> Map<Seq<char>, u32>;

/// What an `InstanceExtensions` holds: the names of the extensions in it.
pub uninterp spec fn instance_extension_names(e: dacite::core::InstanceExtensions) -> Set<Seq<char>>;

/// The required extensions that `available` does not satisfy: those it lacks,
/// and those it offers only in an older revision than the one required. Each
/// keeps the revision that was required.
pub open spec fn missing_extensions(
    required: Map<Seq<char>, u32>,
    available: Map<Seq<char>, u32>,
) -> Map<Seq<char>, u32> {
    Map::new(
        |name: Seq<char>|
            required.dom().contains(name) && (!available.dom().contains(name) || required[name]
                > available[name]),
        |name: Seq<char>| required[name],
    )
}

/// `extensions` after `name` was added at `spec_version`: an extension that is
/// already there keeps the newer of the two revisions.
pub open spec fn with_extension(
    extensions: Map<Seq<char>, u32>,
    name: Seq<char>,
    spec_version: u32,
) -> Map<Seq<char>, u32> {
    if extensions.dom().contains(name) && extensions[name] >= spec_version {
        extensions
    } else {
        extensions.insert(name, spec_version)
    }
}

/// `list` names each extension of `extensions` once, with its revision, and nothing else.
pub open spec fn lists_extensions(
    list: Seq<ExtensionProperty>,
    extensions: Map<Seq<char>, u32>,
) -> bool {
    &&& forall|i: int|
        0 <= i < list.len() ==> extensions.contains_pair(
            (#[trigger] list[i]).name@,
            list[i].spec_version,
        )
    &&& forall|name: Seq<char>| #[trigger]
        extensions.dom().contains(name) ==> exists|i: int|
            0 <= i < list.len() && (#[trigger] list[i]).name@ == name
    &&& forall|i: int, j: int|
        0 <= i < j < list.len() ==> (#[trigger] list[i]).name@ != (#[trigger] list[j]).name@
}

/// The device extensions that the pipeline cannot do without: the swapchain
/// extension, at revision 67 or newer.
pub open spec fn required_device_extensions() -> Map<Seq<char>, u32> {
    map!["VK_KHR_swapchain"@ => 67u32]
}

/// `DeviceExtensionsProperties::new`: the result holds no extension.
#[verifier::external_body]
fn device_properties_new() -> (r: dacite::core::DeviceExtensionsProperties)
    ensures
        device_extension_versions(r).dom().is_empty(),
{
    dacite::core::DeviceExtensionsProperties::new()
}

/// `DeviceExtensionsProperties::add_khr_swapchain`: adds `VK_KHR_swapchain` at
/// `spec_version`, or raises its revision to `spec_version` where it is there
/// at an older one.
#[verifier::external_body]
fn device_properties_add_khr_swapchain(
    p: &mut dacite::core::DeviceExtensionsProperties,
    spec_version: u32,
)
    ensures
        device_extension_versions(*final(p)) == with_extension(
            device_extension_versions(*old(p)),
            "VK_KHR_swapchain"@,
            spec_version,
        ),
{
    p.add_khr_swapchain(spec_version);
}

/// `DeviceExtensionsProperties::difference`: the extensions of `required` that
/// `available` lacks or holds at an older revision, at the revision of `required`.
#[verifier::external_body]
fn device_properties_difference(
    required: &dacite::core::DeviceExtensionsProperties,
    available: &dacite::core::DeviceExtensionsProperties,
) -> (r: dacite::core::DeviceExtensionsProperties)
    ensures
        device_extension_versions(r) == missing_extensions(
            device_extension_versions(*required),
            device_extension_versions(*available),
        ),
{
    required.difference(available)
}

/// `DeviceExtensionsProperties::is_empty`: whether it holds no extension.
#[verifier::external_body]
fn device_properties_is_empty(p: &dacite::core::DeviceExtensionsProperties) -> (r: bool)
    ensures
        r == device_extension_versions(*p).dom().is_empty(),
{
    p.is_empty()
}

/// `DeviceExtensionsProperties::to_extensions`: the names, without the revisions.
#[verifier::external_body]
fn device_properties_to_extensions(
    p: &dacite::core::DeviceExtensionsProperties,
) -> (r: dacite::core::DeviceExtensions)
    ensures
        device_extension_names(r) == device_extension_versions(*p).dom(),
{
    p.to_extensions()
}

/// `DeviceExtensionsProperties::properties`: each extension once, with its
/// revision. The order is the one in which `dacite` walks its table, so
/// nothing is said of it.
#[verifier::external_body]
fn device_properties_list(
    p: &dacite::core::DeviceExtensionsProperties,
) -> (r: Vec<ExtensionProperty>)
    ensures
        lists_extensions(r@, device_extension_versions(*p)),
{
    p.properties().into_iter().map(
        |(name, spec_version)| ExtensionProperty { name: name.to_owned(), spec_version },
    ).collect()
}

/// `InstanceExtensionsProperties::difference`: the extensions of `required` that
/// `available` lacks or holds at an older revision, at the revision of `required`.
#[verifier::external_body]
fn instance_properties_difference(
    required: &dacite::core::InstanceExtensionsProperties,
    available: &dacite::core::InstanceExtensionsProperties,
) -> (r: dacite::core::InstanceExtensionsProperties)
    ensures
        instance_extension_versions(r) == missing_extensions(
            instance_extension_versions(*required),
            instance_extension_versions(*available),
        ),
{
    required.difference(available)
}

/// `InstanceExtensionsProperties::is_empty`: whether it holds no extension.
#[verifier::external_body]
fn instance_properties_is_empty(p: &dacite::core::InstanceExtensionsProperties) -> (r: bool)
    ensures
        r == instance_extension_versions(*p).dom().is_empty(),
{
    p.is_empty()
}

/// `InstanceExtensionsProperties::to_extensions`: the names, without the revisions.
#[verifier::external_body]
fn instance_properties_to_extensions(
    p: &dacite::core::InstanceExtensionsProperties,
) -> (r: dacite::core::InstanceExtensions)
    ensures
        instance_extension_names(r) == instance_extension_versions(*p).dom(),
{
    p.to_extensions()
}

/// `InstanceExtensionsProperties::properties`: each extension once, with its
/// revision. The order is the one in which `dacite` walks its table, so
/// nothing is said of it.
#[verifier::external_body]
fn instance_properties_list(
    p: &dacite::core::InstanceExtensionsProperties,
) -> (r: Vec<ExtensionProperty>)
    ensures
        lists_extensions(r@, instance_extension_versions(*p)),
{
    p.properties().into_iter().map(
        |(name, spec_version)| ExtensionProperty { name: name.to_owned(), spec_version },
    ).collect()
}

/// Checks what a device offers against what the pipeline needs of it.
///
/// Succeeds with the set of extensions to enable when `available` holds every
/// required extension at the required revision or a newer one. Otherwise the
/// error names each extension that is absent or too old.
pub fn check_device_extensions(
    available: &dacite::core::DeviceExtensionsProperties,
) -> (r: Result<dacite::core::DeviceExtensions, GfxError>)
    ensures
        match r {
            Ok(enabled) => {
                &&& missing_extensions(
                    required_device_extensions(),
                    device_extension_versions(*available),
                ).dom().is_empty()
                &&& device_extension_names(enabled) == required_device_extensions().dom()
            },
            Err(GfxError::ExtensionMissing(list)) => {
                &&& !missing_extensions(
                    required_device_extensions(),
                    device_extension_versions(*available),
                ).dom().is_empty()
                &&& lists_extensions(
                    list@,
                    missing_extensions(
                        required_device_extensions(),
                        device_extension_versions(*available),
                    ),
                )
            },
            Err(_) => false,
        },
{
    let mut required = device_properties_new();
    device_properties_add_khr_swapchain(&mut required, 67);
    assert(device_extension_versions(required) =~= required_device_extensions());
    let missing = device_properties_difference(&required, available);
    if device_properties_is_empty(&missing) {
        Ok(device_properties_to_extensions(&required))
    } else {
        Err(GfxError::ExtensionMissing(device_properties_list(&missing)))
    }
}

/// Checks what the Vulkan installation offers against what the window needs
/// to be drawn to.
///
/// Succeeds with the set of extensions to enable, which are those of
/// `required`, when `available` holds each of them at the required revision or
/// a newer one. Otherwise the error names each extension that is absent or too
/// old.
pub fn compute_instance_extensions(
    required: &dacite::core::InstanceExtensionsProperties,
    available: &dacite::core::InstanceExtensionsProperties,
) -> (r: Result<dacite::core::InstanceExtensions, GfxError>)
    ensures
        match r {
            Ok(enabled) => {
                &&& missing_extensions(
                    instance_extension_versions(*required),
                    instance_extension_versions(*available),
                ).dom().is_empty()
                &&& instance_extension_names(enabled) == instance_extension_versions(
                    *required,
                ).dom()
            },
            Err(GfxError::ExtensionMissing(list)) => {
                &&& !missing_extensions(
                    instance_extension_versions(*required),
                    instance_extension_versions(*available),
                ).dom().is_empty()
                &&& lists_extensions(
                    list@,
                    missing_extensions(
                        instance_extension_versions(*required),
                        instance_extension_versions(*available),
                    ),
                )
            },
            Err(_) => false,
        },
{
    let missing = instance_properties_difference(required, available);
    if instance_properties_is_empty(&missing) {
        Ok(instance_properties_to_extensions(required))
    } else {
        Err(GfxError::ExtensionMissing(instance_properties_list(&missing)))
    }
}

} // verus!
