//! Device features, as `vulkano` holds them, and the choice of the physical
//! devices that offer what the pipeline asks for.

use vstd::prelude::*;

verus! {

/// `vulkano::device::Features`: a set of optional capabilities of a device, one flag for each.
#[verifier::external_type_specification]
#[verifier::external_body]
pub struct ExFeatures(vulkano::device::Features);

/// What a `Features` holds: the names of its members that are set.
pub uninterp spec fn enabled_features(f: vulkano::device::Features) -> Set<Seq<char>>;

/// The features that every device must offer to be used: tessellation shaders.
pub open spec fn required_features() -> Set<Seq<char>> {
    set!["tessellation_shader"@]
}

/// `Features::empty`: no member of the result is set.
#[verifier::external_body]
fn features_empty() -> (r: vulkano::device::Features)
    ensures
        enabled_features(r).is_empty(),
{
    vulkano::device::Features::empty()
}

/// The member `tessellation_shader` of a `Features`, set: the result is `f`
/// with that member set.
#[verifier::external_body]
fn features_with_tessellation_shader(f: vulkano::device::Features) -> (r: vulkano::device::Features)
    ensures
        enabled_features(r) == enabled_features(f).insert("tessellation_shader"@),
{
    vulkano::device::Features { tessellation_shader: true, ..f }
}

/// `Features::contains`: whether every member that is set in `other` is set in `this`.
#[verifier::external_body]
pub(crate) fn features_contain(
    this: &vulkano::device::Features,
    other: &vulkano::device::Features,
) -> (r: bool)
    ensures
        r == enabled_features(*other).subset_of(enabled_features(*this)),
{
    this.contains(other)
}

/// What is known of one physical device before it is chosen: its name, its
/// place in the order in which the instance lists its devices, and the
/// features it offers.
pub struct PhysicalDeviceInfo {
    pub name: String,
    pub index: usize,
    pub supported_features: vulkano::device::Features,
}

impl PhysicalDeviceInfo {
    /// Whether the device offers every feature of `required`.
    pub open spec fn offers(self, required: Set<Seq<char>>) -> bool {
        required.subset_of(enabled_features(self.supported_features))
    }

    /// The device's name and index if it offers every feature of `required`.
    pub open spec fn candidate(self, required: Set<Seq<char>>) -> Option<(Seq<char>, usize)> {
        if self.offers(required) {
            Some((self.name@, self.index))
        } else {
            None
        }
    }
}

/// The devices of `devices` that offer every feature of `required`, by name
/// and index, in the order in which they are listed.
pub open spec fn suitable_devices(
    devices: Seq<PhysicalDeviceInfo>,
    required: Set<Seq<char>>,
) -> Seq<(Seq<char>, usize)> {
    devices.filter_map(|d: PhysicalDeviceInfo| d.candidate(required))
}

/// The names and indices that `list` holds.
pub open spec fn names_and_indices(list: Seq<(String, usize)>) -> Seq<(Seq<char>, usize)> {
    list.map_values(|entry: (String, usize)| (entry.0@, entry.1))
}

/// The features that a device must offer.
pub fn get_required_features() -> (r: vulkano::device::Features)
    ensures
        enabled_features(r) == required_features(),
{
    let features = features_with_tessellation_shader(features_empty());
    assert(enabled_features(features) =~= required_features());
    features
}

/// Picks, in their order, the devices that offer every required feature.
pub fn find_suitable_devices(
    devices: &Vec<PhysicalDeviceInfo>,
    required_features: &vulkano::device::Features,
) -> (r: Vec<(String, usize)>)
    ensures
        names_and_indices(r@) == suitable_devices(devices@, enabled_features(*required_features)),
{
    let ghost required = enabled_features(*required_features);
    let ghost pick = |d: PhysicalDeviceInfo| d.candidate(required);
    let mut found: Vec<(String, usize)> = Vec::new();
    let mut i: usize = 0;
    assert(devices@.take(0).filter_map(pick) =~= Seq::empty());
    while i < devices.len()
        invariant
            i <= devices.len(),
            required == enabled_features(*required_features),
            pick == |d: PhysicalDeviceInfo| d.candidate(required),
            names_and_indices(found@) == devices@.take(i as int).filter_map(pick),
        decreases devices.len() - i,
    {
        proof {
            devices@.lemma_filter_map_take_succ(pick, i as int);
        }
        let device = &devices[i];
        if features_contain(&device.supported_features, required_features) {
            let ghost before = found@;
            found.push((device.name.clone(), device.index));
            assert(names_and_indices(found@) =~= names_and_indices(before) + seq![
                (device.name@, device.index),
            ]);
        }
        i += 1;
    }
    assert(devices@.take(devices.len() as int) =~= devices@);
    found
}

/// The device to use, by its index, if one was asked for and the instance
/// lists a device at that index.
pub fn init_physical_device(device_count: usize, index: Option<usize>) -> (r: Option<usize>)
    ensures
        r == match index {
            Some(i) if i < device_count => Some(i),
            _ => None,
        },
{
    match index {
        Some(i) => if i < device_count {
            Some(i)
        } else {
            None
        },
        None => None,
    }
}

} // verus!
