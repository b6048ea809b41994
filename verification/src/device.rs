//! The Device Classifier: decides from a plain description of a device
//! whether it is a controller worth listening to, and under which path.
use vstd::prelude::*;
use crate::errors::Errors;

verus! {

/// One name/value property a device exposes.
pub struct Property {
    pub name: String,
    pub value: String,
}

/// A plain-value description of a kernel-exposed input device: the
/// properties it exposes and its device-node path, if it has one.
pub struct DeviceDescription {
    pub properties: Vec<Property>,
    pub devnode: Option<String>,
}

/// The verified device-node path of a device confirmed to be a controller.
pub struct ControllerIdentity {
    pub path: String,
}

/// The property marking a device as a joystick/controller: the capability
/// key set exactly to the truthy marker.
pub open spec fn is_joystick_marker(p: Property) -> bool {
    p.name@ == "ID_INPUT_JOYSTICK"@ && p.value@ == "1"@
}

/// A device counts as a controller when some property of it is the marker.
pub open spec fn has_joystick_marker(d: DeviceDescription) -> bool {
    exists|i: int| 0 <= i < d.properties@.len() && is_joystick_marker(#[trigger] d.properties@[i])
}

/// The classification outcome a device description determines: without the
/// marker the device is not a controller; with the marker but no device
/// node there is no path to listen on; otherwise the node path itself.
pub open spec fn classify_spec(d: DeviceDescription) -> Result<Seq<char>, Errors> {
    if !has_joystick_marker(d) {
        Err(Errors::NotController)
    } else if d.devnode is None {
        Err(Errors::NoDevicePath)
    } else {
        Ok(d.devnode->Some_0@)
    }
}

/// A classification result reduced to the path it carries, for contracts.
pub open spec fn classification_view(r: Result<ControllerIdentity, Errors>) -> Result<
    Seq<char>,
    Errors,
> {
    match r {
        Ok(c) => Ok(c.path@),
        Err(e) => Err(e),
    }
}

/// Whether this property is the joystick marker.
fn property_is_marker(p: &Property) -> (r: bool)
    ensures
        r == is_joystick_marker(*p),
{
    let key = "ID_INPUT_JOYSTICK".to_owned();
    let truthy = "1".to_owned();
    p.name == key && p.value == truthy
}

/// Device Classifier: `Ok` with the node path exactly when the device
/// carries the joystick marker and has a device node; `NotController`
/// without the marker; `NoDevicePath` with the marker but no node.
pub fn classify(d: &DeviceDescription) -> (r: Result<ControllerIdentity, Errors>)
    ensures
        classification_view(r) == classify_spec(*d),
{
    let mut found: bool = false;
    let mut i: usize = 0;
    while i < d.properties.len() && !found
        invariant
            0 <= i <= d.properties@.len(),
            found ==> has_joystick_marker(*d),
            !found ==> forall|j: int| 0 <= j < i ==> !is_joystick_marker(
                #[trigger] d.properties@[j],
            ),
        decreases d.properties@.len() - i,
    {
        if property_is_marker(&d.properties[i]) {
            found = true;
        }
        i = i + 1;
    }
    if !found {
        return Err(Errors::NotController);
    }
    match &d.devnode {
        None => Err(Errors::NoDevicePath),
        Some(path) => Ok(ControllerIdentity { path: path.clone() }),
    }
}

/// A device lacking the joystick marker is never classified as a
/// controller, so no listener is ever spawned for it.
pub proof fn lemma_unmarked_never_controller(d: DeviceDescription)
    requires
        !has_joystick_marker(d),
    ensures
        classify_spec(d) == Err::<Seq<char>, Errors>(Errors::NotController),
{
}

/// A device carrying the marker but no device node always classifies as
/// `NoDevicePath`.
pub proof fn lemma_marked_without_node(d: DeviceDescription)
    requires
        has_joystick_marker(d),
        d.devnode is None,
    ensures
        classify_spec(d) == Err::<Seq<char>, Errors>(Errors::NoDevicePath),
{
}

/// Classification is a function of the immutable device description alone:
/// any two results that classify's contract allows for the same
/// description agree, so re-classifying a device changes nothing.
pub proof fn lemma_classify_idempotent(
    d: DeviceDescription,
    r1: Result<ControllerIdentity, Errors>,
    r2: Result<ControllerIdentity, Errors>,
)
    requires
        classification_view(r1) == classify_spec(d),
        classification_view(r2) == classify_spec(d),
    ensures
        classification_view(r1) == classification_view(r2),
{
}

} // verus!
