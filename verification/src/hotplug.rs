//! The Discovery Loop and Hotplug Monitor cores: which devices of an
//! enumeration or of a drained batch of notifications end up with a
//! listener of their own.
use vstd::prelude::*;
use crate::device::{
    classify, classify_spec, ControllerIdentity, DeviceDescription, has_joystick_marker,
};

verus! {

/// Cadence of the hotplug poll, in milliseconds.
pub const HOTPLUG_POLL_INTERVAL_MS: u64 = 1000;

/// The action a hotplug notification reports for a device.
#[derive(Clone, Copy, PartialEq, Eq, Structural, Debug)]
pub enum HotplugAction {
    Add,
    Remove,
    Change,
    Bind,
    Unbind,
    Unknown,
}

/// One hotplug notification: the action and the device it concerns.
pub struct HotplugNotification {
    pub action: HotplugAction,
    pub device: DeviceDescription,
}

/// Only an arrival is worth classifying; every other action is ignored.
pub open spec fn should_classify_spec(a: HotplugAction) -> bool {
    a is Add
}

/// Hotplug filter: true exactly for an "add" notification action.
pub fn should_classify(a: &HotplugAction) -> (r: bool)
    ensures
        r == should_classify_spec(*a),
{
    match a {
        HotplugAction::Add => true,
        _ => false,
    }
}

/// The devices a batch of notifications submits to the classifier: the
/// devices of its "add" notifications, in batch order, each exactly once.
pub open spec fn additions_spec(ns: Seq<HotplugNotification>) -> Seq<DeviceDescription>
    decreases ns.len(),
{
    if ns.len() == 0 {
        Seq::empty()
    } else {
        let rest = additions_spec(ns.drop_last());
        if ns.last().action is Add {
            rest.push(ns.last().device)
        } else {
            rest
        }
    }
}

/// The node paths of the controllers found in a list of descriptions:
/// each device is classified, the successes keep their order, and a
/// failure skips only that device.
pub open spec fn spawn_paths_spec(ds: Seq<DeviceDescription>) -> Seq<Seq<char>>
    decreases ds.len(),
{
    if ds.len() == 0 {
        Seq::empty()
    } else {
        let rest = spawn_paths_spec(ds.drop_last());
        match classify_spec(ds.last()) {
            Ok(p) => rest.push(p),
            Err(_) => rest,
        }
    }
}

/// The paths a list of controller identities stands for.
pub open spec fn identity_paths(cs: Seq<ControllerIdentity>) -> Seq<Seq<char>> {
    cs.map_values(|c: ControllerIdentity| c.path@)
}

/// Discovery Loop core: classify every enumerated device; the controllers
/// found, in enumeration order, are the ones to listen to. A per-device
/// classification failure never aborts the scan of the remaining devices.
pub fn controllers_from_enumeration(ds: &Vec<DeviceDescription>) -> (r: Vec<ControllerIdentity>)
    ensures
        identity_paths(r@) == spawn_paths_spec(ds@),
{
    let mut out: Vec<ControllerIdentity> = Vec::new();
    let mut i: usize = 0;
    while i < ds.len()
        invariant
            0 <= i <= ds@.len(),
            identity_paths(out@) == spawn_paths_spec(ds@.take(i as int)),
        decreases ds@.len() - i,
    {
        let ghost prefix = ds@.take(i as int);
        let c = classify(&ds[i]);
        proof {
            assert(ds@.take(i + 1int).drop_last() =~= prefix);
            assert(ds@.take(i + 1int).last() == ds@[i as int]);
        }
        match c {
            Ok(identity) => {
                let ghost old_out = out@;
                out.push(identity);
                proof {
                    assert(identity_paths(out@) =~= identity_paths(old_out).push(identity.path@));
                }
            },
            Err(_) => {},
        }
        i = i + 1;
    }
    proof {
        assert(ds@.take(ds@.len() as int) =~= ds@);
    }
    out
}

/// Hotplug Monitor core: of a drained batch of notifications only the
/// arrivals reach the classifier, each exactly once, in order; the
/// controllers among them are the ones to listen to.
pub fn controllers_from_notifications(ns: &Vec<HotplugNotification>) -> (r: Vec<
    ControllerIdentity,
>)
    ensures
        identity_paths(r@) == spawn_paths_spec(additions_spec(ns@)),
{
    let mut out: Vec<ControllerIdentity> = Vec::new();
    let mut i: usize = 0;
    while i < ns.len()
        invariant
            0 <= i <= ns@.len(),
            identity_paths(out@) == spawn_paths_spec(additions_spec(ns@.take(i as int))),
        decreases ns@.len() - i,
    {
        let ghost prefix = ns@.take(i as int);
        let ghost adds = additions_spec(prefix);
        proof {
            assert(ns@.take(i + 1int).drop_last() =~= prefix);
            assert(ns@.take(i + 1int).last() == ns@[i as int]);
        }
        if should_classify(&ns[i].action) {
            proof {
                assert(additions_spec(ns@.take(i + 1int)) == adds.push(ns@[i as int].device));
                assert(adds.push(ns@[i as int].device).drop_last() =~= adds);
                assert(adds.push(ns@[i as int].device).last() == ns@[i as int].device);
            }
            let c = classify(&ns[i].device);
            match c {
                Ok(identity) => {
                    let ghost old_out = out@;
                    out.push(identity);
                    proof {
                        assert(identity_paths(out@) =~= identity_paths(old_out).push(
                            identity.path@,
                        ));
                    }
                },
                Err(_) => {},
            }
        }
        i = i + 1;
    }
    proof {
        assert(ns@.take(ns@.len() as int) =~= ns@);
    }
    out
}

/// Of the add, remove and change actions only "add" ever reaches the
/// classifier: dropping every notification whose action is not an arrival
/// changes nothing about which devices are classified.
pub proof fn lemma_non_additions_ignored(ns: Seq<HotplugNotification>)
    ensures
        additions_spec(ns) == additions_spec(
            ns.filter(|n: HotplugNotification| n.action is Add),
        ),
    decreases ns.len(),
{
    reveal(Seq::filter);
    if ns.len() == 0 {
        assert(ns.filter(|n: HotplugNotification| n.action is Add) =~= ns);
    } else {
        lemma_non_additions_ignored(ns.drop_last());
        let f = ns.filter(|n: HotplugNotification| n.action is Add);
        if ns.last().action is Add {
            assert(f == ns.drop_last().filter(|n: HotplugNotification| n.action is Add).push(
                ns.last(),
            ));
            assert(f.drop_last() =~= ns.drop_last().filter(
                |n: HotplugNotification| n.action is Add,
            ));
        }
    }
}

/// Each arrival is classified exactly once: a batch submits exactly as
/// many devices to the classifier as it holds "add" notifications.
pub proof fn lemma_one_classification_per_addition(ns: Seq<HotplugNotification>)
    ensures
        additions_spec(ns).len() == ns.filter(|n: HotplugNotification| n.action is Add).len(),
    decreases ns.len(),
{
    reveal(Seq::filter);
    if ns.len() > 0 {
        lemma_one_classification_per_addition(ns.drop_last());
    }
}

/// A batch of devices none of which carries the joystick marker spawns no
/// listener at all.
pub proof fn lemma_unmarked_spawn_nothing(ds: Seq<DeviceDescription>)
    requires
        forall|i: int| 0 <= i < ds.len() ==> !has_joystick_marker(#[trigger] ds[i]),
    ensures
        spawn_paths_spec(ds) == Seq::<Seq<char>>::empty(),
    decreases ds.len(),
{
    if ds.len() > 0 {
        assert(forall|i: int|
            0 <= i < ds.drop_last().len() ==> !has_joystick_marker(#[trigger] ds.drop_last()[i]));
        lemma_unmarked_spawn_nothing(ds.drop_last());
    }
}

} // verus!
