use vstd::prelude::*;

verus! {

/// The kind of a physical device, as the driver reports it.
#[derive(Clone, Copy, Debug, PartialEq, Eq, Structural)]
pub enum DeviceKind {
    DiscreteGpu,
    IntegratedGpu,
    VirtualGpu,
    Cpu,
    Other,
    Unknown,
}

/// What one queue family of a device can do for this engine.
#[derive(Clone, Copy, Debug, PartialEq, Eq, Structural)]
pub struct QueueFamilySupport {
    /// The family runs graphics work.
    pub graphics: bool,
    /// The family can present to the window's surface.
    pub presents: bool,
}

/// A physical device as seen when choosing one.
pub struct DeviceCandidate {
    pub kind: DeviceKind,
    /// The device has every extension the engine needs.
    pub has_extensions: bool,
    pub families: Vec<QueueFamilySupport>,
}

/// Lower is preferred: discrete, integrated, virtual, CPU, other, unknown.
pub open spec fn rank(kind: DeviceKind) -> u32 {
    match kind {
        DeviceKind::DiscreteGpu => 0,
        DeviceKind::IntegratedGpu => 1,
        DeviceKind::VirtualGpu => 2,
        DeviceKind::Cpu => 3,
        DeviceKind::Other => 4,
        DeviceKind::Unknown => 5,
    }
}

pub open spec fn family_usable(f: QueueFamilySupport) -> bool {
    f.graphics && f.presents
}

/// The first usable queue family of `fs`, if any.
pub open spec fn first_usable_family(fs: Seq<QueueFamilySupport>) -> Option<int> {
    if exists|i: int| 0 <= i < fs.len() && family_usable(fs[i]) {
        Some(choose|i: int| 0 <= i < fs.len() && family_usable(fs[i]) && forall|j: int| 0 <= j < i ==> !family_usable(#[trigger] fs[j]))
    } else {
        None
    }
}

/// A device the engine can run on: it has the extensions and a usable family.
pub open spec fn eligible(c: DeviceCandidate) -> bool {
    c.has_extensions && exists|i: int| 0 <= i < c.families@.len() && family_usable(c.families@[i])
}

pub struct StarryDevice {}

impl StarryDevice {
    /// The preference rank of a device kind.
    pub fn device_rank(kind: DeviceKind) -> (r: u32)
        ensures
            r == rank(kind),
    {
        match kind {
            DeviceKind::DiscreteGpu => 0,
            DeviceKind::IntegratedGpu => 1,
            DeviceKind::VirtualGpu => 2,
            DeviceKind::Cpu => 3,
            DeviceKind::Other => 4,
            DeviceKind::Unknown => 5,
        }
    }

    /// The first queue family that runs graphics and presents, if any.
    pub fn pick_queue_family(families: &Vec<QueueFamilySupport>) -> (r: Option<usize>)
        ensures
            match r {
                Some(i) => i < families.len() && family_usable(families@[i as int]) && forall|j: int|
                    0 <= j < i ==> !family_usable(#[trigger] families@[j]),
                None => forall|j: int| 0 <= j < families.len() ==> !family_usable(#[trigger] families@[j]),
            },
            r matches Some(i) ==> first_usable_family(families@) == Some(i as int),
            r is None ==> first_usable_family(families@) is None,
    {
        let mut i: usize = 0;
        while i < families.len()
            invariant
                i <= families.len(),
                forall|j: int| 0 <= j < i ==> !family_usable(#[trigger] families@[j]),
            decreases families.len() - i,
        {
            if families[i].graphics && families[i].presents {
                let ghost fs = families@;
                proof {
                    let c = choose|c: int| 0 <= c < fs.len() && family_usable(fs[c]) && forall|j: int| 0 <= j < c ==> !family_usable(#[trigger] fs[j]);
                    if c < i {
                    } else if c > i {
                        assert(!family_usable(fs[i as int]));
                    }
                }
                return Some(i);
            }
            i = i + 1;
        }
        None
    }

    /// Chooses the device to run on and its queue family.
    ///
    /// Among the eligible devices the one of lowest rank wins, the earliest of
    /// equal rank; its queue family is the first usable one. `None` when no
    /// device is eligible.
    pub fn select_physical_device(candidates: &Vec<DeviceCandidate>) -> (r: Option<(usize, usize)>)
        ensures
            r is None <==> forall|d: int| 0 <= d < candidates.len() ==> !eligible(#[trigger] candidates@[d]),
            r matches Some((d, q)) ==> {
                &&& d < candidates.len()
                &&& eligible(candidates@[d as int])
                &&& first_usable_family(candidates@[d as int].families@) == Some(q as int)
                &&& forall|e: int| 0 <= e < candidates.len() && eligible(#[trigger] candidates@[e]) ==> rank(candidates@[d as int].kind) <= rank(candidates@[e].kind)
                &&& forall|e: int| 0 <= e < d && eligible(#[trigger] candidates@[e]) ==> rank(candidates@[d as int].kind) < rank(candidates@[e].kind)
            },
    {
        let mut best: Option<(usize, usize)> = None;
        let mut k: usize = 0;
        while k < candidates.len()
            invariant
                k <= candidates.len(),
                best is None <==> forall|d: int| 0 <= d < k ==> !eligible(#[trigger] candidates@[d]),
                best matches Some((d, q)) ==> {
                    &&& d < k
                    &&& eligible(candidates@[d as int])
                    &&& first_usable_family(candidates@[d as int].families@) == Some(q as int)
                    &&& forall|e: int| 0 <= e < k && eligible(#[trigger] candidates@[e]) ==> rank(candidates@[d as int].kind) <= rank(candidates@[e].kind)
                    &&& forall|e: int| 0 <= e < d && eligible(#[trigger] candidates@[e]) ==> rank(candidates@[d as int].kind) < rank(candidates@[e].kind)
                },
            decreases candidates.len() - k,
        {
            let c = &candidates[k];
            if c.has_extensions {
                match Self::pick_queue_family(&c.families) {
                    Some(q) => {
                        let better = match best {
                            None => true,
                            Some((d, _)) => Self::device_rank(c.kind) < Self::device_rank(candidates[d].kind),
                        };
                        if better {
                            best = Some((k, q));
                        }
                    },
                    None => {
                        assert(!eligible(candidates@[k as int]));
                    },
                }
            }
            k = k + 1;
        }
        best
    }
}

} // verus!
