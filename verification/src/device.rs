//! Physical device selection, queue family resolution, and the logical
//! device plan.
//!
//! Selection is deterministic over the enumeration order the native API
//! returns: a discrete GPU always wins over any prior choice (the last
//! discrete one if there are several), an integrated GPU is chosen only
//! while nothing better was found (the first integrated one), and all other
//! device types are ignored.  Queue resolution is a single pass over the
//! queue family properties: each of the three roles takes the first family
//! that qualifies, and a missing role is an error, never a silent fallback.

use vstd::prelude::*;

verus! {

/// The index of the first element of `s` satisfying `p`, or `-1`.
pub open spec fn first_match<T>(s: Seq<T>, p: spec_fn(T) -> bool) -> int
    decreases s.len(),
{
    if s.len() == 0 {
        -1
    } else if p(s[0]) {
        0
    } else {
        let r = first_match(s.skip(1), p);
        if r == -1 {
            -1
        } else {
            r + 1
        }
    }
}

/// The index of the last element of `s` satisfying `p`, or `-1`.
pub open spec fn last_match<T>(s: Seq<T>, p: spec_fn(T) -> bool) -> int
    decreases s.len(),
{
    if s.len() == 0 {
        -1
    } else if p(s.last()) {
        s.len() - 1
    } else {
        last_match(s.drop_last(), p)
    }
}

/// What `first_match` returns: the first satisfying index, or `-1` when no
/// element satisfies `p`.
pub proof fn lemma_first_match<T>(s: Seq<T>, p: spec_fn(T) -> bool)
    ensures
        first_match(s, p) >= 0 <==> exists|i: int| 0 <= i < s.len() && p(s[i]),
        first_match(s, p) >= 0 ==> first_match(s, p) < s.len() && p(s[first_match(s, p)])
            && forall|j: int| 0 <= j < first_match(s, p) ==> !p(s[j]),
    decreases s.len(),
{
    if s.len() != 0 {
        lemma_first_match(s.skip(1), p);
        let r = first_match(s.skip(1), p);
        if !p(s[0]) {
            if r >= 0 {
                assert(p(s.skip(1)[r]));
                assert(s.skip(1)[r] == s[r + 1]);
                assert(forall|j: int| 1 <= j < r + 1 ==> s[j] == s.skip(1)[j - 1] && !p(s.skip(1)[j - 1]));
            } else {
                assert(forall|i: int| 1 <= i < s.len() ==> s[i] == s.skip(1)[i - 1] && !p(s.skip(1)[i - 1]));
            }
        }
    }
}

/// What `last_match` returns: the last satisfying index, or `-1` when no
/// element satisfies `p`.
pub proof fn lemma_last_match<T>(s: Seq<T>, p: spec_fn(T) -> bool)
    ensures
        last_match(s, p) >= 0 <==> exists|i: int| 0 <= i < s.len() && p(s[i]),
        last_match(s, p) >= 0 ==> last_match(s, p) < s.len() && p(s[last_match(s, p)])
            && forall|j: int| last_match(s, p) < j < s.len() ==> !p(s[j]),
    decreases s.len(),
{
    if s.len() != 0 {
        lemma_last_match(s.drop_last(), p);
        if !p(s.last()) {
            assert(forall|i: int| 0 <= i < s.len() - 1 ==> s[i] == s.drop_last()[i]);
            let r = last_match(s.drop_last(), p);
            if r >= 0 {
                assert(p(s.drop_last()[r]));
            }
        }
    }
}

/// The classes of physical device the selection heuristic distinguishes.
#[derive(Clone, Copy, Debug, PartialEq, Eq, Structural)]
pub enum PhysicalDeviceKind {
    DiscreteGpu,
    IntegratedGpu,
    Other,
}

/// Errors of device selection and logical-device creation.  The payload of
/// [`DeviceError::LogicalDeviceCreationFailure`] is the native result code.
#[derive(Clone, Copy, Debug, PartialEq, Eq, Structural)]
pub enum DeviceError {
    NoSuitablePhysicalDevice,
    QueueFamilyNotFound,
    LogicalDeviceCreationFailure(i32),
}

/// Whether `k` is a discrete GPU.
pub open spec fn is_discrete(k: PhysicalDeviceKind) -> bool {
    k == PhysicalDeviceKind::DiscreteGpu
}

/// Whether `k` is an integrated GPU.
pub open spec fn is_integrated(k: PhysicalDeviceKind) -> bool {
    k == PhysicalDeviceKind::IntegratedGpu
}

/// The index the selection heuristic chooses: the last discrete GPU if any
/// device is discrete, else the first integrated GPU if any device is
/// integrated, else nothing.
pub open spec fn device_choice(devs: Seq<PhysicalDeviceKind>) -> Option<int> {
    if last_match(devs, |k: PhysicalDeviceKind| is_discrete(k)) >= 0 {
        Some(last_match(devs, |k: PhysicalDeviceKind| is_discrete(k)))
    } else if first_match(devs, |k: PhysicalDeviceKind| is_integrated(k)) >= 0 {
        Some(first_match(devs, |k: PhysicalDeviceKind| is_integrated(k)))
    } else {
        None
    }
}

/// A device list with a discrete GPU always selects a discrete GPU,
/// whatever the enumeration order: the chosen index is in range, holds a
/// discrete GPU, and no later index does.
pub proof fn lemma_choice_prefers_discrete(devs: Seq<PhysicalDeviceKind>)
    requires
        exists|i: int| 0 <= i < devs.len() && is_discrete(devs[i]),
    ensures
        device_choice(devs) is Some,
        0 <= device_choice(devs)->0 < devs.len(),
        is_discrete(devs[device_choice(devs)->0]),
        forall|j: int| device_choice(devs)->0 < j < devs.len() ==> !is_discrete(devs[j]),
{
    lemma_last_match(devs, |k: PhysicalDeviceKind| is_discrete(k));
}

/// A device list with only integrated GPUs (no discrete one) selects the
/// first integrated GPU encountered.
pub proof fn lemma_choice_first_integrated(devs: Seq<PhysicalDeviceKind>)
    requires
        forall|i: int| 0 <= i < devs.len() ==> !is_discrete(devs[i]),
        exists|i: int| 0 <= i < devs.len() && is_integrated(devs[i]),
    ensures
        device_choice(devs) is Some,
        0 <= device_choice(devs)->0 < devs.len(),
        is_integrated(devs[device_choice(devs)->0]),
        forall|j: int| 0 <= j < device_choice(devs)->0 ==> !is_integrated(devs[j]),
{
    lemma_last_match(devs, |k: PhysicalDeviceKind| is_discrete(k));
    lemma_first_match(devs, |k: PhysicalDeviceKind| is_integrated(k));
}

/// An empty device list selects nothing.
pub proof fn lemma_choice_empty(devs: Seq<PhysicalDeviceKind>)
    requires
        devs.len() == 0,
    ensures
        device_choice(devs) is None,
{
}

/// Extending the enumeration by one device moves the choice exactly as the
/// heuristic reads: a discrete device always takes over, an integrated one
/// only fills an empty choice or replaces an integrated-free choice.
proof fn lemma_choice_step(devs: Seq<PhysicalDeviceKind>, k: PhysicalDeviceKind)
    ensures
        device_choice(devs.push(k)) == (if is_discrete(k) {
            Some(devs.len() as int)
        } else if is_integrated(k) && device_choice(devs) is None {
            Some(devs.len() as int)
        } else {
            device_choice(devs)
        }),
{
    let p_disc = |x: PhysicalDeviceKind| is_discrete(x);
    let p_int = |x: PhysicalDeviceKind| is_integrated(x);
    let t = devs.push(k);
    assert(t.drop_last() =~= devs);
    assert(t.last() == k);
    lemma_push_first_match(devs, k, p_int);
    lemma_last_match(devs, p_disc);
    lemma_first_match(devs, p_int);
    lemma_last_match(t, p_disc);
    lemma_first_match(t, p_int);
}

/// How `first_match` reads a one-element extension: an earlier match stays,
/// else the new element matches or nothing does.
proof fn lemma_push_first_match<T>(s: Seq<T>, x: T, p: spec_fn(T) -> bool)
    ensures
        first_match(s.push(x), p) == (if first_match(s, p) >= 0 {
            first_match(s, p)
        } else if p(x) {
            s.len() as int
        } else {
            -1
        }),
    decreases s.len(),
{
    if s.len() == 0 {
        assert(s.push(x)[0] == x);
        assert(s.push(x).skip(1) =~= Seq::<T>::empty());
        assert(first_match(Seq::<T>::empty(), p) == -1);
        assert(s =~= Seq::<T>::empty());
    } else {
        lemma_push_first_match(s.skip(1), x, p);
        assert(s.push(x)[0] == s[0]);
        assert(s.push(x).skip(1) =~= s.skip(1).push(x));
        if p(s[0]) {
            assert(first_match(s.push(x), p) == 0);
            assert(first_match(s, p) == 0);
        } else {
            let r = first_match(s.skip(1).push(x), p);
            let r2 = first_match(s.skip(1), p);
            assert(first_match(s.push(x), p) == (if r == -1 { -1 } else { r + 1 }));
            assert(first_match(s, p) == (if r2 == -1 { -1 } else { r2 + 1 }));
        }
    }
}

/// Selects the physical device: the last discrete GPU if one exists, else
/// the first integrated GPU, else
/// [`DeviceError::NoSuitablePhysicalDevice`] — in particular, an empty
/// enumeration fails with that error.
pub fn select_physical_device(devices: &Vec<PhysicalDeviceKind>) -> (r: Result<
    usize,
    DeviceError,
>)
    ensures
        r matches Ok(i) ==> device_choice(devices@) == Some(i as int) && i < devices@.len(),
        r is Ok <==> device_choice(devices@) is Some,
        r matches Err(e) ==> e == DeviceError::NoSuitablePhysicalDevice,
        r matches Ok(i) ==> ((exists|j: int| 0 <= j < devices@.len() && is_discrete(devices@[j]))
            ==> is_discrete(devices@[i as int])),
        r matches Ok(i) ==> ((forall|j: int| 0 <= j < devices@.len() ==> !is_discrete(
            devices@[j],
        )) ==> is_integrated(devices@[i as int]) && forall|j: int| 0 <= j < i ==> !is_integrated(
            devices@[j],
        )),
{
    let mut chosen: Option<usize> = None;
    let mut idx: usize = 0;
    proof {
        assert(devices@.take(0) =~= Seq::<PhysicalDeviceKind>::empty());
    }
    while idx < devices.len()
        invariant
            0 <= idx <= devices@.len(),
            chosen matches Some(c) ==> device_choice(devices@.take(idx as int)) == Some(c as int),
            chosen is Some <==> device_choice(devices@.take(idx as int)) is Some,
        decreases devices@.len() - idx,
    {
        let k = devices[idx];
        proof {
            assert(devices@.take(idx as int + 1) =~= devices@.take(idx as int).push(
                devices@[idx as int],
            ));
            lemma_choice_step(devices@.take(idx as int), devices@[idx as int]);
        }
        match k {
            PhysicalDeviceKind::DiscreteGpu => {
                chosen = Some(idx);
            },
            PhysicalDeviceKind::IntegratedGpu => {
                if chosen.is_none() {
                    chosen = Some(idx);
                }
            },
            PhysicalDeviceKind::Other => {},
        }
        idx = idx + 1;
    }
    proof {
        assert(devices@.take(devices@.len() as int) =~= devices@);
        lemma_last_match(devices@, |k: PhysicalDeviceKind| is_discrete(k));
        lemma_first_match(devices@, |k: PhysicalDeviceKind| is_integrated(k));
        if device_choice(devices@) is Some {
            if exists|j: int| 0 <= j < devices@.len() && is_discrete(devices@[j]) {
                lemma_choice_prefers_discrete(devices@);
            } else if exists|j: int| 0 <= j < devices@.len() && is_integrated(devices@[j]) {
                lemma_choice_first_integrated(devices@);
            }
        }
    }
    match chosen {
        Some(i) => Ok(i),
        None => Err(DeviceError::NoSuitablePhysicalDevice),
    }
}

/// What queue resolution reads of one queue family: how many queues it
/// offers, its capability bits, and whether it can present to the surface
/// (checked per family against the surface, never assumed from the
/// graphics bit).
#[derive(Clone, Copy, Debug, PartialEq, Eq, Structural)]
pub struct QueueFamilyInfo {
    pub queue_count: u32,
    pub graphics: bool,
    pub transfer: bool,
    pub compute: bool,
    pub present_support: bool,
}

/// Whether a family can serve as the graphics queue: it has queues, the
/// graphics capability, and confirmed present support.
pub open spec fn graphics_ok(f: QueueFamilyInfo) -> bool {
    f.queue_count > 0 && f.graphics && f.present_support
}

/// Whether a family can serve as the transfer queue: it has queues and the
/// transfer capability, excluding families that advertise both graphics and
/// compute, to bias toward a dedicated transfer family.
pub open spec fn transfer_ok(f: QueueFamilyInfo) -> bool {
    f.queue_count > 0 && f.transfer && !(f.graphics && f.compute)
}

/// Whether a family can serve as the compute queue: it has queues and the
/// compute capability, excluding families that advertise both graphics and
/// transfer.
pub open spec fn compute_ok(f: QueueFamilyInfo) -> bool {
    f.queue_count > 0 && f.compute && !(f.graphics && f.transfer)
}

/// The three resolved queue family indices, one per role.
#[derive(Clone, Copy, Debug, PartialEq, Eq, Structural)]
pub struct QueueFamilies {
    pub graphics: u32,
    pub transfer: u32,
    pub compute: u32,
}

/// What queue resolution yields: the first family qualifying for each of
/// the three roles, or nothing if any role finds no family.
pub open spec fn queue_resolution(fams: Seq<QueueFamilyInfo>) -> Option<QueueFamilies> {
    let g = first_match(fams, |f: QueueFamilyInfo| graphics_ok(f));
    let t = first_match(fams, |f: QueueFamilyInfo| transfer_ok(f));
    let c = first_match(fams, |f: QueueFamilyInfo| compute_ok(f));
    if g >= 0 && t >= 0 && c >= 0 {
        Some(QueueFamilies { graphics: g as u32, transfer: t as u32, compute: c as u32 })
    } else {
        None
    }
}

/// A queue family list in which no family offers both graphics capability
/// and present support resolves no queues: initialization fails rather than
/// substituting a non-present-capable family.
pub proof fn lemma_no_present_no_resolution(fams: Seq<QueueFamilyInfo>)
    requires
        forall|i: int| 0 <= i < fams.len() ==> !(fams[i].graphics && fams[i].present_support),
    ensures
        queue_resolution(fams) is None,
{
    let p = |f: QueueFamilyInfo| graphics_ok(f);
    lemma_first_match(fams, p);
    if first_match(fams, p) >= 0 {
        assert(p(fams[first_match(fams, p)]));
    }
}

/// Resolves the three queue roles in a single pass: each role takes the
/// first qualifying family, and a missing role fails with
/// [`DeviceError::QueueFamilyNotFound`].
pub fn resolve_queue_families(fams: &Vec<QueueFamilyInfo>) -> (r: Result<
    QueueFamilies,
    DeviceError,
>)
    requires
        fams@.len() <= u32::MAX,
    ensures
        r matches Ok(q) ==> queue_resolution(fams@) == Some(q),
        r is Ok <==> queue_resolution(fams@) is Some,
        r matches Err(e) ==> e == DeviceError::QueueFamilyNotFound,
        (forall|i: int| 0 <= i < fams@.len() ==> !(fams@[i].graphics && fams@[i].present_support))
            ==> r == Err::<QueueFamilies, DeviceError>(DeviceError::QueueFamilyNotFound),
{
    let ghost p_g = |f: QueueFamilyInfo| graphics_ok(f);
    let ghost p_t = |f: QueueFamilyInfo| transfer_ok(f);
    let ghost p_c = |f: QueueFamilyInfo| compute_ok(f);
    let mut g_q: Option<u32> = None;
    let mut t_q: Option<u32> = None;
    let mut c_q: Option<u32> = None;
    let mut idx: usize = 0;
    proof {
        assert(fams@.take(0) =~= Seq::<QueueFamilyInfo>::empty());
    }
    while idx < fams.len()
        invariant
            0 <= idx <= fams@.len() <= u32::MAX,
            p_g == (|f: QueueFamilyInfo| graphics_ok(f)),
            p_t == (|f: QueueFamilyInfo| transfer_ok(f)),
            p_c == (|f: QueueFamilyInfo| compute_ok(f)),
            g_q matches Some(i) ==> first_match(fams@.take(idx as int), p_g) == i as int,
            g_q is Some <==> first_match(fams@.take(idx as int), p_g) >= 0,
            t_q matches Some(i) ==> first_match(fams@.take(idx as int), p_t) == i as int,
            t_q is Some <==> first_match(fams@.take(idx as int), p_t) >= 0,
            c_q matches Some(i) ==> first_match(fams@.take(idx as int), p_c) == i as int,
            c_q is Some <==> first_match(fams@.take(idx as int), p_c) >= 0,
        decreases fams@.len() - idx,
    {
        let f = fams[idx];
        proof {
            assert(fams@.take(idx as int + 1) =~= fams@.take(idx as int).push(fams@[idx as int]));
            lemma_push_first_match(fams@.take(idx as int), fams@[idx as int], p_g);
            lemma_push_first_match(fams@.take(idx as int), fams@[idx as int], p_t);
            lemma_push_first_match(fams@.take(idx as int), fams@[idx as int], p_c);
            assert(p_g(fams@[idx as int]) == graphics_ok(f));
            assert(p_t(fams@[idx as int]) == transfer_ok(f));
            assert(p_c(fams@[idx as int]) == compute_ok(f));
        }
        if f.queue_count > 0 && f.graphics && f.present_support && g_q.is_none() {
            g_q = Some(idx as u32);
        }
        if f.queue_count > 0 && f.transfer && !(f.graphics && f.compute) && t_q.is_none() {
            t_q = Some(idx as u32);
        }
        if f.queue_count > 0 && f.compute && !(f.graphics && f.transfer) && c_q.is_none() {
            c_q = Some(idx as u32);
        }
        idx = idx + 1;
    }
    proof {
        assert(fams@.take(fams@.len() as int) =~= fams@);
        if forall|i: int| 0 <= i < fams@.len() ==> !(fams@[i].graphics
            && fams@[i].present_support) {
            lemma_no_present_no_resolution(fams@);
        }
    }
    match (g_q, t_q, c_q) {
        (Some(g), Some(t), Some(c)) => Ok(QueueFamilies { graphics: g, transfer: t, compute: c }),
        _ => Err(DeviceError::QueueFamilyNotFound),
    }
}

/// The selected physical device and its resolved queue family indices: the
/// plan from which the native logical device and its three queues are
/// created, requesting one queue from each resolved family.
#[derive(Clone, Copy, Debug)]
pub struct Device {
    pub physical_index: usize,
    pub queue_inds: (u32, u32, u32),
}

impl Device {
    /// Selects a physical device from the enumeration and resolves its
    /// queue families.  `families` holds, for each enumerated device, its
    /// queue family properties.  Fails with
    /// [`DeviceError::NoSuitablePhysicalDevice`] when no device qualifies
    /// and with [`DeviceError::QueueFamilyNotFound`] when the chosen
    /// device resolves no complete queue set.
    pub fn init(devices: &Vec<PhysicalDeviceKind>, families: &Vec<Vec<QueueFamilyInfo>>) -> (r:
        Result<Device, DeviceError>)
        requires
            families@.len() == devices@.len(),
            forall|i: int| 0 <= i < families@.len() ==> #[trigger] families@[i]@.len()
                <= u32::MAX,
        ensures
            r is Ok <==> (device_choice(devices@) matches Some(d) && queue_resolution(
                families@[d]@,
            ) is Some),
            r matches Ok(dev) ==> device_choice(devices@) == Some(dev.physical_index as int)
                && queue_resolution(families@[dev.physical_index as int]@) == Some(
                QueueFamilies {
                    graphics: dev.queue_inds.0,
                    transfer: dev.queue_inds.1,
                    compute: dev.queue_inds.2,
                },
            ),
            r matches Err(e) ==> (e == DeviceError::NoSuitablePhysicalDevice <==> device_choice(
                devices@,
            ) is None),
            r matches Err(e) ==> (device_choice(devices@) is Some ==> e
                == DeviceError::QueueFamilyNotFound),
    {
        let physical_index = match select_physical_device(devices) {
            Ok(i) => i,
            Err(e) => { return Err(e); },
        };
        assert(families@[physical_index as int]@.len() <= u32::MAX);
        let fams = &families[physical_index];
        let queues = match resolve_queue_families(fams) {
            Ok(q) => q,
            Err(e) => { return Err(e); },
        };
        Ok(Device { physical_index, queue_inds: (queues.graphics, queues.transfer, queues.compute) })
    }
}

} // verus!
