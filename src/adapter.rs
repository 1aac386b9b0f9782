//! Physical-device selection: queue families, device extensions and suitability.
use vstd::prelude::*;

use crate::surface::SwapChainSupportDetail;

verus! {

/// What one queue family of a physical device offers.
#[derive(Clone, Copy, Debug, PartialEq, Eq, Structural)]
pub struct QueueFamilyProperties {
    pub queue_count: u32,
    /// The family supports graphics operations.
    pub graphics: bool,
    /// The family can present to the surface the device is selected for.
    pub present: bool,
}

impl QueueFamilyProperties {
    pub open spec fn graphics_capable(self) -> bool {
        self.queue_count > 0 && self.graphics
    }

    pub open spec fn present_capable(self) -> bool {
        self.queue_count > 0 && self.present
    }
}

/// The queue families chosen for graphics work and for presentation.
#[derive(Clone, Copy, Debug, PartialEq, Eq, Structural)]
pub struct QueueFamilyIndices {
    pub graphics_family: Option<u32>,
    pub present_family: Option<u32>,
}

impl QueueFamilyIndices {
    pub open spec fn complete(self) -> bool {
        self.graphics_family.is_some() && self.present_family.is_some()
    }

    pub fn new() -> (r: Self)
        ensures
            r.graphics_family.is_none(),
            r.present_family.is_none(),
    {
        Self { graphics_family: None, present_family: None }
    }

    pub fn is_complete(&self) -> (r: bool)
        ensures
            r == self.complete(),
    {
        self.graphics_family.is_some() && self.present_family.is_some()
    }
}

/// The selection that scanning families from index `i` on yields, starting from `g` and
/// `p`: each capable family replaces the earlier pick, and the scan stops at the first
/// family after which both roles are filled.
pub open spec fn scan_queue_families(
    fs: Seq<QueueFamilyProperties>,
    i: int,
    g: Option<u32>,
    p: Option<u32>,
) -> QueueFamilyIndices
    decreases fs.len() - i,
{
    if i < 0 || i >= fs.len() {
        QueueFamilyIndices { graphics_family: g, present_family: p }
    } else {
        let g_next = if fs[i].graphics_capable() {
            Some(i as u32)
        } else {
            g
        };
        let p_next = if fs[i].present_capable() {
            Some(i as u32)
        } else {
            p
        };
        if g_next.is_some() && p_next.is_some() {
            QueueFamilyIndices { graphics_family: g_next, present_family: p_next }
        } else {
            scan_queue_families(fs, i + 1, g_next, p_next)
        }
    }
}

pub open spec fn selected_queue_families(fs: Seq<QueueFamilyProperties>) -> QueueFamilyIndices {
    scan_queue_families(fs, 0, None, None)
}

/// Some family from index `i` on supports graphics work.
pub open spec fn has_graphics_from(fs: Seq<QueueFamilyProperties>, i: int) -> bool {
    exists|j: int| i <= j < fs.len() && (#[trigger] fs[j]).graphics_capable()
}

/// Some family from index `i` on can present.
pub open spec fn has_present_from(fs: Seq<QueueFamilyProperties>, i: int) -> bool {
    exists|j: int| i <= j < fs.len() && (#[trigger] fs[j]).present_capable()
}

proof fn lemma_scan_complete(
    fs: Seq<QueueFamilyProperties>,
    i: int,
    g: Option<u32>,
    p: Option<u32>,
)
    requires
        0 <= i <= fs.len(),
    ensures
        scan_queue_families(fs, i, g, p).complete() <==> ((g.is_some() || has_graphics_from(
            fs,
            i,
        )) && (p.is_some() || has_present_from(fs, i))),
    decreases fs.len() - i,
{
    if i < fs.len() {
        let g_next = if fs[i].graphics_capable() {
            Some(i as u32)
        } else {
            g
        };
        let p_next = if fs[i].present_capable() {
            Some(i as u32)
        } else {
            p
        };
        lemma_scan_complete(fs, i + 1, g_next, p_next);
        if has_graphics_from(fs, i) && !fs[i].graphics_capable() {
            let j = choose|j: int| i <= j < fs.len() && (#[trigger] fs[j]).graphics_capable();
            assert(has_graphics_from(fs, i + 1)) by {
                assert(i + 1 <= j);
            }
        }
        if has_present_from(fs, i) && !fs[i].present_capable() {
            let j = choose|j: int| i <= j < fs.len() && (#[trigger] fs[j]).present_capable();
            assert(has_present_from(fs, i + 1)) by {
                assert(i + 1 <= j);
            }
        }
        if has_graphics_from(fs, i + 1) {
            let j = choose|j: int| i + 1 <= j < fs.len() && (#[trigger] fs[j]).graphics_capable();
        }
        if has_present_from(fs, i + 1) {
            let j = choose|j: int| i + 1 <= j < fs.len() && (#[trigger] fs[j]).present_capable();
        }
        assert(fs[i].graphics_capable() ==> has_graphics_from(fs, i));
        assert(fs[i].present_capable() ==> has_present_from(fs, i));
    }
}

/// Picks the graphics and present families of a device. Both roles are filled exactly
/// when some family supports graphics work and some family can present.
pub fn find_queue_family(queue_families: &Vec<QueueFamilyProperties>) -> (r: QueueFamilyIndices)
    requires
        queue_families@.len() <= u32::MAX,
    ensures
        r == selected_queue_families(queue_families@),
        r.complete() <==> (has_graphics_from(queue_families@, 0) && has_present_from(
            queue_families@,
            0,
        )),
        r.graphics_family matches Some(g) ==> g < queue_families@.len()
            && queue_families@[g as int].graphics_capable(),
        r.present_family matches Some(p) ==> p < queue_families@.len()
            && queue_families@[p as int].present_capable(),
{
    let ghost fs = queue_families@;
    proof {
        lemma_scan_complete(fs, 0, None, None);
    }
    let mut indices = QueueFamilyIndices::new();
    let mut index: usize = 0;
    while index < queue_families.len()
        invariant
            fs == queue_families@,
            fs.len() <= u32::MAX,
            0 <= index <= fs.len(),
            !indices.complete(),
            selected_queue_families(fs) == scan_queue_families(
                fs,
                index as int,
                indices.graphics_family,
                indices.present_family,
            ),
            indices.graphics_family matches Some(g) ==> g < index && fs[g as int].graphics_capable(),
            indices.present_family matches Some(p) ==> p < index && fs[p as int].present_capable(),
        decreases fs.len() - index,
    {
        let family = queue_families[index];
        if family.queue_count > 0 && family.graphics {
            indices.graphics_family = Some(index as u32);
        }
        if family.queue_count > 0 && family.present {
            indices.present_family = Some(index as u32);
        }
        if indices.is_complete() {
            return indices;
        }
        index += 1;
    }
    indices
}

/// Some entry of `available` reads `name`.
pub open spec fn offers(available: Seq<String>, name: Seq<char>) -> bool {
    exists|j: int| 0 <= j < available.len() && (#[trigger] available[j])@ == name
}

/// Whether some entry of `available` equals `wanted`.
fn contains_name(available: &Vec<String>, wanted: &String) -> (r: bool)
    ensures
        r == offers(available@, wanted@),
{
    let mut j: usize = 0;
    while j < available.len()
        invariant
            0 <= j <= available@.len(),
            forall|jj: int| 0 <= jj < j ==> (#[trigger] available@[jj])@ != wanted@,
        decreases available@.len() - j,
    {
        if available[j] == *wanted {
            return true;
        }
        j += 1;
    }
    false
}

/// Device extensions a device must offer to be used.
pub struct DeviceExtension {
    pub names: [&'static str; 1],
}

impl DeviceExtension {
    /// The set this renderer needs: only the swapchain extension.
    pub fn required() -> (r: Self)
        ensures
            r.names@.len() == 1,
            r.names@[0]@ == "VK_KHR_swapchain"@,
    {
        proof {
            reveal_strlit("VK_KHR_swapchain");
        }
        DeviceExtension { names: ["VK_KHR_swapchain"] }
    }

    /// Every name of the set occurs among `available`.
    pub open spec fn supported_by(&self, available: Seq<String>) -> bool {
        forall|k: int| 0 <= k < self.names@.len() ==> offers(available, #[trigger] self.names@[k]@)
    }

    /// Whether a device offering the extensions `available` offers every name of the set.
    pub fn check_device_extension_support(&self, available: &Vec<String>) -> (r: bool)
        ensures
            r == self.supported_by(available@),
    {
        let mut k: usize = 0;
        while k < self.names.len()
            invariant
                0 <= k <= self.names@.len(),
                forall|kk: int| 0 <= kk < k ==> offers(available@, #[trigger] self.names@[kk]@),
            decreases self.names@.len() - k,
        {
            let wanted: String = self.names[k].to_owned();
            if !contains_name(available, &wanted) {
                assert(!offers(available@, self.names@[k as int]@));
                return false;
            }
            k += 1;
        }
        true
    }
}

/// What the application learned about one physical device and the target surface.
pub struct PhysicalDeviceCandidate {
    pub queue_families: Vec<QueueFamilyProperties>,
    pub extensions: Vec<String>,
    pub swapchain_support: SwapChainSupportDetail,
}

impl PhysicalDeviceCandidate {
    /// Usable for rendering to the surface: graphics and present families resolve, the
    /// required extensions are offered, and the surface reports a format and a present mode.
    pub open spec fn suitable(&self, required: &DeviceExtension) -> bool {
        &&& self.queue_families@.len() <= u32::MAX
        &&& selected_queue_families(self.queue_families@).complete()
        &&& required.supported_by(self.extensions@)
        &&& self.swapchain_support.is_adequate()
    }
}

/// Whether `candidate` can render to the surface it was described for.
pub fn is_physical_device_suitable(
    candidate: &PhysicalDeviceCandidate,
    required: &DeviceExtension,
) -> (r: bool)
    ensures
        r == candidate.suitable(required),
{
    if candidate.queue_families.len() > u32::MAX as usize {
        return false;
    }
    let indices = find_queue_family(&candidate.queue_families);
    indices.is_complete() && required.check_device_extension_support(&candidate.extensions)
        && candidate.swapchain_support.adequate()
}

/// Why no device could be opened.
#[derive(Clone, Copy, Debug, PartialEq, Eq, Structural)]
pub enum AdapterError {
    NoSuitableDevice,
}

/// Index of the first suitable device in enumeration order.
pub fn pick_physical_device(
    candidates: &Vec<PhysicalDeviceCandidate>,
    required: &DeviceExtension,
) -> (r: Result<usize, AdapterError>)
    ensures
        r matches Ok(i) ==> i < candidates@.len() && candidates@[i as int].suitable(required)
            && forall|j: int| 0 <= j < i ==> !(#[trigger] candidates@[j]).suitable(required),
        r is Err <==> forall|j: int|
            0 <= j < candidates@.len() ==> !(#[trigger] candidates@[j]).suitable(required),
{
    let mut i: usize = 0;
    while i < candidates.len()
        invariant
            0 <= i <= candidates@.len(),
            forall|j: int| 0 <= j < i ==> !(#[trigger] candidates@[j]).suitable(required),
        decreases candidates@.len() - i,
    {
        if is_physical_device_suitable(&candidates[i], required) {
            return Ok(i);
        }
        i += 1;
    }
    Err(AdapterError::NoSuitableDevice)
}

/// The distinct families that get a queue: one when graphics and present share a family.
pub fn unique_queue_families(indices: &QueueFamilyIndices) -> (r: Vec<u32>)
    requires
        indices.complete(),
    ensures
        indices.graphics_family == indices.present_family ==> r@ == seq![
            indices.graphics_family.unwrap(),
        ],
        indices.graphics_family != indices.present_family ==> r@ == seq![
            indices.graphics_family.unwrap(),
            indices.present_family.unwrap(),
        ],
{
    let g = indices.graphics_family.unwrap();
    let p = indices.present_family.unwrap();
    let mut families: Vec<u32> = Vec::new();
    families.push(g);
    if g != p {
        families.push(p);
    }
    families
}

/// The selected physical device with the queue families its logical device is opened on.
pub struct Adapter {
    physical_device: usize,
    queue_family_indices: QueueFamilyIndices,
    queue_families: Vec<u32>,
}

impl Adapter {
    pub closed spec fn spec_physical_device(&self) -> usize {
        self.physical_device
    }

    pub closed spec fn spec_queue_family_indices(&self) -> QueueFamilyIndices {
        self.queue_family_indices
    }

    pub closed spec fn spec_queue_families(&self) -> Seq<u32> {
        self.queue_families@
    }

    /// Selects the first suitable device and plans one queue per distinct family.
    pub fn new(candidates: &Vec<PhysicalDeviceCandidate>, required: &DeviceExtension) -> (r:
        Result<Adapter, AdapterError>)
        ensures
            r is Err <==> forall|j: int|
                0 <= j < candidates@.len() ==> !(#[trigger] candidates@[j]).suitable(required),
            r matches Ok(a) ==> {
                let i = a.spec_physical_device() as int;
                let q = a.spec_queue_family_indices();
                &&& 0 <= i < candidates@.len()
                &&& candidates@[i].suitable(required)
                &&& forall|j: int| 0 <= j < i ==> !(#[trigger] candidates@[j]).suitable(required)
                &&& q == selected_queue_families(candidates@[i].queue_families@)
                &&& q.complete()
                &&& (q.graphics_family == q.present_family ==> a.spec_queue_families() == seq![
                    q.graphics_family.unwrap(),
                ])
                &&& (q.graphics_family != q.present_family ==> a.spec_queue_families() == seq![
                    q.graphics_family.unwrap(),
                    q.present_family.unwrap(),
                ])
            },
    {
        let physical_device = match pick_physical_device(candidates, required) {
            Ok(i) => i,
            Err(e) => {
                return Err(e);
            },
        };
        let queue_family_indices = find_queue_family(&candidates[physical_device].queue_families);
        let queue_families = unique_queue_families(&queue_family_indices);
        Ok(Adapter { physical_device, queue_family_indices, queue_families })
    }

    /// Position of the selected device in enumeration order.
    pub fn physical_device(&self) -> (r: usize)
        ensures
            r == self.spec_physical_device(),
    {
        self.physical_device
    }

    pub fn queue_family_indices(&self) -> (r: QueueFamilyIndices)
        ensures
            r == self.spec_queue_family_indices(),
    {
        self.queue_family_indices
    }

    /// The families to create one queue each on, in order.
    pub fn queue_families(&self) -> (r: Vec<u32>)
        ensures
            r@ == self.spec_queue_families(),
    {
        self.queue_families.clone()
    }
}

} // verus!
