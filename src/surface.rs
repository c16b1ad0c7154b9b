//! `VK_KHR_surface`: the entry points of the extension, resolved once per
//! instance, and the commands that call through them.
//!
//! Each native command is reached through a callable that the caller supplies:
//! it receives the resolved entry point and the command's arguments as plain
//! values, performs the call, and hands back what the command returned and
//! wrote. This module decides which entry point is called, with what, and in
//! what order, and what the caller gets back.
use crate::vk::{
    bool_from_bool32, result_from_code, spec_bool32, spec_result, Bool32, Instance,
    PhysicalDevice, PresentModeKHR, ResultCode, SurfaceCapabilitiesKHR, SurfaceFormatKHR,
    SurfaceKHR, VkResult,
};
use vstd::prelude::*;

verus! {

/// The elements that a filling call wrote: at most `count` of those it handed
/// back, where `count` is the number it reports, bounded by the capacity it
/// was offered.
pub open spec fn written_prefix<T>(capacity: u32, count: u32, items: Seq<T>) -> Seq<T> {
    let n: int = if count <= capacity { count as int } else { capacity as int };
    if n < items.len() {
        items.take(n)
    } else {
        items
    }
}

/// The outcome of an enumeration whose filling call returned `code`.
pub open spec fn spec_enumeration<T>(
    code: ResultCode,
    capacity: u32,
    count: u32,
    items: Seq<T>,
) -> Result<Seq<T>, ResultCode> {
    if code.spec_is_success() {
        Ok(written_prefix(capacity, count, items))
    } else {
        Err(code)
    }
}

/// An outcome holding a vector, seen with the vector's contents.
pub open spec fn view_result<T>(r: VkResult<Vec<T>>) -> Result<Seq<T>, ResultCode> {
    match r {
        Ok(v) => Ok(v@),
        Err(e) => Err(e),
    }
}

/// Completes the second call of an enumeration: the call was offered room for
/// `capacity` elements, returned `code`, reported `count` elements and handed
/// back `items`. On success the result holds the elements written, in order;
/// otherwise it is the code.
pub fn finish_enumeration<T>(
    code: ResultCode,
    capacity: u32,
    count: u32,
    items: Vec<T>,
) -> (r: VkResult<Vec<T>>)
    ensures
        view_result(r) == spec_enumeration(code, capacity, count, items@),
        r is Ok <==> code.spec_is_success(),
{
    if !code.is_success() {
        return Err(code);
    }
    let n: u32 = if count <= capacity {
        count
    } else {
        capacity
    };
    let mut items = items;
    if (n as usize) < items.len() {
        items.truncate(n as usize);
    }
    Ok(items)
}

/// Whether `r` is what an enumeration through `call` can give: a first call
/// without room (`None`) asks for the number of elements; if it fails, its
/// code is the outcome; otherwise a second call is offered room for exactly
/// that number, and its code and the elements it wrote decide the outcome.
pub open spec fn enumerated_by<T, F>(
    call: F,
    entry: u64,
    physical_device: PhysicalDevice,
    surface: SurfaceKHR,
    r: Result<Seq<T>, ResultCode>,
) -> bool where
    F: Fn(u64, PhysicalDevice, SurfaceKHR, Option<u32>) -> (ResultCode, u32, Vec<T>),
 {
    exists|first: (ResultCode, u32, Vec<T>)|
        #[trigger] call.ensures((entry, physical_device, surface, None::<u32>), first)
            && if !first.0.spec_is_success() {
            r == Err::<Seq<T>, ResultCode>(first.0)
        } else {
            exists|second: (ResultCode, u32, Vec<T>)|
                #[trigger] call.ensures((entry, physical_device, surface, Some(first.1)), second)
                    && r == spec_enumeration(second.0, first.1, second.1, second.2@)
        }
}

/// Runs the two-call enumeration pattern through `call`.
fn enumerate<T, F>(
    call: &F,
    entry: u64,
    physical_device: PhysicalDevice,
    surface: SurfaceKHR,
) -> (r: VkResult<Vec<T>>) where
    F: Fn(u64, PhysicalDevice, SurfaceKHR, Option<u32>) -> (ResultCode, u32, Vec<T>),
    requires
        forall|room: Option<u32>| call.requires((entry, physical_device, surface, room)),
    ensures
        enumerated_by(*call, entry, physical_device, surface, view_result(r)),
{
    let first = call(entry, physical_device, surface, None);
    if !first.0.is_success() {
        return Err(first.0);
    }
    let capacity = first.1;
    let second = call(entry, physical_device, surface, Some(capacity));
    finish_enumeration(second.0, capacity, second.1, second.2)
}

/// Native name of the command that destroys a surface.
pub const DESTROY_SURFACE_KHR: &'static str = "vkDestroySurfaceKHR";

/// Native name of the command that asks whether a queue family can present.
pub const GET_PHYSICAL_DEVICE_SURFACE_SUPPORT_KHR: &'static str =
    "vkGetPhysicalDeviceSurfaceSupportKHR";

/// Native name of the command that reports a surface's capabilities.
pub const GET_PHYSICAL_DEVICE_SURFACE_CAPABILITIES_KHR: &'static str =
    "vkGetPhysicalDeviceSurfaceCapabilitiesKHR";

/// Native name of the command that lists a surface's formats.
pub const GET_PHYSICAL_DEVICE_SURFACE_FORMATS_KHR: &'static str =
    "vkGetPhysicalDeviceSurfaceFormatsKHR";

/// Native name of the command that lists a surface's present modes.
pub const GET_PHYSICAL_DEVICE_SURFACE_PRESENT_MODES_KHR: &'static str =
    "vkGetPhysicalDeviceSurfacePresentModesKHR";

/// The entry points of the extension, each by the address that the loader
/// gave for it (zero where it gave none).
#[derive(Clone, Copy, Debug, PartialEq, Eq, Structural)]
pub struct SurfaceFn {
    pub destroy_surface_khr: u64,
    pub get_physical_device_surface_support_khr: u64,
    pub get_physical_device_surface_capabilities_khr: u64,
    pub get_physical_device_surface_formats_khr: u64,
    pub get_physical_device_surface_present_modes_khr: u64,
}

/// Whether `lookup`, asked for the entry point `name` of `instance`, can
/// answer `addr`.
pub open spec fn resolves<F>(lookup: F, instance: Instance, name: &str, addr: u64) -> bool where
    F: Fn(Instance, &str) -> u64,
 {
    lookup.ensures((instance, name), addr)
}

/// Whether `lookup`, asked for the entry point `name` of `instance`, can
/// answer with an address.
pub open spec fn found<F>(lookup: F, instance: Instance, name: &str) -> bool where
    F: Fn(Instance, &str) -> u64,
 {
    exists|addr: u64| addr != 0 && #[trigger] resolves(lookup, instance, name, addr)
}

/// Whether the error `e` is what a failed load through `lookup` gives: the
/// native name of an entry point for which `lookup` answered zero, after it
/// answered with an address for every entry point before it.
pub open spec fn missing_entry_point<F>(lookup: F, instance: Instance, e: Seq<char>) -> bool where
    F: Fn(Instance, &str) -> u64,
 {
    let destroy = DESTROY_SURFACE_KHR;
    let support = GET_PHYSICAL_DEVICE_SURFACE_SUPPORT_KHR;
    let capabilities = GET_PHYSICAL_DEVICE_SURFACE_CAPABILITIES_KHR;
    let formats = GET_PHYSICAL_DEVICE_SURFACE_FORMATS_KHR;
    let present_modes = GET_PHYSICAL_DEVICE_SURFACE_PRESENT_MODES_KHR;
    ||| e == destroy@ && resolves(lookup, instance, destroy, 0)
    ||| e == support@ && found(lookup, instance, destroy) && resolves(lookup, instance, support, 0)
    ||| e == capabilities@ && found(lookup, instance, destroy) && found(lookup, instance, support)
        && resolves(lookup, instance, capabilities, 0)
    ||| e == formats@ && found(lookup, instance, destroy) && found(lookup, instance, support)
        && found(lookup, instance, capabilities) && resolves(lookup, instance, formats, 0)
    ||| e == present_modes@ && found(lookup, instance, destroy) && found(lookup, instance, support)
        && found(lookup, instance, capabilities) && found(lookup, instance, formats)
        && resolves(lookup, instance, present_modes, 0)
}

/// Looks up one entry point; its name is the error where none is found.
fn resolve<F>(lookup: &F, instance: Instance, name: &str) -> (r: Result<u64, String>) where
    F: Fn(Instance, &str) -> u64,
    requires
        forall|n: &str| lookup.requires((instance, n)),
    ensures
        match r {
            Ok(addr) => addr != 0 && resolves(*lookup, instance, name, addr),
            Err(e) => e@ == name@ && resolves(*lookup, instance, name, 0),
        },
{
    let addr = lookup(instance, name);
    if addr == 0 {
        Err(name.to_string())
    } else {
        Ok(addr)
    }
}

impl SurfaceFn {
    /// Every entry point was found.
    pub open spec fn wf(&self) -> bool {
        &&& self.destroy_surface_khr != 0
        &&& self.get_physical_device_surface_support_khr != 0
        &&& self.get_physical_device_surface_capabilities_khr != 0
        &&& self.get_physical_device_surface_formats_khr != 0
        &&& self.get_physical_device_surface_present_modes_khr != 0
    }

    /// Each entry point holds what `lookup` answered for its name.
    pub open spec fn resolved_by<F>(&self, lookup: F, instance: Instance) -> bool where
        F: Fn(Instance, &str) -> u64,
     {
        &&& resolves(lookup, instance, DESTROY_SURFACE_KHR, self.destroy_surface_khr)
        &&& resolves(
            lookup,
            instance,
            GET_PHYSICAL_DEVICE_SURFACE_SUPPORT_KHR,
            self.get_physical_device_surface_support_khr,
        )
        &&& resolves(
            lookup,
            instance,
            GET_PHYSICAL_DEVICE_SURFACE_CAPABILITIES_KHR,
            self.get_physical_device_surface_capabilities_khr,
        )
        &&& resolves(
            lookup,
            instance,
            GET_PHYSICAL_DEVICE_SURFACE_FORMATS_KHR,
            self.get_physical_device_surface_formats_khr,
        )
        &&& resolves(
            lookup,
            instance,
            GET_PHYSICAL_DEVICE_SURFACE_PRESENT_MODES_KHR,
            self.get_physical_device_surface_present_modes_khr,
        )
    }

    /// Whether every entry point was found.
    pub fn is_loaded(&self) -> (r: bool)
        ensures
            r == self.wf(),
    {
        self.destroy_surface_khr != 0 && self.get_physical_device_surface_support_khr != 0
            && self.get_physical_device_surface_capabilities_khr != 0
            && self.get_physical_device_surface_formats_khr != 0
            && self.get_physical_device_surface_present_modes_khr != 0
    }

    /// Resolves every entry point of the extension for `instance` through
    /// `lookup` (the loader's `vkGetInstanceProcAddr`), in the order of the
    /// fields. The first one it cannot find ends the load, and its native name
    /// is the error.
    pub fn load<F>(instance: Instance, lookup: &F) -> (r: Result<SurfaceFn, String>) where
        F: Fn(Instance, &str) -> u64,
        requires
            forall|n: &str| lookup.requires((instance, n)),
        ensures
            match r {
                Ok(t) => t.wf() && t.resolved_by(*lookup, instance),
                Err(e) => missing_entry_point(*lookup, instance, e@),
            },
    {
        let destroy_surface_khr = resolve(lookup, instance, DESTROY_SURFACE_KHR)?;
        let get_physical_device_surface_support_khr = resolve(
            lookup,
            instance,
            GET_PHYSICAL_DEVICE_SURFACE_SUPPORT_KHR,
        )?;
        let get_physical_device_surface_capabilities_khr = resolve(
            lookup,
            instance,
            GET_PHYSICAL_DEVICE_SURFACE_CAPABILITIES_KHR,
        )?;
        let get_physical_device_surface_formats_khr = resolve(
            lookup,
            instance,
            GET_PHYSICAL_DEVICE_SURFACE_FORMATS_KHR,
        )?;
        let get_physical_device_surface_present_modes_khr = resolve(
            lookup,
            instance,
            GET_PHYSICAL_DEVICE_SURFACE_PRESENT_MODES_KHR,
        )?;
        Ok(SurfaceFn {
            destroy_surface_khr,
            get_physical_device_surface_support_khr,
            get_physical_device_surface_capabilities_khr,
            get_physical_device_surface_formats_khr,
            get_physical_device_surface_present_modes_khr,
        })
    }
}

/// The surface extension of one instance: the instance's handle and the
/// extension's entry points, resolved for it.
#[derive(Clone, Copy, Debug, PartialEq, Eq, Structural)]
pub struct Surface {
    pub handle: Instance,
    pub surface_fn: SurfaceFn,
}

impl Surface {
    /// Every entry point of the extension was found.
    pub open spec fn wf(&self) -> bool {
        self.surface_fn.wf()
    }

    /// Whether every entry point of the extension was found.
    pub fn is_loaded(&self) -> (r: bool)
        ensures
            r == self.wf(),
    {
        self.surface_fn.is_loaded()
    }

    /// Loads the extension for `instance`, looking up each entry point
    /// through `get_instance_proc_addr` (the loader's `vkGetInstanceProcAddr`).
    /// Fails with the native name of the first entry point it cannot find.
    pub fn new<F>(
        instance: Instance,
        get_instance_proc_addr: F,
    ) -> (r: Result<Surface, String>) where F: Fn(Instance, &str) -> u64

        requires
            forall|n: &str| get_instance_proc_addr.requires((instance, n)),
        ensures
            match r {
                Ok(s) => {
                    &&& s.wf()
                    &&& s.handle == instance
                    &&& s.surface_fn.resolved_by(get_instance_proc_addr, instance)
                },
                Err(e) => missing_entry_point(get_instance_proc_addr, instance, e@),
            },
    {
        let surface_fn = SurfaceFn::load(instance, &get_instance_proc_addr)?;
        Ok(Surface { handle: instance, surface_fn })
    }

    /// Whether queue family `queue_index` of `physical_device` can present to
    /// `surface`. `call` performs `vkGetPhysicalDeviceSurfaceSupportKHR` through
    /// the entry point it is given and hands back the `VkBool32` written.
    pub fn get_physical_device_surface_support_khr<F>(
        &self,
        physical_device: PhysicalDevice,
        queue_index: u32,
        surface: SurfaceKHR,
        call: F,
    ) -> (r: bool) where F: Fn(u64, PhysicalDevice, u32, SurfaceKHR) -> Bool32
        requires
            self.wf(),
            call.requires(
                (
                    self.surface_fn.get_physical_device_surface_support_khr,
                    physical_device,
                    queue_index,
                    surface,
                ),
            ),
        ensures
            exists|b: Bool32|
                #[trigger] call.ensures(
                    (
                        self.surface_fn.get_physical_device_surface_support_khr,
                        physical_device,
                        queue_index,
                        surface,
                    ),
                    b,
                ) && r == spec_bool32(b),
    {
        let b = call(
            self.surface_fn.get_physical_device_surface_support_khr,
            physical_device,
            queue_index,
            surface,
        );
        bool_from_bool32(b)
    }

    /// The present modes that `physical_device` supports for `surface`, or the
    /// code of the call that failed. `call` performs
    /// `vkGetPhysicalDeviceSurfacePresentModesKHR` through the entry point it is
    /// given: offered no room it reports the number of modes; offered room for
    /// some, it hands back those it wrote.
    pub fn get_physical_device_surface_present_modes_khr<F>(
        &self,
        physical_device: PhysicalDevice,
        surface: SurfaceKHR,
        call: F,
    ) -> (r: VkResult<Vec<PresentModeKHR>>) where
        F: Fn(u64, PhysicalDevice, SurfaceKHR, Option<u32>)
            -> (ResultCode, u32, Vec<PresentModeKHR>),
        requires
            self.wf(),
            forall|room: Option<u32>|
                call.requires(
                    (
                        self.surface_fn.get_physical_device_surface_present_modes_khr,
                        physical_device,
                        surface,
                        room,
                    ),
                ),
        ensures
            enumerated_by(
                call,
                self.surface_fn.get_physical_device_surface_present_modes_khr,
                physical_device,
                surface,
                view_result(r),
            ),
    {
        enumerate(
            &call,
            self.surface_fn.get_physical_device_surface_present_modes_khr,
            physical_device,
            surface,
        )
    }

    /// The capabilities of `surface` on `physical_device`, or the code of the
    /// failed call. `call` performs `vkGetPhysicalDeviceSurfaceCapabilitiesKHR`
    /// through the entry point it is given and hands back the code it
    /// returned and the record it wrote.
    pub fn get_physical_device_surface_capabilities_khr<F>(
        &self,
        physical_device: PhysicalDevice,
        surface: SurfaceKHR,
        call: F,
    ) -> (r: VkResult<SurfaceCapabilitiesKHR>) where
        F: Fn(u64, PhysicalDevice, SurfaceKHR) -> (ResultCode, SurfaceCapabilitiesKHR),
        requires
            self.wf(),
            call.requires(
                (
                    self.surface_fn.get_physical_device_surface_capabilities_khr,
                    physical_device,
                    surface,
                ),
            ),
        ensures
            exists|out: (ResultCode, SurfaceCapabilitiesKHR)|
                #[trigger] call.ensures(
                    (
                        self.surface_fn.get_physical_device_surface_capabilities_khr,
                        physical_device,
                        surface,
                    ),
                    out,
                ) && r == spec_result(out.0, out.1),
    {
        let (code, capabilities) = call(
            self.surface_fn.get_physical_device_surface_capabilities_khr,
            physical_device,
            surface,
        );
        result_from_code(code, capabilities)
    }

    /// The formats that `physical_device` supports for `surface`, or the code
    /// of the call that failed. `call` performs
    /// `vkGetPhysicalDeviceSurfaceFormatsKHR` through the entry point it is
    /// given: offered no room it reports the number of formats; offered room for
    /// some, it hands back those it wrote.
    pub fn get_physical_device_surface_formats_khr<F>(
        &self,
        physical_device: PhysicalDevice,
        surface: SurfaceKHR,
        call: F,
    ) -> (r: VkResult<Vec<SurfaceFormatKHR>>) where
        F: Fn(u64, PhysicalDevice, SurfaceKHR, Option<u32>)
            -> (ResultCode, u32, Vec<SurfaceFormatKHR>),
        requires
            self.wf(),
            forall|room: Option<u32>|
                call.requires(
                    (
                        self.surface_fn.get_physical_device_surface_formats_khr,
                        physical_device,
                        surface,
                        room,
                    ),
                ),
        ensures
            enumerated_by(
                call,
                self.surface_fn.get_physical_device_surface_formats_khr,
                physical_device,
                surface,
                view_result(r),
            ),
    {
        enumerate(
            &call,
            self.surface_fn.get_physical_device_surface_formats_khr,
            physical_device,
            surface,
        )
    }

    /// Destroys `surface`, with no allocation callbacks. `call` performs
    /// `vkDestroySurfaceKHR` through the entry point it is given, for the
    /// instance it is given.
    pub fn destroy_surface_khr<F>(&self, surface: SurfaceKHR, call: F) where
        F: Fn(u64, Instance, SurfaceKHR),
        requires
            self.wf(),
            call.requires((self.surface_fn.destroy_surface_khr, self.handle, surface)),
        ensures
            call.ensures((self.surface_fn.destroy_surface_khr, self.handle, surface), ()),
    {
        call(self.surface_fn.destroy_surface_khr, self.handle, surface)
    }
}

} // verus!
