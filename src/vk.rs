//! Plain-value models of the Vulkan handles, codes and records that the
//! surface extension passes across the native boundary.
use vstd::prelude::*;

verus! {

/// `VkResult` value: the command completed successfully.
pub const SUCCESS: i32 = 0;

/// `VkResult` value: a return array was too small for the result.
pub const INCOMPLETE: i32 = 5;

/// `VkResult` value: a host memory allocation has failed.
pub const ERROR_OUT_OF_HOST_MEMORY: i32 = -1;

/// `VkResult` value: a device memory allocation has failed.
pub const ERROR_OUT_OF_DEVICE_MEMORY: i32 = -2;

/// `VkResult` value: a surface is no longer available.
pub const ERROR_SURFACE_LOST_KHR: i32 = -1000000000;

/// `VK_TRUE`, the canonical true value of a `VkBool32`.
pub const TRUE: u32 = 1;

/// `VK_FALSE`, the false value of a `VkBool32`.
pub const FALSE: u32 = 0;

/// A `VkBool32` as the native side writes it.
pub type Bool32 = u32;

/// A `VkInstance` handle, by its raw value.
#[derive(Clone, Copy, Debug, PartialEq, Eq, Structural)]
pub struct Instance(pub u64);

/// A `VkPhysicalDevice` handle, by its raw value.
#[derive(Clone, Copy, Debug, PartialEq, Eq, Structural)]
pub struct PhysicalDevice(pub u64);

/// A `VkSurfaceKHR` handle, by its raw value.
#[derive(Clone, Copy, Debug, PartialEq, Eq, Structural)]
pub struct SurfaceKHR(pub u64);

/// A raw `VkResult` code as a native command returns it.
#[derive(Clone, Copy, Debug, PartialEq, Eq, Structural)]
pub struct ResultCode(pub i32);

impl ResultCode {
    /// Whether the code reports success.
    pub open spec fn spec_is_success(self) -> bool {
        self.0 == SUCCESS
    }

    /// Whether the code reports success (`VK_SUCCESS`).
    pub fn is_success(&self) -> (r: bool)
        ensures
            r == self.spec_is_success(),
    {
        self.0 == SUCCESS
    }
}

/// The outcome of a command: its output on success, else the code it returned.
pub type VkResult<T> = Result<T, ResultCode>;

/// The outcome that a command has, given the code it returned and the output
/// it wrote.
pub open spec fn spec_result<T>(code: ResultCode, value: T) -> VkResult<T> {
    if code.spec_is_success() {
        Ok(value)
    } else {
        Err(code)
    }
}

/// Turns the code a command returned, together with the output it wrote, into
/// the command's outcome: the output on success, the code itself otherwise.
pub fn result_from_code<T>(code: ResultCode, value: T) -> (r: VkResult<T>)
    ensures
        r == spec_result(code, value),
        r is Ok <==> code.0 == SUCCESS,
{
    if code.is_success() {
        Ok(value)
    } else {
        Err(code)
    }
}

/// Whether a `VkBool32` counts as true: any value above `VK_FALSE`.
pub open spec fn spec_bool32(b: Bool32) -> bool {
    b > FALSE
}

/// Reads a `VkBool32` as a `bool`.
pub fn bool_from_bool32(b: Bool32) -> (r: bool)
    ensures
        r == spec_bool32(b),
        r == (b != 0),
{
    b > FALSE
}

/// `VkPresentModeKHR`, by its raw value.
#[derive(Clone, Copy, Debug, PartialEq, Eq, Structural)]
pub struct PresentModeKHR(pub i32);

/// `VkSurfaceFormatKHR`: a supported pair of pixel format and color space,
/// each by its raw value.
#[derive(Clone, Copy, Debug, PartialEq, Eq, Structural)]
pub struct SurfaceFormatKHR {
    pub format: i32,
    pub color_space: i32,
}

/// `VkExtent2D`.
#[derive(Clone, Copy, Debug, PartialEq, Eq, Structural)]
pub struct Extent2D {
    pub width: u32,
    pub height: u32,
}

/// `VkSurfaceCapabilitiesKHR`, with each flag set by its raw bits.
#[derive(Clone, Copy, Debug, PartialEq, Eq, Structural)]
pub struct SurfaceCapabilitiesKHR {
    pub min_image_count: u32,
    pub max_image_count: u32,
    pub current_extent: Extent2D,
    pub min_image_extent: Extent2D,
    pub max_image_extent: Extent2D,
    pub max_image_array_layers: u32,
    pub supported_transforms: u32,
    pub current_transform: u32,
    pub supported_composite_alpha: u32,
    pub supported_usage_flags: u32,
}

} // verus!
