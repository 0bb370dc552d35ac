use vstd::prelude::*;

verus! {

/// How many swapchain images frames rotate through.
#[derive(Clone, Copy, PartialEq, Eq, Structural, Debug)]
pub enum Buffering {
    Double,
    Triple,
}

/// Samples per pixel.
#[derive(Clone, Copy, PartialEq, Eq, Structural, Debug)]
pub enum Multisampling {
    Disable,
    Sample2,
    Sample4,
    Sample8,
}

#[derive(Clone, Copy, PartialEq, Eq, Structural, Debug)]
pub struct GraphicOptions {
    pub multisampling: Multisampling,
    pub buffering: Buffering,
}

impl GraphicOptions {
    /// Two samples per pixel, three swapchain images.
    pub fn default() -> (r: GraphicOptions)
        ensures
            r == (GraphicOptions { multisampling: Multisampling::Sample2, buffering: Buffering::Triple }),
    {
        GraphicOptions { multisampling: Multisampling::Sample2, buffering: Buffering::Triple }
    }
}


/// Samples per pixel that an image can have.
#[derive(Clone, Copy, PartialEq, Eq, Structural, Debug)]
pub enum SampleCount {
    Sample1,
    Sample2,
    Sample4,
    Sample8,
    Sample16,
    Sample32,
    Sample64,
}

impl SampleCount {
    /// The number of samples.
    pub open spec fn samples(self) -> nat {
        match self {
            SampleCount::Sample1 => 1,
            SampleCount::Sample2 => 2,
            SampleCount::Sample4 => 4,
            SampleCount::Sample8 => 8,
            SampleCount::Sample16 => 16,
            SampleCount::Sample32 => 32,
            SampleCount::Sample64 => 64,
        }
    }
}

/// The sample counts that a device supports, one flag per count.
#[derive(Clone, Copy, PartialEq, Eq, Structural, Debug)]
pub struct SampleCounts {
    pub sample1: bool,
    pub sample2: bool,
    pub sample4: bool,
    pub sample8: bool,
    pub sample16: bool,
    pub sample32: bool,
    pub sample64: bool,
}

impl SampleCounts {
    /// Whether `n` samples per pixel are supported.
    pub open spec fn supports(self, n: nat) -> bool {
        if n == 1 {
            self.sample1
        } else if n == 2 {
            self.sample2
        } else if n == 4 {
            self.sample4
        } else if n == 8 {
            self.sample8
        } else if n == 16 {
            self.sample16
        } else if n == 32 {
            self.sample32
        } else if n == 64 {
            self.sample64
        } else {
            false
        }
    }
}

impl Multisampling {
    /// The samples per pixel that this setting asks for.
    pub open spec fn requested(self) -> nat {
        match self {
            Multisampling::Disable => 1,
            Multisampling::Sample2 => 2,
            Multisampling::Sample4 => 4,
            Multisampling::Sample8 => 8,
        }
    }
}

/// The counts that both `a` and `b` support.
pub fn combine_sample_counts(a: SampleCounts, b: SampleCounts) -> (r: SampleCounts)
    ensures
        forall|n: nat| #[trigger] r.supports(n) == (a.supports(n) && b.supports(n)),
{
    SampleCounts {
        sample1: a.sample1 && b.sample1,
        sample2: a.sample2 && b.sample2,
        sample4: a.sample4 && b.sample4,
        sample8: a.sample8 && b.sample8,
        sample16: a.sample16 && b.sample16,
        sample32: a.sample32 && b.sample32,
        sample64: a.sample64 && b.sample64,
    }
}

/// The sample count to render with: the largest of 2, 4 and 8 samples that is
/// supported and not above what `sample` asks for, else a single sample.
pub fn get_sample_count(sample: Multisampling, max_samples: SampleCounts) -> (r: SampleCount)
    ensures
        r.samples() <= sample.requested(),
        r.samples() == 1 || max_samples.supports(r.samples()),
        r.samples() == 1 || r.samples() == 2 || r.samples() == 4 || r.samples() == 8,
        2 <= sample.requested() && max_samples.sample2 ==> 2 <= r.samples(),
        4 <= sample.requested() && max_samples.sample4 ==> 4 <= r.samples(),
        8 <= sample.requested() && max_samples.sample8 ==> 8 <= r.samples(),
{
    let mut vulkan_sample = match sample {
        Multisampling::Disable => SampleCount::Sample1,
        Multisampling::Sample2 => SampleCount::Sample2,
        Multisampling::Sample4 => SampleCount::Sample4,
        Multisampling::Sample8 => SampleCount::Sample8,
    };
    if vulkan_sample == SampleCount::Sample1 {
        return SampleCount::Sample1;
    }
    if vulkan_sample == SampleCount::Sample8 && !max_samples.sample8 {
        vulkan_sample = SampleCount::Sample4;
    }
    if vulkan_sample == SampleCount::Sample4 && !max_samples.sample4 {
        vulkan_sample = SampleCount::Sample2;
    }
    if vulkan_sample == SampleCount::Sample2 && !max_samples.sample2 {
        return SampleCount::Sample1;
    }
    vulkan_sample
}

impl Buffering {
    /// The number of swapchain images that this setting asks for.
    pub open spec fn target_images(self) -> u32 {
        match self {
            Buffering::Double => 2,
            Buffering::Triple => 3,
        }
    }
}

/// The image count to create a swapchain with: the smaller of what the
/// options ask for and the surface's minimum image count.
pub fn swapchain_image_count(options: GraphicOptions, min_image_count: u32) -> (r: u32)
    ensures
        r == if options.buffering.target_images() <= min_image_count {
            options.buffering.target_images()
        } else {
            min_image_count
        },
{
    let target_image_count: u32 = match options.buffering {
        Buffering::Double => 2,
        Buffering::Triple => 3,
    };
    if target_image_count <= min_image_count {
        target_image_count
    } else {
        min_image_count
    }
}

} // verus!
