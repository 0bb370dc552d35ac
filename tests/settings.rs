use voxel_engine::options::{
    combine_sample_counts, get_sample_count, swapchain_image_count, Buffering, GraphicOptions,
    Multisampling, SampleCount, SampleCounts,
};
use voxel_engine::time::Time;

fn counts(s2: bool, s4: bool, s8: bool) -> SampleCounts {
    SampleCounts { sample1: true, sample2: s2, sample4: s4, sample8: s8, sample16: false, sample32: false, sample64: false }
}

#[test]
fn default_options() {
    let o = GraphicOptions::default();
    assert_eq!(o.multisampling, Multisampling::Sample2);
    assert_eq!(o.buffering, Buffering::Triple);
}

#[test]
fn sample_count_falls_back() {
    assert_eq!(get_sample_count(Multisampling::Disable, counts(true, true, true)), SampleCount::Sample1);
    assert_eq!(get_sample_count(Multisampling::Sample8, counts(true, true, true)), SampleCount::Sample8);
    assert_eq!(get_sample_count(Multisampling::Sample8, counts(true, true, false)), SampleCount::Sample4);
    assert_eq!(get_sample_count(Multisampling::Sample8, counts(true, false, false)), SampleCount::Sample2);
    assert_eq!(get_sample_count(Multisampling::Sample8, counts(false, false, false)), SampleCount::Sample1);
    assert_eq!(get_sample_count(Multisampling::Sample4, counts(true, false, true)), SampleCount::Sample2);
    assert_eq!(get_sample_count(Multisampling::Sample2, counts(false, true, true)), SampleCount::Sample1);
}

#[test]
fn combined_counts_are_the_common_ones() {
    let a = SampleCounts { sample1: true, sample2: true, sample4: false, sample8: true, sample16: true, sample32: false, sample64: true };
    let b = SampleCounts { sample1: true, sample2: false, sample4: true, sample8: true, sample16: false, sample32: true, sample64: true };
    let c = combine_sample_counts(a, b);
    assert_eq!(c, SampleCounts { sample1: true, sample2: false, sample4: false, sample8: true, sample16: false, sample32: false, sample64: true });
}

#[test]
fn image_count_is_the_smaller() {
    let double = GraphicOptions { multisampling: Multisampling::Disable, buffering: Buffering::Double };
    let triple = GraphicOptions::default();
    assert_eq!(swapchain_image_count(triple, 2), 2);
    assert_eq!(swapchain_image_count(triple, 4), 3);
    assert_eq!(swapchain_image_count(double, 3), 2);
    assert_eq!(swapchain_image_count(double, 1), 1);
}

#[test]
fn time_moves_forward() {
    let a = Time::now();
    let b = Time::now();
    assert!(b.duration_since(&a).as_nanos() < 60_000_000_000);
    assert_eq!(a.duration_since(&b).as_nanos(), 0);
}
