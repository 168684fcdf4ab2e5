use phosphor::compute::{EngineState, HistogramCompute};
use phosphor::framebuffer::FramebufferCache;
use phosphor::histogram::{BinPosition, ANALYSIS_PIXELS, HISTOGRAM_BINS};
use phosphor::queues::{DrawQueue, RenderQueues};

fn uniform_readback() -> Vec<u32> {
    vec![ANALYSIS_PIXELS / HISTOGRAM_BINS as u32; HISTOGRAM_BINS]
}

#[test]
fn new_engine_is_idle_with_default_positions() {
    let e = HistogramCompute::new();
    assert_eq!(e.state, EngineState::Idle);
    assert!(!e.is_busy());
    assert_eq!(e.bins, vec![0u32; HISTOGRAM_BINS]);
    assert_eq!(e.low_percentile_bin, BinPosition::at_bin(0));
    assert_eq!(e.high_percentile_bin, BinPosition::at_bin(127));
}

#[test]
fn dispatch_while_busy_is_refused_and_changes_nothing() {
    let mut e = HistogramCompute::new();
    assert!(e.try_dispatch());
    assert!(e.is_busy());
    let bins_before = e.bins.clone();
    let low_before = e.low_percentile_bin;
    let high_before = e.high_percentile_bin;
    assert!(!e.try_dispatch());
    assert_eq!(e.state, EngineState::Dispatching);
    assert_eq!(e.bins, bins_before);
    assert_eq!(e.low_percentile_bin, low_before);
    assert_eq!(e.high_percentile_bin, high_before);
}

#[test]
fn completed_dispatch_updates_positions_and_goes_idle() {
    let mut e = HistogramCompute::new();
    assert!(e.try_dispatch());
    e.submit(Some(uniform_readback()));
    assert_eq!(e.state, EngineState::Idle);
    assert_eq!(e.bins, uniform_readback());
    assert_eq!(e.low_percentile_bin, BinPosition { bin: 76, overshoot: 163840, span: 204800 });
    assert_eq!(e.high_percentile_bin, BinPosition { bin: 115, overshoot: 40960, span: 204800 });
    assert!(e.try_dispatch());
}

#[test]
fn failed_submission_keeps_previous_histogram() {
    let mut e = HistogramCompute::new();
    assert!(e.try_dispatch());
    e.submit(Some(uniform_readback()));
    assert!(e.try_dispatch());
    e.submit(None);
    assert_eq!(e.state, EngineState::Idle);
    assert_eq!(e.bins, uniform_readback());
    assert_eq!(e.low_percentile_bin.bin, 76);
    assert_eq!(e.high_percentile_bin.bin, 115);
}

#[test]
fn readback_short_of_population_keeps_positions() {
    let mut e = HistogramCompute::new();
    let mut bins = vec![0u32; HISTOGRAM_BINS];
    bins[40] = 1000;
    assert!(e.try_dispatch());
    e.submit(Some(bins.clone()));
    assert_eq!(e.bins, bins);
    assert_eq!(e.low_percentile_bin, BinPosition::at_bin(0));
    assert_eq!(e.high_percentile_bin, BinPosition::at_bin(127));
}

#[test]
fn cache_builds_once_until_invalidated() {
    let mut builds = 0u32;
    let mut cache: FramebufferCache<u32> = FramebufferCache::new();
    assert!(!cache.is_built());
    assert!(cache.ensure_built(|| {
        builds += 1;
        41
    }));
    assert!(!cache.ensure_built(|| {
        builds += 1;
        42
    }));
    assert_eq!(builds, 1);
    assert_eq!(cache.get(), Some(&41));
    cache.invalidate();
    assert!(!cache.is_built());
    assert_eq!(cache.get(), None);
    assert!(cache.ensure_built(|| {
        builds += 1;
        43
    }));
    assert!(!cache.ensure_built(|| {
        builds += 1;
        44
    }));
    assert_eq!(builds, 2);
    assert_eq!(cache.get(), Some(&43));
}

#[test]
fn cached_value_is_the_identical_object() {
    let mut cache: FramebufferCache<std::sync::Arc<u8>> = FramebufferCache::new();
    cache.ensure_built(|| std::sync::Arc::new(5));
    let first = cache.get().unwrap().clone();
    cache.ensure_built(|| std::sync::Arc::new(5));
    assert!(std::sync::Arc::ptr_eq(&first, cache.get().unwrap()));
}

#[test]
fn draw_queue_keeps_order_and_empties_on_take() {
    let mut q: DrawQueue<&str> = DrawQueue::new();
    assert!(q.is_empty());
    q.push("a");
    q.push("b");
    q.push("c");
    assert_eq!(q.len(), 3);
    assert_eq!(q.take_all(), vec!["a", "b", "c"]);
    assert!(q.is_empty());
    assert_eq!(q.take_all(), Vec::<&str>::new());
}

#[test]
fn render_queues_cleared_after_submit() {
    let mut qs: RenderQueues<u32, u8, char, i64> = RenderQueues::new();
    qs.queue_mesh(1);
    qs.queue_mesh(2);
    qs.lines.push(3);
    qs.text.push('x');
    qs.occlusion.push(-4);
    assert_eq!(qs.meshes.items, vec![1, 2]);
    assert_eq!(qs.lines.len(), 1);
    qs.clear_after_submit();
    assert!(qs.meshes.is_empty() && qs.lines.is_empty() && qs.text.is_empty() && qs.occlusion.is_empty());
}
