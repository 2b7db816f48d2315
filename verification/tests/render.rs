use attractors::raster::accumulate;
use attractors::raster::gen_hist;
use attractors::raster::search_edges;
use attractors::Attractor;
use attractors::Renderer;
use attractors::Variant;

#[derive(Clone, Copy)]
struct Extent {
    top: f64,
    left: f64,
    bottom: f64,
    right: f64,
}

#[derive(Clone, Copy)]
struct Window {
    wc: f64,
    hc: f64,
    m: f64,
}

fn no_extent() -> Extent {
    Extent { top: f64::MAX, left: f64::MAX, bottom: f64::MIN, right: f64::MIN }
}

fn widened(seen: Extent, x: f64, y: f64) -> Extent {
    Extent {
        top: seen.top.min(y),
        left: seen.left.min(x),
        bottom: seen.bottom.max(y),
        right: seen.right.max(x),
    }
}

fn fitted(seen: &Extent, width: usize, height: usize) -> Option<Window> {
    let (dx, dy) = (seen.right - seen.left, seen.bottom - seen.top);
    if !(dx > 0.0 && dy > 0.0 && dx.is_finite() && dy.is_finite()) {
        return None;
    }
    Some(Window {
        wc: (seen.right + seen.left) * 0.5,
        hc: (seen.bottom + seen.top) * 0.5,
        m: (width as f64 / dx).min(height as f64 / dy),
    })
}

fn located(view: &Window, x: f64, y: f64) -> (i64, i64) {
    (((x - view.wc) * view.m).round() as i64, ((y - view.hc) * view.m).round() as i64)
}

struct Trig {
    coefs: [f64; 8],
    init: (f64, f64),
    at: (f64, f64),
}

impl Trig {
    fn standard() -> Self {
        Trig { coefs: [1.0; 8], init: (0.5, 0.5), at: (0.5, 0.5) }
    }
}

impl Attractor for Trig {
    type Bounds = Extent;
    type Viewport = Window;

    fn apply_map_func(&mut self) {
        let (x, y) = self.at;
        let c = &self.coefs;
        self.at = (
            (c[0] * x * x + c[1] * x * y + c[2] * y * y + c[3]).sin(),
            (c[4] * x * x + c[5] * x * y + c[6] * y * y + c[7]).cos(),
        );
    }

    fn set_init(&mut self) {
        self.at = self.init;
    }

    fn unseen(&self) -> Extent {
        no_extent()
    }

    fn widen(&self, seen: Extent) -> Extent {
        widened(seen, self.at.0, self.at.1)
    }

    fn fit(&self, seen: &Extent, width: usize, height: usize) -> Option<Window> {
        fitted(seen, width, height)
    }

    fn locate(&self, view: &Window) -> (i64, i64) {
        located(view, self.at.0, self.at.1)
    }
}

fn cosine_tone(count: u64, peak: u64, n: usize, width: usize, height: usize) -> (u8, u8, u8) {
    let v = count as f64 / peak as f64;
    let factor =
        (10_000_000.0 / (n as f64)).sqrt() * ((width * height) as f64) / (1024.0 * 1024.0) * 100.0;
    let phase = v.powf(0.3) * 5.0;
    let bright = v.powf(0.4) * 20.0 * factor;
    let channel = |base: f64, amp: f64, freq: f64, shift: f64| {
        ((base + amp * ((freq * phase + shift) * std::f64::consts::TAU).cos()) * bright)
            .clamp(0.0, 255.0) as u8
    };
    (channel(0.5, 0.25, 1.0, 0.0), channel(0.5, 0.25, 1.0, 0.33), channel(0.5, 0.25, 1.0, 0.67))
}

#[test]
fn trigonometric_histogram_counts_every_step_after_the_transient() {
    let mut system = Trig::standard();
    let hist = gen_hist(&mut system, Variant::Trigonometric, 100000, 256, 256);
    assert_eq!(hist.total(), 100000 - 500);
    assert_eq!(hist.width(), 256);
    assert_eq!(hist.height(), 256);
    assert!(hist.max_count() >= 1);
}

#[test]
fn trigonometric_default_renders_twice_the_same_and_not_black() {
    let mut first = Renderer::new(Trig::standard(), Variant::Trigonometric);
    let mut second = Renderer::new(Trig::standard(), Variant::Trigonometric);
    let a = first.gen_img(100000, 256, 256, &cosine_tone);
    let b = second.gen_img(100000, 256, 256, &cosine_tone);
    let (a, b) = (a.into_rgb8(), b.into_rgb8());
    assert_eq!(a.dimensions(), (256, 256));
    assert_eq!(a.as_raw().len(), 3 * 256 * 256);
    assert_eq!(a.as_raw(), b.as_raw());
    assert!(a.as_raw().iter().any(|&s| s != 0));
    let again = first.gen_img(100000, 256, 256, &cosine_tone).into_rgb8();
    assert_eq!(a.as_raw(), again.as_raw());
}

struct Quadratic {
    coefs: [f64; 12],
    init: (f64, f64),
    at: (f64, f64),
    steps: usize,
}

impl Quadratic {
    fn with(coefs: [f64; 12]) -> Self {
        Quadratic { coefs, init: (0.5, 0.5), at: (0.5, 0.5), steps: 0 }
    }

    fn fixed_point() -> Self {
        let mut coefs = [0.0; 12];
        coefs[5] = 0.5;
        coefs[11] = 0.5;
        Quadratic::with(coefs)
    }
}

impl Attractor for Quadratic {
    type Bounds = Extent;
    type Viewport = Window;

    fn apply_map_func(&mut self) {
        let (x, y) = self.at;
        let c = &self.coefs;
        self.at = (
            c[0] * x * x + c[1] * x + c[2] * x * y + c[3] * y + c[4] * y * y + c[5],
            c[6] * x * x + c[7] * x + c[8] * x * y + c[9] * y + c[10] * y * y + c[11],
        );
        self.steps += 1;
    }

    fn set_init(&mut self) {
        self.at = self.init;
    }

    fn unseen(&self) -> Extent {
        no_extent()
    }

    fn widen(&self, seen: Extent) -> Extent {
        widened(seen, self.at.0, self.at.1)
    }

    fn fit(&self, seen: &Extent, width: usize, height: usize) -> Option<Window> {
        fitted(seen, width, height)
    }

    fn locate(&self, view: &Window) -> (i64, i64) {
        located(view, self.at.0, self.at.1)
    }
}

/// A system on whole numbers: it counts its steps, and its point lies at an
/// offset from the centre that follows from the count.
struct Walker {
    steps: usize,
    since_reset: i64,
    resets: usize,
    looks: usize,
    degenerate: bool,
}

impl Walker {
    fn new() -> Self {
        Walker { steps: 0, since_reset: 0, resets: 0, looks: 0, degenerate: false }
    }
}

impl Attractor for Walker {
    type Bounds = usize;
    type Viewport = (usize, usize);

    fn apply_map_func(&mut self) {
        self.steps += 1;
        self.since_reset += 1;
    }

    fn set_init(&mut self) {
        self.since_reset = 0;
        self.resets += 1;
    }

    fn unseen(&self) -> usize {
        0
    }

    fn widen(&self, seen: usize) -> usize {
        seen + 1
    }

    fn fit(&self, seen: &usize, width: usize, height: usize) -> Option<(usize, usize)> {
        if self.degenerate || *seen == 0 {
            None
        } else {
            Some((width, height))
        }
    }

    fn locate(&self, _view: &(usize, usize)) -> (i64, i64) {
        (self.since_reset % 3 - 1, 2 * (self.since_reset % 2))
    }
}

fn black(_count: u64, _peak: u64, _n: usize, _width: usize, _height: usize) -> (u8, u8, u8) {
    (0, 0, 0)
}

fn count_as_red(count: u64, peak: u64, _n: usize, _width: usize, _height: usize) -> (u8, u8, u8) {
    (count.min(255) as u8, peak.min(255) as u8, 9)
}

#[test]
fn a_map_without_structure_renders_a_blank_canvas() {
    let mut system = Quadratic::fixed_point();
    let hist = gen_hist(&mut system, Variant::Quadratic, 100000, 64, 48);
    assert_eq!(hist.total(), 0);
    assert_eq!(hist.max_count(), 0);
    assert_eq!((hist.width(), hist.height()), (64, 48));

    let mut renderer = Renderer::new(Quadratic::fixed_point(), Variant::Quadratic);
    let img = renderer.gen_img(100000, 64, 48, &cosine_tone).into_rgb8();
    assert_eq!(img.dimensions(), (64, 48));
    assert!(img.as_raw().iter().all(|&s| s == 0));
}

#[test]
fn a_trajectory_that_runs_away_renders_without_panic() {
    let run_away = || Quadratic::with([1.5; 12]);
    let mut system = run_away();
    let hist = gen_hist(&mut system, Variant::Quadratic, 20000, 32, 32);
    assert!(hist.total() == 0 || hist.total() == 20000 - 500);
    let mut renderer = Renderer::new(run_away(), Variant::Quadratic);
    let img = renderer.gen_img(20000, 32, 32, &cosine_tone).into_rgb8();
    assert_eq!(img.as_raw().len(), 3 * 32 * 32);
}

#[test]
fn two_runs_from_the_same_start_visit_the_same_cells() {
    let mut first = Trig::standard();
    let mut second = Trig::standard();
    first.at = (0.9, -0.9);
    let a = gen_hist(&mut first, Variant::Trigonometric, 30000, 96, 64);
    let b = gen_hist(&mut second, Variant::Trigonometric, 30000, 96, 64);
    for k in 0..96 * 64 {
        assert_eq!(a.count(k), b.count(k));
    }
    assert_eq!(first.at.0.to_bits(), second.at.0.to_bits());
    assert_eq!(first.at.1.to_bits(), second.at.1.to_bits());
    let again = gen_hist(&mut first, Variant::Trigonometric, 30000, 96, 64);
    for k in 0..96 * 64 {
        assert_eq!(a.count(k), again.count(k));
    }
}

#[test]
fn a_map_takes_the_search_steps_and_then_the_render_steps() {
    let mut walker = Walker::new();
    let hist = gen_hist(&mut walker, Variant::Polar, 2000, 8, 8);
    assert_eq!(walker.steps, 50000 + 2000);
    assert_eq!(walker.resets, 3);
    assert_eq!(hist.total(), 1500);
}

#[test]
fn a_flow_counts_every_step() {
    let mut walker = Walker::new();
    let hist = gen_hist(&mut walker, Variant::Lorenz, 2000, 8, 8);
    assert_eq!(walker.steps, 100000 + 2000);
    assert_eq!(hist.total(), 2000);

    let mut walker = Walker::new();
    let hist = gen_hist(&mut walker, Variant::DoublePendulum, 1_500_000, 8, 8);
    assert_eq!(walker.steps, 150000 + 1_500_000);
    assert_eq!(hist.total(), 1_500_000);
}

#[test]
fn a_render_shorter_than_the_transient_counts_nothing() {
    let mut walker = Walker::new();
    let hist = gen_hist(&mut walker, Variant::Clifford, 500, 8, 8);
    assert_eq!(hist.total(), 0);
    let hist = gen_hist(&mut walker, Variant::Clifford, 501, 8, 8);
    assert_eq!(hist.total(), 1);
    let hist = gen_hist(&mut walker, Variant::Clifford, 0, 8, 8);
    assert_eq!(hist.total(), 0);
}

#[test]
fn points_land_in_the_cells_that_their_offsets_name() {
    let mut walker = Walker::new();
    let hist = accumulate(&mut walker, &(10, 6), 12, 0, 10, 6);
    // Steps 1 to 12: the offset to the right is step % 3 - 1, the one
    // downwards is 0 for even steps and 2 for odd ones.
    assert_eq!(hist.get(3, 5), 2);
    assert_eq!(hist.get(5, 5), 2);
    assert_eq!(hist.get(3, 6), 2);
    assert_eq!(hist.get(5, 6), 2);
    assert_eq!(hist.get(3, 4), 2);
    assert_eq!(hist.get(5, 4), 2);
    assert_eq!(hist.total(), 12);
    assert_eq!(hist.max_count(), 2);

    let mut walker = Walker::new();
    let hist = accumulate(&mut walker, &(10, 6), 12, 7, 10, 6);
    // Steps 8 to 12 count.
    assert_eq!(hist.get(3, 6), 1);
    assert_eq!(hist.get(5, 4), 1);
    assert_eq!(hist.get(3, 5), 1);
    assert_eq!(hist.get(5, 6), 1);
    assert_eq!(hist.get(3, 4), 1);
    assert_eq!(hist.total(), 5);
}

#[test]
fn the_search_counts_the_states_after_the_transient() {
    let mut walker = Walker::new();
    assert_eq!(search_edges(&mut walker, 10, 4), 6);
    assert_eq!(walker.since_reset, 0);
    assert_eq!(walker.steps, 10);
    assert_eq!(search_edges(&mut walker, 3, 4), 0);
    assert_eq!(search_edges(&mut walker, 0, 0), 0);
    assert_eq!(search_edges(&mut walker, 5, 0), 5);
}

#[test]
fn the_picture_shows_each_cell_at_its_place() {
    let mut renderer = Renderer::new(Walker::new(), Variant::Duffing);
    let img = renderer.gen_img(12, 10, 6, &count_as_red).into_rgb8();
    assert_eq!(img.dimensions(), (10, 6));
    assert_eq!(img.get_pixel(5, 3).0, [2, 2, 9]);
    assert_eq!(img.get_pixel(4, 5).0, [2, 2, 9]);
    assert_eq!(img.get_pixel(6, 3).0, [2, 2, 9]);
    assert_eq!(img.get_pixel(0, 0).0, [0, 2, 9]);
    assert_eq!(img.get_pixel(9, 5).0, [0, 2, 9]);
    let lit = img.pixels().filter(|p| p.0[0] != 0).count();
    assert_eq!(lit, 6);
}

#[test]
fn the_scheme_is_asked_with_densities_between_nothing_and_the_peak() {
    let asked = std::cell::Cell::new(0usize);
    let tone = |count: u64, peak: u64, n: usize, width: usize, height: usize| {
        assert!(count <= peak);
        assert_eq!(peak, 2);
        assert_eq!((n, width, height), (12, 10, 6));
        asked.set(asked.get() + 1);
        (0, 0, 0)
    };
    let mut renderer = Renderer::new(Walker::new(), Variant::Duffing);
    renderer.gen_img(12, 10, 6, &tone);
    assert_eq!(asked.get(), 60);
}

#[test]
fn a_blank_grid_is_shaded_with_a_peak_of_one() {
    let tone = |count: u64, peak: u64, _n: usize, _width: usize, _height: usize| {
        assert_eq!((count, peak), (0, 1));
        (1, 2, 3)
    };
    let mut walker = Walker::new();
    walker.degenerate = true;
    let mut renderer = Renderer::new(walker, Variant::Duffing);
    let img = renderer.gen_img(1000, 4, 4, &tone).into_rgb8();
    assert!(img.pixels().all(|p| p.0 == [1, 2, 3]));
    assert_eq!(renderer.attractor.steps, 100000);
}

#[test]
fn the_extreme_densities_give_colours_in_range() {
    for factor_n in [1usize, 1000, 10_000_000, usize::MAX] {
        let (r0, g0, b0) = cosine_tone(0, 1, factor_n, 1024, 1024);
        assert_eq!((r0, g0, b0), (0, 0, 0));
        let (r1, g1, b1) = cosine_tone(5, 5, factor_n, 1024, 1024);
        assert!(u32::from(r1) <= 255 && u32::from(g1) <= 255 && u32::from(b1) <= 255);
    }
    assert_eq!(cosine_tone(1, 1, 10_000_000, 1024, 1024), (255, 255, 255));
}

#[test]
fn a_variant_that_keeps_its_grid_reuses_it_until_it_is_edited() {
    let mut renderer = Renderer::new(Walker::new(), Variant::Symmetric);
    assert!(renderer.is_dirty());
    assert!(renderer.histogram().is_none());
    assert!(!renderer.will_reuse(8, 8));

    let first = renderer.gen_img(2000, 8, 8, &count_as_red).into_rgb8();
    assert_eq!(renderer.attractor.steps, 52000);
    assert_eq!(renderer.histogram().unwrap().total(), 1500);
    assert!(renderer.is_dirty());

    // Still marked as edited: the next render counts anew.
    renderer.gen_img(2000, 8, 8, &count_as_red);
    assert_eq!(renderer.attractor.steps, 104000);

    renderer.param_changed(false);
    assert!(renderer.will_reuse(8, 8));
    let again = renderer.gen_img(9000, 8, 8, &count_as_red).into_rgb8();
    assert_eq!(renderer.attractor.steps, 104000);
    assert_eq!(first.as_raw(), again.as_raw());
    assert_eq!(renderer.histogram().unwrap().total(), 1500);

    // Another size cannot show the kept grid.
    assert!(!renderer.will_reuse(8, 16));
    let tall = renderer.gen_img(2000, 8, 16, &count_as_red).into_rgb8();
    assert_eq!(tall.dimensions(), (8, 16));
    assert_eq!(renderer.attractor.steps, 156000);
    assert_eq!(renderer.histogram().unwrap().height(), 16);

    renderer.param_changed(true);
    assert!(!renderer.will_reuse(8, 16));
    renderer.gen_img(2000, 8, 16, &black);
    assert_eq!(renderer.attractor.steps, 208000);
}

#[test]
fn a_variant_that_keeps_no_grid_counts_anew_each_time() {
    let mut renderer = Renderer::new(Walker::new(), Variant::Trigonometric);
    renderer.param_changed(false);
    renderer.gen_img(2000, 8, 8, &black);
    assert!(renderer.histogram().is_none());
    assert!(!renderer.will_reuse(8, 8));
    renderer.gen_img(2000, 8, 8, &black);
    assert_eq!(renderer.attractor.steps, 104000);
    assert_eq!(renderer.kind(), Variant::Trigonometric);
    assert!(!renderer.is_dirty());
}

#[test]
fn a_quadratic_map_counts_its_steps_in_both_passes() {
    let mut coefs = [0.0; 12];
    // The Henon map: x' = 1 - 1.4 x^2 + y, y' = 0.3 x.
    coefs[0] = -1.4;
    coefs[3] = 1.0;
    coefs[5] = 1.0;
    coefs[7] = 0.3;
    let mut system = Quadratic::with(coefs);
    system.init = (0.1, 0.1);
    let hist = gen_hist(&mut system, Variant::Quadratic, 60000, 128, 128);
    assert_eq!(system.steps, 50000 + 60000);
    assert_eq!(hist.total(), 60000 - 500);
    let mut sum = 0;
    let mut top = 0;
    for k in 0..128 * 128 {
        sum += hist.count(k);
        top = top.max(hist.count(k));
    }
    assert_eq!(sum, 59500);
    assert_eq!(top, hist.max_count());
}
