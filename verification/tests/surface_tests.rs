use photon::surface::{
    preferred_index, select_format, select_present_mode, AcquireClass, AcquireOutcome,
    AcquireStep, SetupError, SurfaceConfig,
};
use wgpu::{PresentMode, TextureFormat, TextureUsages};

fn config(width: u32, height: u32) -> SurfaceConfig {
    SurfaceConfig::new(
        width,
        height,
        TextureFormat::Bgra8UnormSrgb,
        PresentMode::Fifo,
        TextureUsages::RENDER_ATTACHMENT,
    )
    .unwrap()
}

#[test]
fn new_keeps_what_it_is_given() {
    let c = SurfaceConfig::new(
        800,
        600,
        TextureFormat::Rgba8Unorm,
        PresentMode::Mailbox,
        TextureUsages::RENDER_ATTACHMENT | TextureUsages::COPY_SRC,
    )
    .unwrap();
    assert_eq!(c.width(), 800);
    assert_eq!(c.height(), 600);
    assert_eq!(c.format(), TextureFormat::Rgba8Unorm);
    assert_eq!(c.present_mode(), PresentMode::Mailbox);
    assert_eq!(c.usage(), TextureUsages::RENDER_ATTACHMENT | TextureUsages::COPY_SRC);
}

#[test]
fn new_refuses_a_zero_dimension() {
    let make = |w, h| {
        SurfaceConfig::new(
            w,
            h,
            TextureFormat::Rgba8Unorm,
            PresentMode::Fifo,
            TextureUsages::RENDER_ATTACHMENT,
        )
    };
    assert_eq!(make(0, 600), None);
    assert_eq!(make(800, 0), None);
    assert_eq!(make(0, 0), None);
    assert!(make(1, 1).is_some());
    assert!(make(u32::MAX, u32::MAX).is_some());
}

#[test]
fn resize_stores_the_new_size() {
    let mut c = config(800, 600);
    assert!(c.resize(1024, 768));
    assert_eq!((c.width(), c.height()), (1024, 768));
    assert_eq!(c.format(), TextureFormat::Bgra8UnormSrgb);
    assert_eq!(c.present_mode(), PresentMode::Fifo);
    assert_eq!(c.usage(), TextureUsages::RENDER_ATTACHMENT);
}

#[test]
fn resize_twice_is_resize_once() {
    let mut once = config(800, 600);
    once.resize(1280, 720);
    let mut twice = once;
    assert!(twice.resize(1280, 720));
    assert_eq!(once, twice);
}

#[test]
fn resize_to_the_current_size_is_accepted() {
    let mut c = config(800, 600);
    assert!(c.resize(800, 600));
    assert_eq!(c, config(800, 600));
}

#[test]
fn resize_with_a_zero_dimension_changes_nothing() {
    let before = config(800, 600);
    for (w, h) in [(0, 0), (0, 768), (1024, 0), (0, u32::MAX), (u32::MAX, 0)] {
        let mut c = before;
        assert!(!c.resize(w, h));
        assert_eq!(c, before);
    }
}

#[test]
fn zero_resize_then_real_resize() {
    let mut c = config(800, 600);
    assert!(!c.resize(0, 0));
    assert_eq!((c.width(), c.height()), (800, 600));
    assert!(c.resize(1024, 768));
    assert_eq!((c.width(), c.height()), (1024, 768));
}

#[test]
fn preferred_index_is_the_first_set_flag() {
    assert_eq!(preferred_index(&vec![false, true, true]), Some(1));
    assert_eq!(preferred_index(&vec![true, false]), Some(0));
    assert_eq!(preferred_index(&vec![false, false, false, true]), Some(3));
}

#[test]
fn preferred_index_falls_back_to_the_first_entry() {
    assert_eq!(preferred_index(&vec![false]), Some(0));
    assert_eq!(preferred_index(&vec![false, false, false]), Some(0));
}

#[test]
fn preferred_index_of_nothing_is_nothing() {
    assert_eq!(preferred_index(&vec![]), None);
}

#[test]
fn select_format_prefers_srgb() {
    let formats =
        vec![TextureFormat::Bgra8Unorm, TextureFormat::Rgba8UnormSrgb, TextureFormat::Rgba8Unorm];
    assert_eq!(select_format(&formats), Some(TextureFormat::Rgba8UnormSrgb));
}

#[test]
fn select_format_takes_the_first_of_several_srgb_formats() {
    let formats = vec![
        TextureFormat::Rgba16Float,
        TextureFormat::Bgra8UnormSrgb,
        TextureFormat::Rgba8UnormSrgb,
    ];
    assert_eq!(select_format(&formats), Some(TextureFormat::Bgra8UnormSrgb));
}

#[test]
fn select_format_without_srgb_takes_the_first() {
    let formats = vec![TextureFormat::Rgba16Float, TextureFormat::Bgra8Unorm];
    assert_eq!(select_format(&formats), Some(TextureFormat::Rgba16Float));
}

#[test]
fn select_format_of_nothing_is_nothing() {
    assert_eq!(select_format(&vec![]), None);
}

#[test]
fn select_present_mode_takes_the_first() {
    assert_eq!(
        select_present_mode(&vec![PresentMode::Mailbox, PresentMode::Fifo]),
        Some(PresentMode::Mailbox)
    );
    assert_eq!(select_present_mode(&vec![PresentMode::Fifo]), Some(PresentMode::Fifo));
    assert_eq!(select_present_mode(&vec![]), None);
}

#[test]
fn create_configures_at_the_window_size() {
    let formats = vec![TextureFormat::Bgra8Unorm, TextureFormat::Bgra8UnormSrgb];
    let modes = vec![PresentMode::Immediate, PresentMode::Fifo];
    let c = SurfaceConfig::create(&formats, &modes, TextureUsages::RENDER_ATTACHMENT, 800, 600)
        .unwrap();
    assert_eq!(c.width(), 800);
    assert_eq!(c.height(), 600);
    assert_eq!(c.format(), TextureFormat::Bgra8UnormSrgb);
    assert_eq!(c.present_mode(), PresentMode::Immediate);
    assert_eq!(c.usage(), TextureUsages::RENDER_ATTACHMENT);
}

#[test]
fn create_fails_without_a_format() {
    let modes = vec![PresentMode::Fifo];
    assert_eq!(
        SurfaceConfig::create(&vec![], &modes, TextureUsages::RENDER_ATTACHMENT, 800, 600),
        Err(SetupError::NoFormat)
    );
    assert_eq!(
        SurfaceConfig::create(&vec![], &vec![], TextureUsages::RENDER_ATTACHMENT, 0, 0),
        Err(SetupError::NoFormat)
    );
}

#[test]
fn create_fails_without_a_present_mode() {
    let formats = vec![TextureFormat::Bgra8Unorm];
    assert_eq!(
        SurfaceConfig::create(&formats, &vec![], TextureUsages::RENDER_ATTACHMENT, 800, 600),
        Err(SetupError::NoPresentMode)
    );
    assert_eq!(
        SurfaceConfig::create(&formats, &vec![], TextureUsages::RENDER_ATTACHMENT, 0, 600),
        Err(SetupError::NoPresentMode)
    );
}

#[test]
fn create_fails_on_a_zero_size() {
    let formats = vec![TextureFormat::Bgra8Unorm];
    let modes = vec![PresentMode::Fifo];
    assert_eq!(
        SurfaceConfig::create(&formats, &modes, TextureUsages::RENDER_ATTACHMENT, 0, 600),
        Err(SetupError::ZeroSize)
    );
    assert_eq!(
        SurfaceConfig::create(&formats, &modes, TextureUsages::RENDER_ATTACHMENT, 800, 0),
        Err(SetupError::ZeroSize)
    );
}

#[test]
fn outcomes_are_classified() {
    assert_eq!(AcquireOutcome::Ready.class(), AcquireClass::Success);
    assert_eq!(AcquireOutcome::Lost.class(), AcquireClass::Stale);
    assert_eq!(AcquireOutcome::Outdated.class(), AcquireClass::Stale);
    assert_eq!(AcquireOutcome::OutOfMemory.class(), AcquireClass::Fatal);
    assert_eq!(AcquireOutcome::Timeout.class(), AcquireClass::Unclassified);
}

#[test]
fn first_attempt_decides() {
    assert_eq!(AcquireOutcome::Ready.next_step(false), AcquireStep::UseImage);
    assert_eq!(AcquireOutcome::Lost.next_step(false), AcquireStep::ReconfigureAndRetry);
    assert_eq!(AcquireOutcome::Outdated.next_step(false), AcquireStep::ReconfigureAndRetry);
    assert_eq!(AcquireOutcome::OutOfMemory.next_step(false), AcquireStep::Fail);
    assert_eq!(AcquireOutcome::Timeout.next_step(false), AcquireStep::DropFrame);
}

#[test]
fn second_attempt_never_retries() {
    assert_eq!(AcquireOutcome::Ready.next_step(true), AcquireStep::UseImage);
    assert_eq!(AcquireOutcome::Lost.next_step(true), AcquireStep::DropFrame);
    assert_eq!(AcquireOutcome::Outdated.next_step(true), AcquireStep::DropFrame);
    assert_eq!(AcquireOutcome::OutOfMemory.next_step(true), AcquireStep::Fail);
    assert_eq!(AcquireOutcome::Timeout.next_step(true), AcquireStep::DropFrame);
}
