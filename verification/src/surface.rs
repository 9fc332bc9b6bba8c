//! The surface configuration: how it is chosen from what the surface
//! supports, how a resize changes it, and what follows from each way an
//! image acquisition can end.

use vstd::prelude::*;
use crate::gpu::{format_is_srgb, is_srgb};

verus! {

/// What a surface configuration holds, as a plain record.
pub struct SurfaceConfigView {
    pub width: u32,
    pub height: u32,
    pub format: wgpu::TextureFormat,
    pub present_mode: wgpu::PresentMode,
    pub usage: wgpu::TextureUsages,
}

impl SurfaceConfigView {
    /// Both dimensions are positive.
    pub open spec fn wf(self) -> bool {
        self.width > 0 && self.height > 0
    }

    /// The configuration after a resize to `width` by `height`: the new size
    /// when both dimensions are positive, the same configuration otherwise.
    pub open spec fn resized(self, width: u32, height: u32) -> SurfaceConfigView {
        if width > 0 && height > 0 {
            SurfaceConfigView { width, height, ..self }
        } else {
            self
        }
    }
}

/// The configuration of a presentable surface. Its dimensions are always
/// positive, and only a resize changes it.
#[derive(Clone, Copy, Debug, PartialEq, Eq)]
pub struct SurfaceConfig {
    width: u32,
    height: u32,
    format: wgpu::TextureFormat,
    present_mode: wgpu::PresentMode,
    usage: wgpu::TextureUsages,
}

impl View for SurfaceConfig {
    type V = SurfaceConfigView;

    closed spec fn view(&self) -> SurfaceConfigView {
        SurfaceConfigView {
            width: self.width,
            height: self.height,
            format: self.format,
            present_mode: self.present_mode,
            usage: self.usage,
        }
    }
}

/// Why no surface configuration could be chosen.
#[derive(Clone, Copy, Debug, PartialEq, Eq, Structural)]
pub enum SetupError {
    /// The surface supports no texture format.
    NoFormat,
    /// The surface supports no present mode.
    NoPresentMode,
    /// A window dimension is zero.
    ZeroSize,
}

/// `index` is the preferred entry of a list of formats, given for each
/// format whether it is sRGB: the first sRGB entry, or the first entry when
/// none is sRGB.
pub open spec fn is_preferred(srgb: Seq<bool>, index: int) -> bool {
    &&& 0 <= index < srgb.len()
    &&& forall|j: int| 0 <= j < index ==> !srgb[j]
    &&& srgb[index] || (index == 0 && forall|j: int| 0 <= j < srgb.len() ==> !srgb[j])
}

/// For each format of a list, whether it is sRGB.
pub open spec fn srgb_flags(formats: Seq<wgpu::TextureFormat>) -> Seq<bool> {
    Seq::new(formats.len(), |i: int| format_is_srgb(formats[i]))
}

/// A list has at most one preferred entry.
pub proof fn lemma_preferred_unique(srgb: Seq<bool>, i: int, j: int)
    requires
        is_preferred(srgb, i),
        is_preferred(srgb, j),
    ensures
        i == j,
{
}

/// Every list but the empty one has a preferred entry.
pub proof fn lemma_preferred_exists(srgb: Seq<bool>)
    requires
        srgb.len() > 0,
    ensures
        exists|i: int| is_preferred(srgb, i),
{
    if exists|j: int| 0 <= j < srgb.len() && srgb[j] {
        lemma_first_true(srgb, srgb.len() as int);
        let k: int = choose|k: int|
            0 <= k < srgb.len() && srgb[k] && forall|j: int| 0 <= j < k ==> !srgb[j];
        assert(is_preferred(srgb, k));
    } else {
        assert(is_preferred(srgb, 0));
    }
}

/// Among the first `n` entries, if one is set then one is the first set.
proof fn lemma_first_true(srgb: Seq<bool>, n: int)
    requires
        0 <= n <= srgb.len(),
        exists|j: int| 0 <= j < n && srgb[j],
    ensures
        exists|k: int| 0 <= k < n && srgb[k] && forall|j: int| 0 <= j < k ==> !srgb[j],
    decreases n,
{
    if exists|j: int| 0 <= j < n - 1 && srgb[j] {
        lemma_first_true(srgb, n - 1);
    } else {
        let k: int = n - 1;
        assert(srgb[k]);
        assert(0 <= k < n && srgb[k] && forall|j: int| 0 <= j < k ==> !srgb[j]);
    }
}

/// Picks the preferred entry of a list of formats from their sRGB flags:
/// the first that is set, the first entry when none is set, and nothing for
/// the empty list.
pub fn preferred_index(srgb: &Vec<bool>) -> (index: Option<usize>)
    ensures
        srgb@.len() == 0 <==> index is None,
        index matches Some(i) ==> is_preferred(srgb@, i as int),
{
    if srgb.len() == 0 {
        return None;
    }
    let mut i: usize = 0;
    while i < srgb.len()
        invariant
            0 <= i <= srgb@.len(),
            forall|j: int| 0 <= j < i ==> !srgb@[j],
        decreases srgb@.len() - i,
    {
        if srgb[i] {
            return Some(i);
        }
        i = i + 1;
    }
    Some(0)
}

/// Selects the texture format of a surface: an sRGB format if the surface
/// supports one, the first of them; else the first supported format.
/// `None` exactly when the surface supports no format.
pub fn select_format(formats: &Vec<wgpu::TextureFormat>) -> (format: Option<wgpu::TextureFormat>)
    ensures
        formats@.len() == 0 <==> format is None,
        format matches Some(f) ==> exists|i: int|
            is_preferred(srgb_flags(formats@), i) && f == formats@[i],
{
    let mut flags: Vec<bool> = Vec::new();
    let mut i: usize = 0;
    while i < formats.len()
        invariant
            0 <= i <= formats@.len(),
            flags@.len() == i,
            forall|j: int| 0 <= j < i ==> flags@[j] == format_is_srgb(formats@[j]),
        decreases formats@.len() - i,
    {
        flags.push(is_srgb(&formats[i]));
        i = i + 1;
    }
    assert(flags@ =~= srgb_flags(formats@));
    match preferred_index(&flags) {
        Some(index) => Some(formats[index]),
        None => None,
    }
}

/// Selects the present mode of a surface: the first it supports. `None`
/// exactly when it supports none.
pub fn select_present_mode(modes: &Vec<wgpu::PresentMode>) -> (mode: Option<wgpu::PresentMode>)
    ensures
        modes@.len() == 0 <==> mode is None,
        mode matches Some(m) ==> m == modes@[0],
{
    if modes.len() == 0 {
        None
    } else {
        Some(modes[0])
    }
}

impl SurfaceConfig {
    #[verifier::type_invariant]
    pub open spec fn inv(&self) -> bool {
        self@.wf()
    }

    /// A configuration of the given size; `None` exactly when a dimension is
    /// zero.
    pub fn new(
        width: u32,
        height: u32,
        format: wgpu::TextureFormat,
        present_mode: wgpu::PresentMode,
        usage: wgpu::TextureUsages,
    ) -> (config: Option<SurfaceConfig>)
        ensures
            (width == 0 || height == 0) <==> config is None,
            config matches Some(c) ==> c@ == (SurfaceConfigView {
                width,
                height,
                format,
                present_mode,
                usage,
            }),
    {
        if width == 0 || height == 0 {
            None
        } else {
            Some(SurfaceConfig { width, height, format, present_mode, usage })
        }
    }

    /// Chooses the configuration of a new surface from what it supports:
    /// the preferred format, the first present mode, and the window's size.
    ///
    /// Fails with `NoFormat` when `formats` is empty; else with
    /// `NoPresentMode` when `present_modes` is empty; else with `ZeroSize`
    /// when a dimension is zero.
    pub fn create(
        formats: &Vec<wgpu::TextureFormat>,
        present_modes: &Vec<wgpu::PresentMode>,
        usage: wgpu::TextureUsages,
        width: u32,
        height: u32,
    ) -> (config: Result<SurfaceConfig, SetupError>)
        ensures
            formats@.len() == 0 <==> config == Err::<SurfaceConfig, SetupError>(
                SetupError::NoFormat,
            ),
            formats@.len() > 0 && present_modes@.len() == 0 <==> config == Err::<
                SurfaceConfig,
                SetupError,
            >(SetupError::NoPresentMode),
            formats@.len() > 0 && present_modes@.len() > 0 && (width == 0 || height == 0)
                <==> config == Err::<SurfaceConfig, SetupError>(SetupError::ZeroSize),
            config matches Ok(c) ==> {
                &&& c@.width == width
                &&& c@.height == height
                &&& c@.usage == usage
                &&& c@.present_mode == present_modes@[0]
                &&& exists|i: int|
                    is_preferred(srgb_flags(formats@), i) && c@.format == formats@[i]
                &&& c@.wf()
            },
    {
        let format = match select_format(formats) {
            Some(f) => f,
            None => { return Err(SetupError::NoFormat); },
        };
        let present_mode = match select_present_mode(present_modes) {
            Some(m) => m,
            None => { return Err(SetupError::NoPresentMode); },
        };
        match SurfaceConfig::new(width, height, format, present_mode, usage) {
            Some(c) => Ok(c),
            None => Err(SetupError::ZeroSize),
        }
    }

    /// Width of the surface in pixels.
    pub fn width(&self) -> (width: u32)
        ensures
            width == self@.width,
            width > 0,
    {
        proof {
            use_type_invariant(self);
        }
        self.width
    }

    /// Height of the surface in pixels.
    pub fn height(&self) -> (height: u32)
        ensures
            height == self@.height,
            height > 0,
    {
        proof {
            use_type_invariant(self);
        }
        self.height
    }

    /// Texture format of the surface's images.
    pub fn format(&self) -> (format: wgpu::TextureFormat)
        ensures
            format == self@.format,
    {
        self.format
    }

    /// How the surface presents its images.
    pub fn present_mode(&self) -> (mode: wgpu::PresentMode)
        ensures
            mode == self@.present_mode,
    {
        self.present_mode
    }

    /// What the surface's images are used for.
    pub fn usage(&self) -> (usage: wgpu::TextureUsages)
        ensures
            usage == self@.usage,
    {
        self.usage
    }

    /// Takes a new window size. With both dimensions positive the size is
    /// stored and `true` returned: the surface must then be configured
    /// again. Otherwise nothing changes and `false` is returned.
    pub fn resize(&mut self, width: u32, height: u32) -> (accepted: bool)
        ensures
            final(self)@ == old(self)@.resized(width, height),
            accepted == (width > 0 && height > 0),
            final(self)@.wf(),
        no_unwind
    {
        proof {
            use_type_invariant(&*self);
        }
        if width > 0 && height > 0 {
            self.width = width;
            self.height = height;
            true
        } else {
            false
        }
    }
}

/// Resizing twice to the same size leaves the configuration as the first
/// resize left it.
pub proof fn lemma_resize_idempotent(config: SurfaceConfigView, width: u32, height: u32)
    ensures
        config.resized(width, height).resized(width, height) == config.resized(width, height),
{
}

/// A resize with a zero dimension leaves the configuration unchanged.
pub proof fn lemma_resize_guard(config: SurfaceConfigView, width: u32, height: u32)
    ensures
        config.resized(0, height) == config,
        config.resized(width, 0) == config,
{
}

/// A resize keeps the dimensions positive and never touches the format, the
/// present mode or the usage.
pub proof fn lemma_resize_preserves(config: SurfaceConfigView, width: u32, height: u32)
    requires
        config.wf(),
    ensures
        config.resized(width, height).wf(),
        config.resized(width, height).format == config.format,
        config.resized(width, height).present_mode == config.present_mode,
        config.resized(width, height).usage == config.usage,
{
}

/// How a request for the next presentable image ended.
#[derive(Clone, Copy, Debug, PartialEq, Eq, Structural)]
pub enum AcquireOutcome {
    /// An image was acquired.
    Ready,
    /// The request timed out.
    Timeout,
    /// The surface has changed and its swapchain is out of date.
    Outdated,
    /// The swapchain was lost.
    Lost,
    /// No memory is left for a new image.
    OutOfMemory,
}

/// The class of an acquisition outcome, which decides what may follow.
#[derive(Clone, Copy, Debug, PartialEq, Eq, Structural)]
pub enum AcquireClass {
    /// An image is there.
    Success,
    /// The swapchain is stale: configuring the surface again may help.
    Stale,
    /// Nothing can help: rendering must stop.
    Fatal,
    /// Any other failure: this frame is lost, the next may succeed.
    Unclassified,
}

/// What to do after a request for an image has ended.
#[derive(Clone, Copy, Debug, PartialEq, Eq, Structural)]
pub enum AcquireStep {
    /// Render to the acquired image.
    UseImage,
    /// Configure the surface again with its current configuration, then
    /// request an image once more.
    ReconfigureAndRetry,
    /// Give this frame up and report the failure.
    DropFrame,
    /// Stop rendering for good.
    Fail,
}

impl AcquireOutcome {
    /// The class of the outcome.
    pub open spec fn spec_class(self) -> AcquireClass {
        match self {
            AcquireOutcome::Ready => AcquireClass::Success,
            AcquireOutcome::Outdated => AcquireClass::Stale,
            AcquireOutcome::Lost => AcquireClass::Stale,
            AcquireOutcome::OutOfMemory => AcquireClass::Fatal,
            AcquireOutcome::Timeout => AcquireClass::Unclassified,
        }
    }

    /// What follows the outcome; `retried` says whether this frame has
    /// already configured the surface again and asked a second time. A stale
    /// swapchain is answered by one retry, never by a second.
    pub open spec fn spec_next_step(self, retried: bool) -> AcquireStep {
        match self.spec_class() {
            AcquireClass::Success => AcquireStep::UseImage,
            AcquireClass::Fatal => AcquireStep::Fail,
            AcquireClass::Unclassified => AcquireStep::DropFrame,
            AcquireClass::Stale => if retried {
                AcquireStep::DropFrame
            } else {
                AcquireStep::ReconfigureAndRetry
            },
        }
    }

    /// Classifies the outcome.
    #[verifier::when_used_as_spec(spec_class)]
    pub fn class(self) -> (class: AcquireClass)
        ensures
            class == self.spec_class(),
    {
        match self {
            AcquireOutcome::Ready => AcquireClass::Success,
            AcquireOutcome::Outdated => AcquireClass::Stale,
            AcquireOutcome::Lost => AcquireClass::Stale,
            AcquireOutcome::OutOfMemory => AcquireClass::Fatal,
            AcquireOutcome::Timeout => AcquireClass::Unclassified,
        }
    }

    /// Decides what follows the outcome.
    #[verifier::when_used_as_spec(spec_next_step)]
    pub fn next_step(self, retried: bool) -> (step: AcquireStep)
        ensures
            step == self.spec_next_step(retried),
    {
        match self.class() {
            AcquireClass::Success => AcquireStep::UseImage,
            AcquireClass::Fatal => AcquireStep::Fail,
            AcquireClass::Unclassified => AcquireStep::DropFrame,
            AcquireClass::Stale => if retried {
                AcquireStep::DropFrame
            } else {
                AcquireStep::ReconfigureAndRetry
            },
        }
    }
}

/// After one retry no outcome asks for another, and running out of memory
/// is fatal on either attempt.
pub proof fn lemma_no_second_retry(outcome: AcquireOutcome, retried: bool)
    ensures
        outcome.spec_next_step(true) != AcquireStep::ReconfigureAndRetry,
        outcome.spec_next_step(retried) == AcquireStep::ReconfigureAndRetry <==> !retried && (
        outcome == AcquireOutcome::Lost || outcome == AcquireOutcome::Outdated),
        AcquireOutcome::OutOfMemory.spec_next_step(retried) == AcquireStep::Fail,
        outcome.spec_next_step(retried) == AcquireStep::UseImage <==> outcome
            == AcquireOutcome::Ready,
{
}

} // verus!
