//! The swapchain manager: planning a swapchain from surface
//! capabilities, recreating it when the surface changes, and deriving
//! one render target per presentable image.
//!
//! The swapchain itself is a device object; the presentation engine
//! owns its images. What this module verifies is the description the
//! device is asked to realise: image count, format and composite-alpha
//! choice, extent, and the one-framebuffer-per-image render target set.
//! The unverified shell turns each description into the matching device
//! calls.

use vstd::prelude::*;

use crate::error::EngineError;
use crate::geometry::Extent;
use crate::geometry::Viewport;

verus! {

/// What the device reports about the bound surface: the driver's
/// bounds on the image count (`None` means unbounded above), and the
/// supported surface formats and composite-alpha modes, in the order
/// the driver lists them. Formats and alpha modes are carried as the
/// driver's numeric identifiers; the toolset only ever picks one and
/// hands it back, so their meaning stays with the device.
pub struct SurfaceCaps {
    pub min_image_count: u32,
    pub max_image_count: Option<u32>,
    pub formats: Vec<u32>,
    pub alpha_modes: Vec<u32>,
}

/// The description a swapchain is created from. Recreation carries
/// every field forward unchanged except the extent.
#[derive(Clone, Copy, Debug, PartialEq, Eq, Structural)]
pub struct SwapchainDesc {
    pub image_count: u32,
    pub format: u32,
    pub alpha: u32,
    pub extent: Extent,
}

/// The single render pass: one color attachment of the swapchain's
/// format, cleared on load and stored on store, no depth or stencil.
/// It is created once, at first swapchain creation, and never rebuilt
/// on resize, because only the extent changes then, never the format.
#[derive(Clone, Copy, Debug, PartialEq, Eq, Structural)]
pub struct RenderPassDesc {
    pub color_format: u32,
}

/// One framebuffer: a single color attachment view over the
/// presentable image with the given index.
#[derive(Clone, Copy, Debug, PartialEq, Eq, Structural)]
pub struct FramebufferDesc {
    pub image_index: u32,
}

/// How many presentable images a swapchain asks for: one more than the
/// driver's minimum, clamped to the driver's maximum where one exists.
pub open spec fn spec_image_count(min_image_count: u32, max_image_count: Option<u32>) -> int {
    let wanted = min_image_count + 1;
    match max_image_count {
        Some(max) => if wanted <= max { wanted } else { max as int },
        None => wanted,
    }
}

/// The swapchain description that the given capabilities and drawable
/// size yield: the first listed format, the first listed alpha mode,
/// the extent of the drawable, and the planned image count.
pub open spec fn spec_plan_swapchain(caps: SurfaceCaps, drawable: Extent) -> SwapchainDesc {
    SwapchainDesc {
        image_count: spec_image_count(caps.min_image_count, caps.max_image_count) as u32,
        format: caps.formats@[0],
        alpha: caps.alpha_modes@[0],
        extent: drawable,
    }
}

/// Recreation keeps the whole description except the extent, which is
/// re-read from the surface.
pub open spec fn spec_recreate(old_desc: SwapchainDesc, drawable: Extent) -> SwapchainDesc {
    SwapchainDesc { extent: drawable, ..old_desc }
}

/// Computes the image count a new swapchain asks for.
pub fn plan_image_count(min_image_count: u32, max_image_count: Option<u32>) -> (count: u32)
    requires
        min_image_count < u32::MAX,
    ensures
        count == spec_image_count(min_image_count, max_image_count),
{
    let wanted = min_image_count + 1;
    match max_image_count {
        Some(max) => if wanted <= max { wanted } else { max },
        None => wanted,
    }
}

/// Plans a swapchain from the surface capabilities and the current
/// drawable size. Fails exactly when the device reports no surface
/// format or no composite-alpha mode: that is a broken environment,
/// not a transient runtime condition.
pub fn plan_swapchain(caps: &SurfaceCaps, drawable: Extent) -> (r: Result<
    SwapchainDesc,
    EngineError,
>)
    requires
        caps.min_image_count < u32::MAX,
    ensures
        caps.formats@.len() == 0 ==> r == Err::<SwapchainDesc, EngineError>(
            EngineError::NoSurfaceFormats,
        ),
        caps.formats@.len() > 0 && caps.alpha_modes@.len() == 0 ==> r == Err::<
            SwapchainDesc,
            EngineError,
        >(EngineError::NoCompositeAlpha),
        caps.formats@.len() > 0 && caps.alpha_modes@.len() > 0 ==> r == Ok::<
            SwapchainDesc,
            EngineError,
        >(spec_plan_swapchain(*caps, drawable)),
{
    if caps.formats.len() == 0 {
        return Err(EngineError::NoSurfaceFormats);
    }
    if caps.alpha_modes.len() == 0 {
        return Err(EngineError::NoCompositeAlpha);
    }
    let image_count = plan_image_count(caps.min_image_count, caps.max_image_count);
    Ok(
        SwapchainDesc {
            image_count,
            format: caps.formats[0],
            alpha: caps.alpha_modes[0],
            extent: drawable,
        },
    )
}

/// Rebuilds the swapchain description after a resize or a staleness
/// signal: the prior creation choices are carried forward with only
/// the extent overridden.
pub fn recreate_desc(old_desc: &SwapchainDesc, drawable: Extent) -> (r: SwapchainDesc)
    ensures
        r == spec_recreate(*old_desc, drawable),
{
    SwapchainDesc { extent: drawable, ..*old_desc }
}

/// Recreating twice in a row with an unchanged drawable size yields
/// the same description both times: in particular the same extent and
/// the same image count.
pub proof fn lemma_recreation_idempotent(desc: SwapchainDesc, drawable: Extent)
    ensures
        spec_recreate(spec_recreate(desc, drawable), drawable) == spec_recreate(desc, drawable),
        spec_recreate(spec_recreate(desc, drawable), drawable).extent == drawable,
        spec_recreate(spec_recreate(desc, drawable), drawable).image_count == desc.image_count,
{
}

/// Derives the render target set: one framebuffer per presentable
/// image, the framebuffer with index `i` binding a view over image
/// `i`. A pure function of the image count; the render pass the
/// framebuffers are built against is fixed.
pub fn create_framebuffers(image_count: u32) -> (targets: Vec<FramebufferDesc>)
    ensures
        targets@.len() == image_count,
        forall|i: int|
            0 <= i < image_count ==> targets@[i] == (FramebufferDesc { image_index: i as u32 }),
{
    let mut targets: Vec<FramebufferDesc> = Vec::new();
    let mut i: u32 = 0;
    while i < image_count
        invariant
            i <= image_count,
            targets@.len() == i,
            forall|j: int|
                0 <= j < i ==> targets@[j] == (FramebufferDesc { image_index: j as u32 }),
        decreases image_count - i,
    {
        targets.push(FramebufferDesc { image_index: i });
        i = i + 1;
    }
    targets
}

/// The window's provisioning state. A window starts with only its
/// surface; the swapchain, the render pass and the render targets
/// appear together when the device provisions it, and accessors reject
/// calls made before that with a typed error rather than a panic.
pub enum Provision {
    Created,
    Provisioned {
        swapchain: SwapchainDesc,
        render_pass: RenderPassDesc,
        targets: Vec<FramebufferDesc>,
    },
}

/// The swapchain manager's view of one window: the current viewport
/// and, once provisioned, the swapchain description, the render pass
/// and the render target set. The native window and surface handles
/// themselves stay with the unverified shell, which reports the
/// drawable size whenever this model needs it.
pub struct WindowModel {
    pub viewport: Viewport,
    pub provision: Provision,
}

impl WindowModel {
    /// Whether the swapchain and its render targets exist.
    pub open spec fn provisioned(&self) -> bool {
        self.provision is Provisioned
    }

    /// The current swapchain description.
    pub open spec fn spec_swapchain(&self) -> SwapchainDesc
        recommends
            self.provisioned(),
    {
        self.provision->swapchain
    }

    /// The render pass, created once at first provisioning.
    pub open spec fn spec_render_pass(&self) -> RenderPassDesc
        recommends
            self.provisioned(),
    {
        self.provision->render_pass
    }

    /// The render target set.
    pub open spec fn spec_targets(&self) -> Seq<FramebufferDesc>
        recommends
            self.provisioned(),
    {
        self.provision->targets@
    }

    /// Well-formedness: once provisioned, the render pass matches the
    /// swapchain's format and there is exactly one framebuffer per
    /// presentable image, the framebuffer at position `i` binding
    /// image `i`.
    pub open spec fn wf(&self) -> bool {
        self.provisioned() ==> {
            &&& self.spec_render_pass().color_format == self.spec_swapchain().format
            &&& self.spec_targets().len() == self.spec_swapchain().image_count
            &&& forall|i: int|
                0 <= i < self.spec_targets().len() ==> self.spec_targets()[i] == (FramebufferDesc {
                    image_index: i as u32,
                })
        }
    }

    /// A freshly created window: surface only, viewport covering the
    /// whole drawable, no swapchain yet.
    pub fn new(drawable: Extent) -> (w: WindowModel)
        ensures
            w.wf(),
            w.viewport == (Viewport { offset_x: 0, offset_y: 0, extent: drawable }),
            !w.provisioned(),
    {
        WindowModel { viewport: Viewport::from_extent(drawable), provision: Provision::Created }
    }

    /// Provisions the window: plans the swapchain from the surface
    /// capabilities and the current drawable size, fixes the render
    /// pass to the chosen format, and derives the render targets.
    /// Fails exactly when the capabilities name no format or no
    /// composite-alpha mode, and then changes nothing.
    pub fn create_swapchain(&mut self, caps: &SurfaceCaps, drawable: Extent) -> (r: Result<
        SwapchainDesc,
        EngineError,
    >)
        requires
            old(self).wf(),
            !old(self).provisioned(),
            caps.min_image_count < u32::MAX,
        ensures
            final(self).wf(),
            caps.formats@.len() == 0 ==> r == Err::<SwapchainDesc, EngineError>(
                EngineError::NoSurfaceFormats,
            ) && *final(self) == *old(self),
            caps.formats@.len() > 0 && caps.alpha_modes@.len() == 0 ==> r == Err::<
                SwapchainDesc,
                EngineError,
            >(EngineError::NoCompositeAlpha) && *final(self) == *old(self),
            caps.formats@.len() > 0 && caps.alpha_modes@.len() > 0 ==> {
                &&& r == Ok::<SwapchainDesc, EngineError>(spec_plan_swapchain(*caps, drawable))
                &&& final(self).provisioned()
                &&& final(self).spec_swapchain() == spec_plan_swapchain(*caps, drawable)
                &&& final(self).spec_render_pass() == (RenderPassDesc {
                    color_format: spec_plan_swapchain(*caps, drawable).format,
                })
                &&& final(self).viewport == old(self).viewport
            },
    {
        let desc = match plan_swapchain(caps, drawable) {
            Ok(desc) => desc,
            Err(e) => {
                return Err(e);
            },
        };
        let targets = create_framebuffers(desc.image_count);
        self.provision = Provision::Provisioned {
            swapchain: desc,
            render_pass: RenderPassDesc { color_format: desc.format },
            targets,
        };
        Ok(desc)
    }

    /// Rebuilds the swapchain at the current drawable size, carrying
    /// every prior creation choice forward, and rebuilds the render
    /// targets one-to-one against it. The render pass and the viewport
    /// are untouched: only the extent changes on recreation, never the
    /// format.
    pub fn recreate_swapchain(&mut self, drawable: Extent) -> (r: SwapchainDesc)
        requires
            old(self).wf(),
            old(self).provisioned(),
        ensures
            final(self).wf(),
            final(self).provisioned(),
            r == spec_recreate(old(self).spec_swapchain(), drawable),
            final(self).spec_swapchain() == spec_recreate(old(self).spec_swapchain(), drawable),
            final(self).spec_render_pass() == old(self).spec_render_pass(),
            final(self).viewport == old(self).viewport,
    {
        match &self.provision {
            Provision::Provisioned { swapchain, render_pass, .. } => {
                let desc = recreate_desc(swapchain, drawable);
                let rp = *render_pass;
                let targets = create_framebuffers(desc.image_count);
                self.provision = Provision::Provisioned {
                    swapchain: desc,
                    render_pass: rp,
                    targets,
                };
                desc
            },
            Provision::Created => unreached(),
        }
    }

    /// The current swapchain description, or a typed error when the
    /// window has not been provisioned yet.
    pub fn get_swapchain(&self) -> (r: Result<SwapchainDesc, EngineError>)
        ensures
            self.provisioned() ==> r == Ok::<SwapchainDesc, EngineError>(self.spec_swapchain()),
            !self.provisioned() ==> r == Err::<SwapchainDesc, EngineError>(
                EngineError::NotProvisioned,
            ),
    {
        match &self.provision {
            Provision::Provisioned { swapchain, .. } => Ok(*swapchain),
            Provision::Created => Err(EngineError::NotProvisioned),
        }
    }

    /// The render pass, or a typed error before provisioning.
    pub fn get_render_pass(&self) -> (r: Result<RenderPassDesc, EngineError>)
        ensures
            self.provisioned() ==> r == Ok::<RenderPassDesc, EngineError>(self.spec_render_pass()),
            !self.provisioned() ==> r == Err::<RenderPassDesc, EngineError>(
                EngineError::NotProvisioned,
            ),
    {
        match &self.provision {
            Provision::Provisioned { render_pass, .. } => Ok(*render_pass),
            Provision::Created => Err(EngineError::NotProvisioned),
        }
    }

    /// The render target set, or a typed error before provisioning.
    pub fn get_framebuffers(&self) -> (r: Result<&Vec<FramebufferDesc>, EngineError>)
        ensures
            self.provisioned() ==> (r matches Ok(t) && t@ == self.spec_targets()),
            !self.provisioned() ==> (r matches Err(e) && e == EngineError::NotProvisioned),
    {
        match &self.provision {
            Provision::Provisioned { targets, .. } => Ok(targets),
            Provision::Created => Err(EngineError::NotProvisioned),
        }
    }

    /// The current viewport.
    pub fn get_window_viewport(&self) -> (v: Viewport)
        ensures
            v == self.viewport,
    {
        self.viewport
    }
}

} // verus!
