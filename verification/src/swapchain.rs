//! Ownership and lifecycle of the swapchain and its dependent objects.
//!
//! A [`SwapchainManager`] records which backend objects the engine currently
//! owns on behalf of the presentable image chain: the chain itself, one view
//! per image, one render target (framebuffer) per view, and the render-target
//! description (render pass) they are bound to.  The images themselves belong
//! to the backend and are never released here.  The manager can be torn down
//! and rebuilt independently of everything else; teardown hands the shell an
//! ordered list of releases, because a handle must never be destroyed while a
//! handle that depends on it still exists.

use vstd::prelude::*;

use crate::surface::{plan_of, Extent, SurfaceCaps, SurfaceFormat, SwapchainPlan};

verus! {

/// One release of a backend object, named by its opaque handle.  The shell
/// performs releases strictly in the order it is handed them.
#[derive(Clone, Copy, PartialEq, Eq, Structural, Debug)]
pub enum ReleaseStep {
    Framebuffer(u64),
    ImageView(u64),
    Swapchain(u64),
    RenderPass(u64),
    Semaphore(u64),
    Fence(u64),
    Pipeline(u64),
    PipelineLayout(u64),
    Buffer(u64),
    Memory(u64),
    CommandPool(u64),
}

/// Mathematical view of a [`SwapchainManager`].
#[verifier::ext_equal]
pub struct SwapchainView {
    pub config: Option<SwapchainPlan>,
    pub chain: u64,
    pub render_pass: u64,
    pub images: Seq<u64>,
    pub image_views: Seq<u64>,
    pub framebuffers: Seq<u64>,
}

impl SwapchainView {
    /// A chain is installed and usable.
    pub open spec fn built(self) -> bool {
        self.config is Some
    }

    /// Structural invariant: one view and one render target per image, and a
    /// torn-down manager holds nothing.
    pub open spec fn inv(self) -> bool {
        &&& self.image_views.len() == self.images.len()
        &&& self.framebuffers.len() == self.images.len()
        &&& (!self.built() ==> self.images.len() == 0)
    }

    /// The extent the installed chain was created with.
    pub open spec fn extent(self) -> Extent
        recommends
            self.built(),
    {
        self.config->Some_0.extent
    }

    /// The state of a manager that owns nothing.
    pub open spec fn torn_down() -> SwapchainView {
        SwapchainView {
            config: None,
            chain: 0,
            render_pass: 0,
            images: Seq::empty(),
            image_views: Seq::empty(),
            framebuffers: Seq::empty(),
        }
    }

    /// The releases a teardown performs, in dependency order: every render
    /// target, then every view, then the chain, then the render-target
    /// description.
    pub open spec fn destroy_script(self) -> Seq<ReleaseStep> {
        framebuffer_steps(self.framebuffers) + image_view_steps(self.image_views) + seq![
            ReleaseStep::Swapchain(self.chain),
            ReleaseStep::RenderPass(self.render_pass),
        ]
    }
}

pub open spec fn framebuffer_steps(handles: Seq<u64>) -> Seq<ReleaseStep> {
    handles.map_values(|h: u64| ReleaseStep::Framebuffer(h))
}

pub open spec fn image_view_steps(handles: Seq<u64>) -> Seq<ReleaseStep> {
    handles.map_values(|h: u64| ReleaseStep::ImageView(h))
}

/// The state of a manager right after a build: the plan's parameters and the
/// handles the backend returned for them.  It depends on nothing but those
/// arguments — in particular not on any earlier state of the manager.
pub open spec fn installed_view(
    plan: SwapchainPlan,
    chain: u64,
    render_pass: u64,
    images: Seq<u64>,
    image_views: Seq<u64>,
    framebuffers: Seq<u64>,
) -> SwapchainView {
    SwapchainView { config: Some(plan), chain, render_pass, images, image_views, framebuffers }
}

/// Owns the presentable image chain's dependent objects and their teardown
/// discipline.
pub struct SwapchainManager {
    pub config: Option<SwapchainPlan>,
    pub chain: u64,
    pub render_pass: u64,
    pub images: Vec<u64>,
    pub image_views: Vec<u64>,
    pub framebuffers: Vec<u64>,
}

impl View for SwapchainManager {
    type V = SwapchainView;

    open spec fn view(&self) -> SwapchainView {
        SwapchainView {
            config: self.config,
            chain: self.chain,
            render_pass: self.render_pass,
            images: self.images@,
            image_views: self.image_views@,
            framebuffers: self.framebuffers@,
        }
    }
}

impl SwapchainManager {
    /// A manager that owns nothing yet.
    pub fn empty() -> (m: Self)
        ensures
            m@ == SwapchainView::torn_down(),
            m@.inv(),
    {
        let m = SwapchainManager {
            config: None,
            chain: 0,
            render_pass: 0,
            images: Vec::new(),
            image_views: Vec::new(),
            framebuffers: Vec::new(),
        };
        proof {
            assert(m@ =~= SwapchainView::torn_down());
        }
        m
    }

    /// Adopt a freshly built chain: the plan it was created from and the
    /// handles the backend returned — one view and one render target per
    /// image.
    pub fn install(
        &mut self,
        plan: SwapchainPlan,
        chain: u64,
        render_pass: u64,
        images: Vec<u64>,
        image_views: Vec<u64>,
        framebuffers: Vec<u64>,
    )
        requires
            !old(self)@.built(),
            image_views@.len() == images@.len(),
            framebuffers@.len() == images@.len(),
        ensures
            final(self)@ == installed_view(
                plan,
                chain,
                render_pass,
                images@,
                image_views@,
                framebuffers@,
            ),
            final(self)@.inv(),
            final(self)@.built(),
    {
        self.config = Some(plan);
        self.chain = chain;
        self.render_pass = render_pass;
        self.images = images;
        self.image_views = image_views;
        self.framebuffers = framebuffers;
    }

    /// The plan the installed chain was created from.
    pub fn plan(&self) -> (p: SwapchainPlan)
        requires
            self@.built(),
        ensures
            self@.config == Some(p),
    {
        match &self.config {
            Some(p) => *p,
            None => unreached(),
        }
    }

    /// Tear the chain down and hand back the releases to perform, in
    /// dependency order: render targets, then views, then the chain, then the
    /// render-target description.  The manager afterwards owns nothing and
    /// must not be torn down again before the next install.
    pub fn destroy(&mut self) -> (steps: Vec<ReleaseStep>)
        requires
            old(self)@.inv(),
            old(self)@.built(),
        ensures
            steps@ == old(self)@.destroy_script(),
            final(self)@ == SwapchainView::torn_down(),
            final(self)@.inv(),
    {
        let mut steps: Vec<ReleaseStep> = Vec::new();
        let mut i: usize = 0;
        while i < self.framebuffers.len()
            invariant
                i <= self.framebuffers@.len(),
                steps@ == framebuffer_steps(self.framebuffers@.take(i as int)),
            decreases self.framebuffers@.len() - i,
        {
            steps.push(ReleaseStep::Framebuffer(self.framebuffers[i]));
            proof {
                assert(framebuffer_steps(self.framebuffers@.take(i + 1 as int)) =~= framebuffer_steps(
                    self.framebuffers@.take(i as int),
                ).push(ReleaseStep::Framebuffer(self.framebuffers@[i as int])));
            }
            i += 1;
        }
        proof {
            assert(self.framebuffers@.take(self.framebuffers@.len() as int) =~= self.framebuffers@);
        }
        let mut j: usize = 0;
        while j < self.image_views.len()
            invariant
                j <= self.image_views@.len(),
                steps@ == framebuffer_steps(self.framebuffers@) + image_view_steps(
                    self.image_views@.take(j as int),
                ),
            decreases self.image_views@.len() - j,
        {
            steps.push(ReleaseStep::ImageView(self.image_views[j]));
            proof {
                assert(image_view_steps(self.image_views@.take(j + 1 as int)) =~= image_view_steps(
                    self.image_views@.take(j as int),
                ).push(ReleaseStep::ImageView(self.image_views@[j as int])));
                assert(steps@ =~= framebuffer_steps(self.framebuffers@) + image_view_steps(
                    self.image_views@.take(j + 1 as int),
                ));
            }
            j += 1;
        }
        proof {
            assert(self.image_views@.take(self.image_views@.len() as int) =~= self.image_views@);
        }
        steps.push(ReleaseStep::Swapchain(self.chain));
        steps.push(ReleaseStep::RenderPass(self.render_pass));
        proof {
            assert(steps@ =~= old(self)@.destroy_script());
        }
        self.config = None;
        self.chain = 0;
        self.render_pass = 0;
        self.images = Vec::new();
        self.image_views = Vec::new();
        self.framebuffers = Vec::new();
        proof {
            assert(self@ =~= SwapchainView::torn_down());
        }
        steps
    }
}

/// Round-trip law: tearing a swapchain down and rebuilding it from identical
/// capabilities, formats and modes reproduces the same format, extent and
/// present mode, and the rebuilt manager again holds exactly one view and one
/// render target per image.
pub proof fn lemma_rebuild_round_trip(
    m: SwapchainView,
    caps: SurfaceCaps,
    formats: Seq<SurfaceFormat>,
    modes: Seq<u32>,
    chain2: u64,
    render_pass2: u64,
    images2: Seq<u64>,
    image_views2: Seq<u64>,
    framebuffers2: Seq<u64>,
)
    requires
        m.inv(),
        m.built(),
        formats.len() > 0,
        m.config == Some(plan_of(caps, formats, modes)),
        image_views2.len() == images2.len(),
        framebuffers2.len() == images2.len(),
    ensures
        ({
            let rebuilt = installed_view(
                plan_of(caps, formats, modes),
                chain2,
                render_pass2,
                images2,
                image_views2,
                framebuffers2,
            );
            &&& rebuilt.config == m.config
            &&& rebuilt.extent() == m.extent()
            &&& rebuilt.inv()
        }),
{
}

} // verus!
