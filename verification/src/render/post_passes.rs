//! The post-process passes: which of their uniforms a source selects, the
//! sizes of their working surfaces, and the compute dispatches each one
//! issues. Surfaces and uniforms are type parameters: the passes hold
//! whatever GPU objects the caller built for them.
use vstd::prelude::*;

verus! {

/// Pixels per side of the square tile one post-process workgroup covers.
pub const POST_PROCESS_TILE: u32 = 8;

/// The colour a bloom pass reads: the scene or the reflection result.
#[derive(Debug, Copy, Clone, PartialEq, Eq, Structural)]
pub enum BloomInputSource {
    Base,
    Ssr,
}

impl BloomInputSource {
    /// The slot of this source in the pass's uniform pairs.
    pub open spec fn slot(self) -> int {
        match self {
            BloomInputSource::Base => 0,
            BloomInputSource::Ssr => 1,
        }
    }

    /// The slot of this source in the pass's uniform pairs.
    pub fn index(self) -> (r: usize)
        ensures
            r == self.slot(),
    {
        match self {
            BloomInputSource::Base => 0,
            BloomInputSource::Ssr => 1,
        }
    }
}

/// The colour an anti-aliasing pass reads.
#[derive(Debug, Copy, Clone, PartialEq, Eq, Structural)]
pub enum FxaaInputSource {
    Base,
    Ssr,
    Ssao,
    Bloom,
}

impl FxaaInputSource {
    /// The slot of this source among the pass's uniforms.
    pub open spec fn slot(self) -> int {
        match self {
            FxaaInputSource::Base => 0,
            FxaaInputSource::Ssr => 1,
            FxaaInputSource::Ssao => 2,
            FxaaInputSource::Bloom => 3,
        }
    }

    /// The slot of this source among the pass's uniforms.
    pub fn index(self) -> (r: usize)
        ensures
            r == self.slot(),
    {
        match self {
            FxaaInputSource::Base => 0,
            FxaaInputSource::Ssr => 1,
            FxaaInputSource::Ssao => 2,
            FxaaInputSource::Bloom => 3,
        }
    }
}

/// `a / b` rounded up.
pub open spec fn ceil_div(a: int, b: int) -> int {
    (a + b - 1) / b
}

/// `n`, but at least one.
pub open spec fn at_least_one(n: u32) -> u32 {
    if n >= 1 {
        n
    } else {
        1
    }
}

fn at_least_one_exec(n: u32) -> (r: u32)
    ensures
        r == at_least_one(n),
{
    if n >= 1 {
        n
    } else {
        1
    }
}

fn ceil_div_exec(a: u32, b: u32) -> (r: u32)
    requires
        b > 0,
    ensures
        r == ceil_div(a as int, b as int),
{
    let q = a / b;
    let extra: u32 = if a % b == 0 {
        0
    } else {
        1
    };
    proof {
        vstd::arithmetic::div_mod::lemma_fundamental_div_mod(a as int, b as int);
        let qi = a as int / b as int;
        let ri = a as int % b as int;
        if ri == 0 {
            assert(a + b - 1 == qi * b + (b - 1));
            vstd::arithmetic::div_mod::lemma_fundamental_div_mod_converse_div(a + b - 1, b as int, qi, b - 1);
        } else {
            assert(a + b - 1 == (qi + 1) * b + (ri - 1)) by (nonlinear_arith)
                requires
                    a == b * qi + ri,
            ;
            vstd::arithmetic::div_mod::lemma_fundamental_div_mod_converse_div(a + b - 1, b as int, qi + 1, ri - 1);
        }
    }
    if extra == 1 {
        assert(b != 1) by {
            if b == 1 {
                assert(a % 1 == 0);
            }
        }
        assert(q < u32::MAX) by (nonlinear_arith)
            requires
                q * b <= a,
                b >= 2,
                a <= u32::MAX,
        ;
    }
    q + extra
}

/// Workgroups covering a `width` by `height` screen in tiles of
/// [`POST_PROCESS_TILE`], each side taken as at least one pixel.
pub fn screen_dispatch(width: u32, height: u32) -> (r: (u32, u32))
    ensures
        r.0 == ceil_div(at_least_one(width) as int, 8),
        r.1 == ceil_div(at_least_one(height) as int, 8),
{
    (ceil_div_exec(at_least_one_exec(width), POST_PROCESS_TILE), ceil_div_exec(at_least_one_exec(height), POST_PROCESS_TILE))
}

/// The half-resolution size bloom blurs at: each side of the screen,
/// taken as at least one pixel, halved and rounded up.
pub fn bloom_half_extent(width: u32, height: u32) -> (r: (u32, u32))
    ensures
        r.0 == ceil_div(at_least_one(width) as int, 2),
        r.1 == ceil_div(at_least_one(height) as int, 2),
{
    (ceil_div_exec(at_least_one_exec(width), 2), ceil_div_exec(at_least_one_exec(height), 2))
}

/// Blur passes kept between one and six.
pub fn sanitize_blur_passes(n: u32) -> (r: u32)
    ensures
        r == if n < 1 {
            1
        } else if n > 6 {
            6
        } else {
            n
        },
{
    if n < 1 {
        1
    } else if n > 6 {
        6
    } else {
        n
    }
}

/// A step of the bloom compute pass.
#[derive(Debug, Copy, Clone, PartialEq, Eq, Structural)]
pub enum BloomStage {
    Prefilter(BloomInputSource),
    BlurHorizontal,
    BlurVertical,
    Composite(BloomInputSource),
}

/// A surface a bloom stage reads or writes: the frame's base colour or its
/// colour after screen-space reflections, the two half-resolution work
/// surfaces, or the pass's output.
#[derive(Debug, Copy, Clone, PartialEq, Eq, Structural)]
pub enum BloomSurface {
    Base,
    Ssr,
    HalfA,
    HalfB,
    Output,
}

/// The surfaces the uniform of a bloom stage binds: the two textures it
/// reads, and the one it writes.
#[derive(Debug, Copy, Clone, PartialEq, Eq, Structural)]
pub struct BloomWiring {
    pub first: BloomSurface,
    pub second: BloomSurface,
    pub written: BloomSurface,
}

/// The colour surface a bloom source names.
pub open spec fn source_surface(source: BloomInputSource) -> BloomSurface {
    match source {
        BloomInputSource::Base => BloomSurface::Base,
        BloomInputSource::Ssr => BloomSurface::Ssr,
    }
}

/// What each bloom stage reads and writes: the prefilter reads the source
/// colour into the first work surface, the horizontal blur reads it into
/// the second and the vertical blur back into the first, and the
/// composite reads the source colour and the first work surface into the
/// output.
pub open spec fn bloom_wiring_spec(stage: BloomStage) -> BloomWiring {
    match stage {
        BloomStage::Prefilter(s) => BloomWiring {
            first: source_surface(s),
            second: source_surface(s),
            written: BloomSurface::HalfA,
        },
        BloomStage::BlurHorizontal => BloomWiring {
            first: BloomSurface::HalfA,
            second: BloomSurface::HalfA,
            written: BloomSurface::HalfB,
        },
        BloomStage::BlurVertical => BloomWiring {
            first: BloomSurface::HalfB,
            second: BloomSurface::HalfB,
            written: BloomSurface::HalfA,
        },
        BloomStage::Composite(s) => BloomWiring {
            first: source_surface(s),
            second: BloomSurface::HalfA,
            written: BloomSurface::Output,
        },
    }
}

/// The surfaces the uniform of `stage` binds (see [`bloom_wiring_spec`]).
pub fn bloom_wiring(stage: BloomStage) -> (r: BloomWiring)
    ensures
        r == bloom_wiring_spec(stage),
{
    let source = |s: BloomInputSource| -> (r: BloomSurface)
        ensures
            r == source_surface(s),
        {
            match s {
                BloomInputSource::Base => BloomSurface::Base,
                BloomInputSource::Ssr => BloomSurface::Ssr,
            }
        };
    match stage {
        BloomStage::Prefilter(s) => BloomWiring { first: source(s), second: source(s), written: BloomSurface::HalfA },
        BloomStage::BlurHorizontal => BloomWiring {
            first: BloomSurface::HalfA,
            second: BloomSurface::HalfA,
            written: BloomSurface::HalfB,
        },
        BloomStage::BlurVertical => BloomWiring {
            first: BloomSurface::HalfB,
            second: BloomSurface::HalfB,
            written: BloomSurface::HalfA,
        },
        BloomStage::Composite(s) => BloomWiring { first: source(s), second: BloomSurface::HalfA, written: BloomSurface::Output },
    }
}

/// One compute dispatch: what it runs and its workgroup counts.
#[derive(Debug, Copy, Clone, PartialEq, Eq, Structural)]
pub struct BloomDispatch {
    pub stage: BloomStage,
    pub x: u32,
    pub y: u32,
}

/// The bloom dispatches: a prefilter of the source at half resolution,
/// `blur_passes` pairs of horizontal then vertical blurs at half
/// resolution, and a composite of the source at full resolution.
pub open spec fn bloom_dispatches(
    source: BloomInputSource,
    half: (u32, u32),
    full: (u32, u32),
    blur_passes: nat,
) -> Seq<BloomDispatch> {
    let hx = ceil_div(half.0 as int, 8) as u32;
    let hy = ceil_div(half.1 as int, 8) as u32;
    let blurs = Seq::new(
        2 * blur_passes,
        |i: int|
            BloomDispatch {
                stage: if i % 2 == 0 {
                    BloomStage::BlurHorizontal
                } else {
                    BloomStage::BlurVertical
                },
                x: hx,
                y: hy,
            },
    );
    seq![BloomDispatch { stage: BloomStage::Prefilter(source), x: hx, y: hy }] + blurs + seq![
        BloomDispatch {
            stage: BloomStage::Composite(source),
            x: ceil_div(at_least_one(full.0) as int, 8) as u32,
            y: ceil_div(at_least_one(full.1) as int, 8) as u32,
        },
    ]
}

/// What each bloom stage binds, for either source: the composite reads the
/// very colour the prefilter read (the base colour when blooming the base
/// colour, the reflected colour when blooming after reflections) together
/// with the first work surface, which the vertical blur wrote last, and
/// writes the output; the prefilter writes the first work surface, the
/// horizontal blur copies it to the second and the vertical blur back.
/// The two sources read different colours, and no stage writes a surface
/// it reads.
pub proof fn lemma_bloom_wiring(source: BloomInputSource, stage: BloomStage)
    ensures
        ({
            let colour = match source {
                BloomInputSource::Base => BloomSurface::Base,
                BloomInputSource::Ssr => BloomSurface::Ssr,
            };
            let prefilter = bloom_wiring_spec(BloomStage::Prefilter(source));
            let composite = bloom_wiring_spec(BloomStage::Composite(source));
            let horizontal = bloom_wiring_spec(BloomStage::BlurHorizontal);
            let vertical = bloom_wiring_spec(BloomStage::BlurVertical);
            &&& prefilter.first == colour && prefilter.second == colour
            &&& composite.first == colour
            &&& composite.first == prefilter.first
            &&& composite.second == vertical.written
            &&& composite.written == BloomSurface::Output
            &&& prefilter.written == BloomSurface::HalfA
            &&& horizontal.first == prefilter.written && horizontal.second == prefilter.written
            &&& horizontal.written == BloomSurface::HalfB
            &&& vertical.first == horizontal.written && vertical.second == horizontal.written
            &&& vertical.written == BloomSurface::HalfA
            &&& bloom_wiring_spec(BloomStage::Prefilter(BloomInputSource::Base)).first != bloom_wiring_spec(
                BloomStage::Prefilter(BloomInputSource::Ssr),
            ).first
            &&& bloom_wiring_spec(BloomStage::Composite(BloomInputSource::Base)).first != bloom_wiring_spec(
                BloomStage::Composite(BloomInputSource::Ssr),
            ).first
            &&& bloom_wiring_spec(stage).written != bloom_wiring_spec(stage).first
            &&& bloom_wiring_spec(stage).written != bloom_wiring_spec(stage).second
        }),
{
}

/// In a bloom run every stage reads what the stage before it wrote, the
/// first reads the source colour and the last writes the output.
#[verifier::spinoff_prover]
#[verifier::rlimit(30)]
pub proof fn lemma_bloom_stages_chain(source: BloomInputSource, half: (u32, u32), full: (u32, u32), blur_passes: nat)
    ensures
        ({
            let d = bloom_dispatches(source, half, full, blur_passes);
            &&& bloom_wiring_spec(d[0].stage).first == source_surface(source)
            &&& bloom_wiring_spec(d.last().stage).written == BloomSurface::Output
            &&& forall|i: int|
                0 <= i < d.len() - 1 ==> (#[trigger] bloom_wiring_spec(d[i].stage)).written == bloom_wiring_spec(
                    d[i + 1].stage,
                ).second
        }),
{
    let d = bloom_dispatches(source, half, full, blur_passes);
    let n = 2 * blur_passes;
    assert(d.len() == n + 2);
    assert forall|i: int| 0 <= i < d.len() - 1 implies (#[trigger] bloom_wiring_spec(d[i].stage)).written
        == bloom_wiring_spec(d[i + 1].stage).second by {
        if i == 0 {
        } else if i < n {
            assert((i - 1) % 2 == 0 ==> i % 2 == 1);
            assert((i - 1) % 2 == 1 ==> i % 2 == 0);
        } else {
            assert(i == n);
        }
    }
}

/// The bloom pass: its output surface, two half-resolution work surfaces,
/// and its uniforms (one prefilter and one composite uniform per source).
pub struct BloomRenderPass<S, U> {
    output: S,
    half_a: S,
    half_b: S,
    prefilter_uniforms: [U; 2],
    blur_horizontal_uniform: U,
    blur_vertical_uniform: U,
    composite_uniforms: [U; 2],
    half_width: u32,
    half_height: u32,
}

impl<S, U> BloomRenderPass<S, U> {
    /// The prefilter uniforms, by source slot.
    pub closed spec fn prefilter_seq(&self) -> Seq<U> {
        self.prefilter_uniforms@
    }

    /// The composite uniforms, by source slot.
    pub closed spec fn composite_seq(&self) -> Seq<U> {
        self.composite_uniforms@
    }

    /// The surface the pass writes.
    pub closed spec fn output_spec(&self) -> S {
        self.output
    }

    /// The surface the pass writes.
    pub fn output(&self) -> (r: &S)
        ensures
            *r == self.output_spec(),
    {
        &self.output
    }

    /// The half-resolution size.
    pub closed spec fn half_extent(&self) -> (u32, u32) {
        (self.half_width, self.half_height)
    }

    /// The horizontal and vertical blur uniforms.
    pub closed spec fn blur_uniforms(&self) -> (U, U) {
        (self.blur_horizontal_uniform, self.blur_vertical_uniform)
    }

    /// The half-resolution work surfaces.
    pub closed spec fn half_surfaces(&self) -> (S, S) {
        (self.half_a, self.half_b)
    }

    /// A bloom pass for a `width` by `height` screen over the given
    /// surfaces and uniforms; it blurs at [`bloom_half_extent`].
    pub fn new(
        width: u32,
        height: u32,
        output: S,
        half_a: S,
        half_b: S,
        prefilter_uniforms: [U; 2],
        blur_horizontal_uniform: U,
        blur_vertical_uniform: U,
        composite_uniforms: [U; 2],
    ) -> (r: Self)
        ensures
            r.half_extent().0 == ceil_div(at_least_one(width) as int, 2),
            r.half_extent().1 == ceil_div(at_least_one(height) as int, 2),
            r.output_spec() == output,
            r.half_surfaces() == (half_a, half_b),
            r.prefilter_seq() == prefilter_uniforms@,
            r.composite_seq() == composite_uniforms@,
            r.blur_uniforms() == (blur_horizontal_uniform, blur_vertical_uniform),
    {
        let (half_width, half_height) = bloom_half_extent(width, height);
        BloomRenderPass {
            output,
            half_a,
            half_b,
            prefilter_uniforms,
            blur_horizontal_uniform,
            blur_vertical_uniform,
            composite_uniforms,
            half_width,
            half_height,
        }
    }

    /// The prefilter uniform reading `source`.
    pub fn prefilter_uniform(&self, source: BloomInputSource) -> (r: &U)
        ensures
            *r == self.prefilter_seq()[source.slot()],
    {
        &self.prefilter_uniforms[source.index()]
    }

    /// The composite uniform writing over `source`.
    pub fn composite_uniform(&self, source: BloomInputSource) -> (r: &U)
        ensures
            *r == self.composite_seq()[source.slot()],
    {
        &self.composite_uniforms[source.index()]
    }

    /// The horizontal blur uniform.
    pub fn blur_horizontal_uniform(&self) -> (r: &U)
        ensures
            *r == self.blur_uniforms().0,
    {
        &self.blur_horizontal_uniform
    }

    /// The vertical blur uniform.
    pub fn blur_vertical_uniform(&self) -> (r: &U)
        ensures
            *r == self.blur_uniforms().1,
    {
        &self.blur_vertical_uniform
    }

    /// The half-resolution size.
    pub fn half_size(&self) -> (r: (u32, u32))
        ensures
            r == self.half_extent(),
    {
        (self.half_width, self.half_height)
    }

    /// The dispatches of one bloom run over a `screen_width` by
    /// `screen_height` frame (see [`bloom_dispatches`]).
    pub fn render_plan(&self, screen_width: u32, screen_height: u32, source: BloomInputSource, blur_passes: u32) -> (r:
        Vec<BloomDispatch>)
        ensures
            r@ == bloom_dispatches(source, self.half_extent(), (screen_width, screen_height), blur_passes as nat),
    {
        let (hx, hy) = (ceil_div_exec(self.half_width, 8), ceil_div_exec(self.half_height, 8));
        let (fx, fy) = screen_dispatch(screen_width, screen_height);
        let mut out: Vec<BloomDispatch> = Vec::new();
        out.push(BloomDispatch { stage: BloomStage::Prefilter(source), x: hx, y: hy });
        let ghost blurs = Seq::new(
            2 * (blur_passes as nat),
            |i: int|
                BloomDispatch {
                    stage: if i % 2 == 0 {
                        BloomStage::BlurHorizontal
                    } else {
                        BloomStage::BlurVertical
                    },
                    x: hx,
                    y: hy,
                },
        );
        let mut p: u32 = 0;
        while p < blur_passes
            invariant
                p <= blur_passes,
                out@ =~= seq![BloomDispatch { stage: BloomStage::Prefilter(source), x: hx, y: hy }] + blurs.take(
                    2 * p,
                ),
                blurs.len() == 2 * (blur_passes as nat),
                forall|i: int| 0 <= i < blurs.len() ==> #[trigger] blurs[i] == (BloomDispatch {
                    stage: if i % 2 == 0 {
                        BloomStage::BlurHorizontal
                    } else {
                        BloomStage::BlurVertical
                    },
                    x: hx,
                    y: hy,
                }),
            decreases blur_passes - p,
        {
            out.push(BloomDispatch { stage: BloomStage::BlurHorizontal, x: hx, y: hy });
            out.push(BloomDispatch { stage: BloomStage::BlurVertical, x: hx, y: hy });
            proof {
                assert(blurs[2 * p as int] == (BloomDispatch { stage: BloomStage::BlurHorizontal, x: hx, y: hy }));
                assert(blurs[2 * p + 1] == (BloomDispatch { stage: BloomStage::BlurVertical, x: hx, y: hy }));
                assert(blurs.take(2 * (p + 1)) =~= blurs.take(2 * p).push(blurs[2 * p as int]).push(
                    blurs[2 * p + 1],
                ));
            }
            p += 1;
        }
        out.push(BloomDispatch { stage: BloomStage::Composite(source), x: fx, y: fy });
        proof {
            assert(blurs.take(2 * blur_passes) =~= blurs);
        }
        out
    }
}

/// The uniform of a fullscreen post-process draw.
pub struct PostProcessData<U> {
    pub uniform: U,
}

impl<U> PostProcessData<U> {
    /// Post-process data over `uniform`.
    pub fn new(uniform: U) -> (r: Self)
        ensures
            r.uniform == uniform,
    {
        PostProcessData { uniform }
    }
}

/// The anti-aliasing pass: its output surface and one uniform per source.
pub struct FxaaRenderPass<S, U> {
    output: S,
    uniforms: [PostProcessData<U>; 4],
}

impl<S, U> FxaaRenderPass<S, U> {
    /// The uniforms, by source slot.
    pub closed spec fn uniform_seq(&self) -> Seq<PostProcessData<U>> {
        self.uniforms@
    }

    /// The surface the pass writes.
    pub closed spec fn output_spec(&self) -> S {
        self.output
    }

    /// The surface the pass writes.
    pub fn output(&self) -> (r: &S)
        ensures
            *r == self.output_spec(),
    {
        &self.output
    }

    /// An anti-aliasing pass over the given output and per-source uniforms.
    pub fn new(output: S, uniforms: [PostProcessData<U>; 4]) -> (r: Self)
        ensures
            r.output_spec() == output,
            r.uniform_seq() == uniforms@,
    {
        FxaaRenderPass { output, uniforms }
    }

    /// The uniform reading `source`.
    pub fn uniform(&self, source: FxaaInputSource) -> (r: &PostProcessData<U>)
        ensures
            *r == self.uniform_seq()[source.slot()],
    {
        &self.uniforms[source.index()]
    }
}

/// The pass that draws the chain's result into the frame.
pub struct FinalRenderPass<U> {
    uniform: PostProcessData<U>,
}

impl<U> FinalRenderPass<U> {
    /// The final pass over `uniform`.
    pub fn new(uniform: PostProcessData<U>) -> (r: Self)
        ensures
            r.uniform() == uniform,
    {
        FinalRenderPass { uniform }
    }

    /// Its uniform.
    pub closed spec fn uniform(&self) -> PostProcessData<U> {
        self.uniform
    }

    /// Its uniform.
    pub fn post_process_data(&self) -> (r: &PostProcessData<U>)
        ensures
            *r == self.uniform(),
    {
        &self.uniform
    }

    /// The pass's name.
    pub fn name(&self) -> (r: &'static str)
        ensures
            r@ == "Final"@,
    {
        "Final"
    }
}

/// A step of the ambient-occlusion pass.
#[derive(Debug, Copy, Clone, PartialEq, Eq, Structural)]
pub enum SsaoStage {
    Generate,
    BlurX,
    BlurY,
    Apply,
}

/// The ambient-occlusion pass: the uniforms of its four steps and its two
/// work surfaces.
pub struct ScreenSpaceAmbientOcclusionRenderPass<S, U, A> {
    generate_uniform: U,
    blur_horizontal_uniform: U,
    blur_vertical_uniform: U,
    apply_uniform: A,
    ao_raw: S,
    ao_blur: S,
}

impl<S, U, A> ScreenSpaceAmbientOcclusionRenderPass<S, U, A> {
    /// The uniforms of the generate, horizontal-blur and vertical-blur steps.
    pub closed spec fn step_uniforms(&self) -> (U, U, U) {
        (self.generate_uniform, self.blur_horizontal_uniform, self.blur_vertical_uniform)
    }

    /// The uniform of the apply step.
    pub closed spec fn apply_uniform_spec(&self) -> A {
        self.apply_uniform
    }

    /// The raw and blurred occlusion surfaces.
    pub closed spec fn surfaces(&self) -> (S, S) {
        (self.ao_raw, self.ao_blur)
    }

    /// An ambient-occlusion pass over the given uniforms and surfaces.
    pub fn new(
        generate_uniform: U,
        blur_horizontal_uniform: U,
        blur_vertical_uniform: U,
        apply_uniform: A,
        ao_raw: S,
        ao_blur: S,
    ) -> (r: Self)
        ensures
            r.step_uniforms() == (generate_uniform, blur_horizontal_uniform, blur_vertical_uniform),
            r.apply_uniform_spec() == apply_uniform,
            r.surfaces() == (ao_raw, ao_blur),
    {
        ScreenSpaceAmbientOcclusionRenderPass {
            generate_uniform,
            blur_horizontal_uniform,
            blur_vertical_uniform,
            apply_uniform,
            ao_raw,
            ao_blur,
        }
    }

    /// The uniform of a compute step; the apply step has its own.
    pub fn step_uniform(&self, stage: SsaoStage) -> (r: Option<&U>)
        ensures
            r == match stage {
                SsaoStage::Generate => Some(&self.step_uniforms().0),
                SsaoStage::BlurX => Some(&self.step_uniforms().1),
                SsaoStage::BlurY => Some(&self.step_uniforms().2),
                SsaoStage::Apply => None,
            },
    {
        match stage {
            SsaoStage::Generate => Some(&self.generate_uniform),
            SsaoStage::BlurX => Some(&self.blur_horizontal_uniform),
            SsaoStage::BlurY => Some(&self.blur_vertical_uniform),
            SsaoStage::Apply => None,
        }
    }

    /// The uniform of the apply step.
    pub fn apply_uniform(&self) -> (r: &A)
        ensures
            *r == self.apply_uniform_spec(),
    {
        &self.apply_uniform
    }

    /// The pass's name.
    pub fn name(&self) -> (r: &'static str)
        ensures
            r@ == "SSAO"@,
    {
        "SSAO"
    }

    /// The steps of one run over a `width` by `height` frame: generate,
    /// blur horizontally, blur vertically, apply, each over the whole
    /// screen in tiles.
    pub fn execute_plan(&self, width: u32, height: u32) -> (r: Vec<(SsaoStage, u32, u32)>)
        ensures
            r@ == seq![SsaoStage::Generate, SsaoStage::BlurX, SsaoStage::BlurY, SsaoStage::Apply].map_values(
                |s: SsaoStage|
                    (
                        s,
                        ceil_div(at_least_one(width) as int, 8) as u32,
                        ceil_div(at_least_one(height) as int, 8) as u32,
                    ),
            ),
    {
        let (x, y) = screen_dispatch(width, height);
        let mut out: Vec<(SsaoStage, u32, u32)> = Vec::new();
        out.push((SsaoStage::Generate, x, y));
        out.push((SsaoStage::BlurX, x, y));
        out.push((SsaoStage::BlurY, x, y));
        out.push((SsaoStage::Apply, x, y));
        assert(out@ =~= seq![SsaoStage::Generate, SsaoStage::BlurX, SsaoStage::BlurY, SsaoStage::Apply].map_values(
            |s: SsaoStage|
                (s, ceil_div(at_least_one(width) as int, 8) as u32, ceil_div(at_least_one(height) as int, 8) as u32),
        ));
        out
    }
}

/// The screen-space reflection pass: one compute uniform.
pub struct ScreenSpaceReflectionRenderPass<U> {
    uniform: U,
}

impl<U> ScreenSpaceReflectionRenderPass<U> {
    /// Its uniform.
    pub closed spec fn uniform_spec(&self) -> U {
        self.uniform
    }

    /// A reflection pass over `uniform`.
    pub fn new(uniform: U) -> (r: Self)
        ensures
            r.uniform_spec() == uniform,
    {
        ScreenSpaceReflectionRenderPass { uniform }
    }

    /// Its uniform.
    pub fn uniform(&self) -> (r: &U)
        ensures
            *r == self.uniform_spec(),
    {
        &self.uniform
    }

    /// The pass's name.
    pub fn name(&self) -> (r: &'static str)
        ensures
            r@ == "SSR"@,
    {
        "SSR"
    }

    /// The workgroups of one run over a `width` by `height` frame.
    pub fn execute_plan(&self, width: u32, height: u32) -> (r: (u32, u32))
        ensures
            r.0 == ceil_div(at_least_one(width) as int, 8),
            r.1 == ceil_div(at_least_one(height) as int, 8),
    {
        screen_dispatch(width, height)
    }
}

} // verus!
