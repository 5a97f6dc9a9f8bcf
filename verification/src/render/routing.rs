//! Routing of the post-process chain: which colour target each enabled
//! pass reads and writes, the targets alternating between two ping-pong
//! surfaces, and the final pass reading the last result.
use vstd::prelude::*;

verus! {

/// The colour target the scene is rendered into.
pub const COLOR_ID_BASE: u32 = 0;

/// The first ping-pong post-process surface.
pub const COLOR_ID_POST_A: u32 = 1;

/// The second ping-pong post-process surface.
pub const COLOR_ID_POST_B: u32 = 2;

/// The final surface of the frame.
pub const COLOR_ID_FINAL_A: u32 = 3;

/// Which optional post-process passes run.
#[derive(Debug, Copy, Clone, PartialEq, Eq, Structural)]
pub struct PostProcessRouting {
    pub run_ssr: bool,
    pub run_ssao: bool,
    pub run_bloom: bool,
    pub run_fxaa: bool,
}

impl PostProcessRouting {
    /// The routing the engine arguments select: a pass runs unless it was
    /// switched off; anti-aliasing runs when FXAA is the chosen mode.
    pub fn current(no_ssr: bool, no_ssao: bool, no_bloom: bool, fxaa_mode: bool) -> (r:
        Self)
        ensures
            r == (Self { run_ssr: !no_ssr, run_ssao: !no_ssao, run_bloom: !no_bloom, run_fxaa: fxaa_mode }),
    {
        Self { run_ssr: !no_ssr, run_ssao: !no_ssao, run_bloom: !no_bloom, run_fxaa: fxaa_mode }
    }
}

/// The colour targets one pass reads and writes.
#[derive(Debug, Copy, Clone, PartialEq, Eq, Structural)]
pub struct RouteIds {
    pub input_id: u32,
    pub output_id: u32,
}

/// The routes of all passes of the chain.
#[derive(Debug, Copy, Clone, PartialEq, Eq, Structural)]
pub struct ActiveRouteIds {
    pub ssr: RouteIds,
    pub ssao: RouteIds,
    pub bloom: RouteIds,
    pub fxaa: RouteIds,
    pub final_pass: RouteIds,
}

/// The route of a disabled pass.
pub open spec fn default_route() -> RouteIds {
    RouteIds { input_id: COLOR_ID_BASE, output_id: COLOR_ID_POST_A }
}

/// One pass of the chain: its route, the target holding the current
/// result afterwards, and whether the next write goes to surface A.
pub open spec fn route_step(run: bool, current: u32, write_to_a: bool) -> (RouteIds, u32, bool) {
    if run {
        let out = if write_to_a {
            COLOR_ID_POST_A
        } else {
            COLOR_ID_POST_B
        };
        (RouteIds { input_id: current, output_id: out }, out, !write_to_a)
    } else {
        (default_route(), current, write_to_a)
    }
}

/// The routes of the chain for `key`.
pub open spec fn composed_routes(key: PostProcessRouting) -> ActiveRouteIds {
    let s1 = route_step(key.run_ssr, COLOR_ID_BASE, true);
    let s2 = route_step(key.run_ssao, s1.1, s1.2);
    let s3 = route_step(key.run_bloom, s2.1, s2.2);
    let s4 = route_step(key.run_fxaa, s3.1, s3.2);
    ActiveRouteIds {
        ssr: s1.0,
        ssao: s2.0,
        bloom: s3.0,
        fxaa: s4.0,
        final_pass: RouteIds { input_id: s4.1, output_id: COLOR_ID_FINAL_A },
    }
}

fn step(run: bool, current: &mut u32, write_to_a: &mut bool) -> (r: RouteIds)
    ensures
        (r, *final(current), *final(write_to_a)) == route_step(run, *old(current), *old(write_to_a)),
{
    if run {
        let out = if *write_to_a {
            *write_to_a = false;
            COLOR_ID_POST_A
        } else {
            *write_to_a = true;
            COLOR_ID_POST_B
        };
        let r = RouteIds { input_id: *current, output_id: out };
        *current = out;
        r
    } else {
        RouteIds { input_id: COLOR_ID_BASE, output_id: COLOR_ID_POST_A }
    }
}

/// The routes of the chain: each enabled pass reads the current result
/// and writes the next ping-pong surface; a disabled pass keeps the
/// default route; the final pass reads the last result.
pub fn compose_routes(key: PostProcessRouting) -> (r: ActiveRouteIds)
    ensures
        r == composed_routes(key),
{
    let mut current = COLOR_ID_BASE;
    let mut write_to_a = true;
    let ssr = step(key.run_ssr, &mut current, &mut write_to_a);
    let ssao = step(key.run_ssao, &mut current, &mut write_to_a);
    let bloom = step(key.run_bloom, &mut current, &mut write_to_a);
    let fxaa = step(key.run_fxaa, &mut current, &mut write_to_a);
    ActiveRouteIds {
        ssr,
        ssao,
        bloom,
        fxaa,
        final_pass: RouteIds { input_id: current, output_id: COLOR_ID_FINAL_A },
    }
}

/// The ping-pong surface (`0` for A, `1` for B) each pass writes when the
/// chain runs; `None` for a disabled pass.
#[derive(Debug, Copy, Clone, PartialEq, Eq, Structural)]
pub struct ChainSurfaces {
    pub ssr: Option<usize>,
    pub ssao: Option<usize>,
    pub bloom: Option<usize>,
    pub fxaa: Option<usize>,
}

/// The surfaces the chain writes: each enabled pass writes the current
/// surface, and every pass but the last flips to the other one.
pub open spec fn chain_surfaces_spec(key: PostProcessRouting) -> ChainSurfaces {
    let p0: int = 0;
    let p1 = if key.run_ssr { 1 - p0 } else { p0 };
    let p2 = if key.run_ssao { 1 - p1 } else { p1 };
    let p3 = if key.run_bloom { 1 - p2 } else { p2 };
    ChainSurfaces {
        ssr: if key.run_ssr { Some(p0 as usize) } else { None },
        ssao: if key.run_ssao { Some(p1 as usize) } else { None },
        bloom: if key.run_bloom { Some(p2 as usize) } else { None },
        fxaa: if key.run_fxaa { Some(p3 as usize) } else { None },
    }
}

/// The surfaces the post-process chain writes, in the order it runs.
pub fn chain_surfaces(key: PostProcessRouting) -> (r: ChainSurfaces)
    ensures
        r == chain_surfaces_spec(key),
{
    let mut ping_index: usize = 0;
    let mut ssr = None;
    let mut ssao = None;
    let mut bloom = None;
    let mut fxaa = None;
    if key.run_ssr {
        ssr = Some(ping_index);
        ping_index = 1 - ping_index;
    }
    if key.run_ssao {
        ssao = Some(ping_index);
        ping_index = 1 - ping_index;
    }
    if key.run_bloom {
        bloom = Some(ping_index);
        ping_index = 1 - ping_index;
    }
    if key.run_fxaa {
        fxaa = Some(ping_index);
    }
    ChainSurfaces { ssr, ssao, bloom, fxaa }
}

/// Which of the two final surfaces frame `frame_count` is drawn into.
pub fn current_surface_index(frame_count: usize) -> (r: usize)
    ensures
        r == frame_count % 2,
        r < 2,
{
    frame_count % 2
}

/// The colour target of a ping-pong surface index.
pub open spec fn surface_id(ping: usize) -> u32 {
    if ping == 0 {
        COLOR_ID_POST_A
    } else {
        COLOR_ID_POST_B
    }
}

/// Routing and execution agree: every enabled pass writes, when the chain
/// runs, exactly the surface its route was built with; it reads the
/// result of the enabled pass before it (the scene for the first), never
/// the target it writes; and the final pass reads the result of the last
/// enabled pass.
pub proof fn lemma_routes_match_chain(key: PostProcessRouting)
    ensures
        ({
            let r = composed_routes(key);
            let c = chain_surfaces_spec(key);
            &&& (c.ssr matches Some(p) ==> r.ssr.output_id == surface_id(p))
            &&& (c.ssao matches Some(p) ==> r.ssao.output_id == surface_id(p))
            &&& (c.bloom matches Some(p) ==> r.bloom.output_id == surface_id(p))
            &&& (c.fxaa matches Some(p) ==> r.fxaa.output_id == surface_id(p))
            &&& (key.run_ssr ==> r.ssr.input_id == COLOR_ID_BASE)
            &&& (key.run_ssao ==> r.ssao.input_id == if key.run_ssr {
                r.ssr.output_id
            } else {
                COLOR_ID_BASE
            })
            &&& (key.run_ssr ==> r.ssr.input_id != r.ssr.output_id)
            &&& (key.run_ssao ==> r.ssao.input_id != r.ssao.output_id)
            &&& (key.run_bloom ==> r.bloom.input_id != r.bloom.output_id)
            &&& (key.run_fxaa ==> r.fxaa.input_id != r.fxaa.output_id)
            &&& r.final_pass.input_id == (if key.run_fxaa {
                r.fxaa.output_id
            } else if key.run_bloom {
                r.bloom.output_id
            } else if key.run_ssao {
                r.ssao.output_id
            } else if key.run_ssr {
                r.ssr.output_id
            } else {
                COLOR_ID_BASE
            })
            &&& r.final_pass.output_id == COLOR_ID_FINAL_A
        }),
{
}

/// What the post-process chain was last built for, and whether bloom
/// settings changed since they were last uploaded.
#[derive(Debug, Copy, Clone, PartialEq, Eq, Structural)]
pub struct ChainState {
    pub route_key: PostProcessRouting,
    pub bloom_settings_dirty: bool,
}

impl ChainState {
    /// The state of a chain just built for `key`.
    pub fn new(key: PostProcessRouting) -> (r: Self)
        ensures
            r == (ChainState { route_key: key, bloom_settings_dirty: false }),
    {
        ChainState { route_key: key, bloom_settings_dirty: false }
    }

    /// New bloom settings were set; they are uploaded with the next frame.
    pub fn set_bloom_settings(&mut self)
        ensures
            *final(self) == (ChainState { bloom_settings_dirty: true, ..*old(self) }),
    {
        self.bloom_settings_dirty = true;
    }

    /// Whether the chain must be rebuilt for the routing `desired`; when it
    /// is, the chain counts as built for `desired` with its settings
    /// uploaded.
    pub fn ensure_route_configuration(&mut self, desired: PostProcessRouting) -> (rebuild: bool)
        ensures
            rebuild == (desired != old(self).route_key),
            rebuild ==> *final(self) == (ChainState { route_key: desired, bloom_settings_dirty: false }),
            !rebuild ==> *final(self) == *old(self),
    {
        if desired != self.route_key {
            self.route_key = desired;
            self.bloom_settings_dirty = false;
            true
        } else {
            false
        }
    }

    /// Whether changed bloom settings are uploaded this frame: only when
    /// the chain is still built for the routing `desired` (else the
    /// rebuild uploads them).
    pub fn prepare_frame(&mut self, desired: PostProcessRouting) -> (upload: bool)
        ensures
            prepared(*old(self), desired, *final(self), upload),
    {
        if self.bloom_settings_dirty && desired == self.route_key {
            self.bloom_settings_dirty = false;
            true
        } else {
            false
        }
    }
}

/// The state [`ChainState::prepare_frame`] leaves after `before`, and
/// whether it uploads.
pub open spec fn prepared(before: ChainState, desired: PostProcessRouting, after: ChainState, upload: bool) -> bool {
    &&& upload == (before.bloom_settings_dirty && desired == before.route_key)
    &&& after.route_key == before.route_key
    &&& after.bloom_settings_dirty == (before.bloom_settings_dirty && !upload)
}

/// Changed bloom settings reach the GPU once: after they are set, the
/// next frame with unchanged routing uploads them and the frame after it
/// does not.
pub proof fn lemma_bloom_settings_uploaded_once(
    s0: ChainState,
    s1: ChainState,
    s2: ChainState,
    s3: ChainState,
    desired: PostProcessRouting,
    first: bool,
    second: bool,
)
    requires
        s1 == (ChainState { bloom_settings_dirty: true, ..s0 }),
        desired == s0.route_key,
        prepared(s1, desired, s2, first),
        prepared(s2, desired, s3, second),
    ensures
        first,
        !second,
        !s3.bloom_settings_dirty,
{
}

} // verus!
