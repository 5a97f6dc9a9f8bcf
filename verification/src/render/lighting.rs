//! Light bookkeeping of the renderer: light kinds, the registry of light
//! proxies by owner, and the assignment of shadow-map layers to lights.
use itertools::Itertools;
use vstd::prelude::*;

verus! {

/// The kind of a light, stored in its proxy as a raw number.
#[derive(Debug, Copy, Clone, Eq, PartialEq, Structural)]
pub enum LightType {
    Point,
    Sun,
    Spot,
}

/// The kind a raw light type number denotes.
pub open spec fn light_type_of(raw: u32) -> Option<LightType> {
    if raw == 0 {
        Some(LightType::Point)
    } else if raw == 1 {
        Some(LightType::Sun)
    } else if raw == 2 {
        Some(LightType::Spot)
    } else {
        None
    }
}

impl LightType {
    /// The raw number stored for this kind.
    pub fn as_raw(self) -> (r: u32)
        ensures
            light_type_of(r) == Some(self),
    {
        match self {
            LightType::Point => 0,
            LightType::Sun => 1,
            LightType::Spot => 2,
        }
    }

    /// The kind a raw number denotes; `None` for a number no kind has.
    pub fn from_raw(raw: u32) -> (r: Option<Self>)
        ensures
            r == light_type_of(raw),
    {
        if raw == 0 {
            Some(LightType::Point)
        } else if raw == 1 {
            Some(LightType::Sun)
        } else if raw == 2 {
            Some(LightType::Spot)
        } else {
            None
        }
    }
}

/// A kind of light component: its component name and the light kind its
/// proxy carries.
pub trait LightTypeTrait {
    /// The component's name.
    fn name() -> (r: &'static str);

    /// The light kind of the component's proxy.
    fn type_id() -> (r: LightType);
}

/// Point lights.
pub struct Point;

/// Directional sun lights.
pub struct Sun;

/// Spot lights.
pub struct Spot;

impl LightTypeTrait for Point {
    fn name() -> (r: &'static str)
        ensures
            r@ == "PointLightComponent"@,
    {
        "PointLightComponent"
    }

    fn type_id() -> (r: LightType)
        ensures
            r == LightType::Point,
    {
        LightType::Point
    }
}

impl LightTypeTrait for Sun {
    fn name() -> (r: &'static str)
        ensures
            r@ == "SunLightComponent"@,
    {
        "SunLightComponent"
    }

    fn type_id() -> (r: LightType)
        ensures
            r == LightType::Sun,
    {
        LightType::Sun
    }
}

impl LightTypeTrait for Spot {
    fn name() -> (r: &'static str)
        ensures
            r@ == "SpotLightComponent"@,
    {
        "SpotLightComponent"
    }

    fn type_id() -> (r: LightType)
        ensures
            r == LightType::Spot,
    {
        LightType::Spot
    }
}

/// The cube face a point-light shadow layer renders: faces past the sixth
/// render the sixth.
pub fn cube_face_index(face: u8) -> (r: usize)
    ensures
        r == if face < 5 {
            face as int
        } else {
            5
        },
{
    if face < 5 {
        face as usize
    } else {
        5
    }
}

// ---------------------------------------------------------------------------
// Shadow-map layers
// ---------------------------------------------------------------------------

/// One shadow-map layer rendered for one face of one light.
#[derive(Debug, Copy, Clone, PartialEq, Eq, Structural)]
pub struct ShadowAssignment {
    pub layer: u32,
    pub light_index: usize,
    pub face: u8,
}

/// The shadow-map id of a light that has no shadow map.
pub const NO_SHADOW_MAP: u32 = 0xffff_ffff;

/// Shadow-map layers a light of raw type `raw` needs: six cube faces for
/// a point light (also for an unknown type), one for a spot light, none
/// for the sun.
pub open spec fn required_layers(raw: u32) -> u32 {
    match light_type_of(raw) {
        Some(LightType::Spot) => 1,
        Some(LightType::Sun) => 0,
        _ => 6,
    }
}

/// The assignments of `count` consecutive layers from `base` to the faces
/// of light `light_index`.
pub open spec fn face_assignments(base: u32, light_index: int, count: u32) -> Seq<ShadowAssignment> {
    Seq::new(
        count as nat,
        |f: int|
            ShadowAssignment {
                layer: (base + f) as u32,
                light_index: light_index as usize,
                face: f as u8,
            },
    )
}

/// The layer plan for the first `n` lights: each light's shadow-map id,
/// the layer assignments, and the next free layer.
pub open spec fn shadow_plan(types: Seq<u32>, layers: u32, n: nat) -> (Seq<u32>, Seq<ShadowAssignment>, u32)
    decreases n,
{
    if n == 0 || n > types.len() {
        (seq![], seq![], 0)
    } else {
        let prev = shadow_plan(types, layers, (n - 1) as nat);
        let req = required_layers(types[n - 1]);
        if req == 0 || prev.2 + req > layers {
            (prev.0.push(NO_SHADOW_MAP), prev.1, prev.2)
        } else {
            (
                prev.0.push(prev.2),
                prev.1 + face_assignments(prev.2, n - 1, req),
                (prev.2 + req) as u32,
            )
        }
    }
}

/// The outcome of assigning shadow-map layers.
pub struct ShadowPlan {
    /// Per light, its first layer, or [`NO_SHADOW_MAP`].
    pub shadow_map_ids: Vec<u32>,
    /// One entry per rendered layer.
    pub assignments: Vec<ShadowAssignment>,
    /// Layers in use.
    pub used_layers: u32,
    /// Shadow render targets needed: more than there are assignments
    /// once any light has a layer.
    pub render_targets: usize,
}

/// Assigns shadow-map layers to lights in order, each light getting all
/// the layers it needs or none: a light that needs none, or whose layers
/// do not fit into `layers`, gets no shadow map. Render targets grow to
/// one more than the assignments whenever a light received layers.
pub fn plan_shadow_layers(type_ids: &Vec<u32>, layers: u32, render_targets: usize) -> (r: ShadowPlan)
    requires
        layers < usize::MAX,
    ensures
        r.shadow_map_ids@ == shadow_plan(type_ids@, layers, type_ids@.len()).0,
        r.assignments@ == shadow_plan(type_ids@, layers, type_ids@.len()).1,
        r.used_layers == shadow_plan(type_ids@, layers, type_ids@.len()).2,
        r.render_targets == if r.assignments@.len() == 0 {
            render_targets as int
        } else if render_targets > r.assignments@.len() {
            render_targets as int
        } else {
            r.assignments@.len() + 1int
        },
{
    let mut ids: Vec<u32> = Vec::new();
    let mut assignments: Vec<ShadowAssignment> = Vec::new();
    let mut next_layer: u32 = 0;
    let mut targets = render_targets;
    let mut i: usize = 0;
    while i < type_ids.len()
        invariant
            layers < usize::MAX,
            i <= type_ids.len(),
            (ids@, assignments@, next_layer) == shadow_plan(type_ids@, layers, i as nat),
            next_layer <= layers,
            assignments@.len() == next_layer,
            targets == if assignments@.len() == 0 {
                render_targets as int
            } else if render_targets > assignments@.len() {
                render_targets as int
            } else {
                assignments@.len() + 1int
            },
        decreases type_ids.len() - i,
    {
        proof {
            lemma_plan_layers(type_ids@, layers, i as nat);
        }
        let required: u32 = match LightType::from_raw(type_ids[i]) {
            Some(LightType::Spot) => 1,
            Some(LightType::Sun) => 0,
            _ => 6,
        };
        if required == 0 || next_layer as u64 + required as u64 > layers as u64 {
            ids.push(NO_SHADOW_MAP);
        } else {
            ids.push(next_layer);
            let ghost before = assignments@;
            let mut face: u32 = 0;
            while face < required
                invariant
                    face <= required <= 6,
                    next_layer + required <= layers,
                    assignments@ == before + face_assignments(next_layer, i as int, face),
                decreases required - face,
            {
                assignments.push(
                    ShadowAssignment { layer: next_layer + face, light_index: i, face: face as u8 },
                );
                assert(face_assignments(next_layer, i as int, (face + 1) as u32) =~= face_assignments(
                    next_layer,
                    i as int,
                    face,
                ).push(ShadowAssignment { layer: (next_layer + face) as u32, light_index: i, face: face as u8 }));
                face += 1;
            }
            let ghost t0 = targets;
            while assignments.len() >= targets
                invariant
                    targets >= t0,
                    targets == t0 || targets <= assignments@.len() + 1,
                    assignments@.len() < usize::MAX,
                decreases assignments.len() + 1 - targets,
            {
                targets += 1;
            }
            next_layer = next_layer + required;
        }
        i += 1;
    }
    ShadowPlan { shadow_map_ids: ids, assignments, used_layers: next_layer, render_targets: targets }
}

proof fn lemma_plan_layers(types: Seq<u32>, layers: u32, n: nat)
    requires
        n <= types.len(),
    ensures
        shadow_plan(types, layers, n).2 <= layers,
        shadow_plan(types, layers, n).1.len() == shadow_plan(types, layers, n).2,
        shadow_plan(types, layers, n).0.len() == n,
    decreases n,
{
    if n > 0 {
        lemma_plan_layers(types, layers, (n - 1) as nat);
    }
}

/// Shadow layers are handed out densely and without overlap: the plan
/// uses no more than the available layers, assignment `k` renders layer
/// `k`, every light's shadow-map id is either none or the layer of its
/// first face, and a light with layers has one assignment per face.
pub proof fn lemma_shadow_layers_dense(types: Seq<u32>, layers: u32, n: nat)
    requires
        n <= types.len(),
        types.len() <= usize::MAX,
    ensures
        ({
            let p = shadow_plan(types, layers, n);
            &&& p.2 <= layers
            &&& p.1.len() == p.2
            &&& p.0.len() == n
            &&& forall|k: int| 0 <= k < p.1.len() ==> (#[trigger] p.1[k]).layer == k
            &&& forall|k: int| 0 <= k < p.1.len() ==> (#[trigger] p.1[k]).light_index < n
            &&& forall|l: int|
                0 <= l < n && #[trigger] p.0[l] != NO_SHADOW_MAP ==> p.0[l] < p.2 && p.1[p.0[l] as int].light_index
                    == l && p.1[p.0[l] as int].face == 0
        }),
    decreases n,
{
    lemma_plan_layers(types, layers, n);
    if n > 0 {
        lemma_plan_layers(types, layers, (n - 1) as nat);
        lemma_shadow_layers_dense(types, layers, (n - 1) as nat);
        let prev = shadow_plan(types, layers, (n - 1) as nat);
        let p = shadow_plan(types, layers, n);
        let req = required_layers(types[n - 1]);
        if !(req == 0 || prev.2 + req > layers) {
            assert forall|k: int| 0 <= k < p.1.len() implies (#[trigger] p.1[k]).layer == k by {
                if k >= prev.1.len() {
                    assert(p.1[k] == face_assignments(prev.2, n - 1, req)[k - prev.1.len()]);
                } else {
                    assert(p.1[k] == prev.1[k]);
                }
            }
            assert forall|k: int| 0 <= k < p.1.len() implies (#[trigger] p.1[k]).light_index < n by {
                if k >= prev.1.len() {
                    assert(p.1[k] == face_assignments(prev.2, n - 1, req)[k - prev.1.len()]);
                } else {
                    assert(p.1[k] == prev.1[k]);
                }
            }
            assert forall|l: int|
                0 <= l < n && #[trigger] p.0[l] != NO_SHADOW_MAP implies p.0[l] < p.2
                && p.1[p.0[l] as int].light_index == l && p.1[p.0[l] as int].face == 0 by {
                if l < n - 1 {
                    assert(p.0[l] == prev.0[l]);
                    assert(p.1[p.0[l] as int] == prev.1[p.0[l] as int]);
                } else {
                    assert(p.1[prev.2 as int] == face_assignments(prev.2, n - 1, req)[0]);
                }
            }
        } else {
            assert forall|l: int|
                0 <= l < n && #[trigger] p.0[l] != NO_SHADOW_MAP implies p.0[l] < p.2
                && p.1[p.0[l] as int].light_index == l && p.1[p.0[l] as int].face == 0 by {
                if l < n - 1 {
                    assert(p.0[l] == prev.0[l]);
                }
            }
        }
    }
}

// ---------------------------------------------------------------------------
// Registry of light proxies
// ---------------------------------------------------------------------------

/// Whether two owner ids are the same.
pub fn same_owner(a: u64, b: u64) -> (r: bool)
    ensures
        r == (a == b),
{
    a == b
}

/// The first index at which `owner` occurs. Calls `Itertools::find_position`
/// on the owners with a predicate that compares each with `owner`; the
/// contract claims what its source does (`enumerate().find(..)`): the
/// position of the first element the predicate holds for, or `None` when
/// it holds for none.
#[verifier::external_body]
fn find_owner(owners: &Vec<u64>, owner: u64) -> (r: Option<usize>)
    ensures
        match r {
            Some(i) => i < owners@.len() && owners@[i as int] == owner && forall|j: int|
                0 <= j < i ==> owners@[j] != owner,
            None => forall|j: int| 0 <= j < owners@.len() ==> owners@[j] != owner,
        },
{
    owners.iter().find_position(|o| same_owner(**o, owner)).map(|p| p.0)
}

/// The light proxies of the scene, each registered by the id of the
/// component that owns it.
pub struct LightRegistry<P> {
    owners: Vec<u64>,
    proxies: Vec<P>,
}

impl<P> LightRegistry<P> {
    /// The registry as a map from owner to proxy.
    pub closed spec fn view(&self) -> Map<u64, P> {
        Map::new(
            |o: u64| self.owners@.contains(o),
            |o: u64| self.proxies@[self.owners@.index_of(o)],
        )
    }

    /// Owners are unique and each has one proxy.
    pub closed spec fn wf(&self) -> bool {
        &&& self.owners@.len() == self.proxies@.len()
        &&& self.owners@.no_duplicates()
    }

    /// The proxies in registration order.
    pub closed spec fn proxy_seq(&self) -> Seq<P> {
        self.proxies@
    }

    /// The position of `owner`'s proxy in registration order.
    pub closed spec fn position(&self, owner: u64) -> int {
        self.owners@.index_of(owner)
    }

    pub fn new() -> (r: Self)
        ensures
            r.wf(),
            r.view() == Map::<u64, P>::empty(),
            r.proxy_seq().len() == 0,
    {
        let r = Self { owners: Vec::new(), proxies: Vec::new() };
        assert(r.view() =~= Map::<u64, P>::empty());
        r
    }

    /// The position of `owner`'s proxy in registration order.
    pub fn position_of(&self, owner: u64) -> (r: Option<usize>)
        requires
            self.wf(),
        ensures
            r is Some <==> self.view().contains_key(owner),
            r matches Some(i) ==> i == self.position(owner) && i < self.proxy_seq().len()
                && self.proxy_seq()[i as int] == self.view()[owner],
    {
        let r = find_owner(&self.owners, owner);
        proof {
            if let Some(i) = r {
                assert(self.owners@.contains(owner));
                assert(self.owners@.index_of(owner) == i as int) by {
                    lemma_index_of_unique(self.owners@, owner, i as int);
                }
            } else {
                assert(!self.owners@.contains(owner));
            }
        }
        r
    }

    /// Registers `proxy` for `owner`, replacing the proxy the owner had in
    /// its place, or appending it after all others.
    pub fn add_proxy(&mut self, owner: u64, proxy: P)
        requires
            old(self).wf(),
        ensures
            final(self).wf(),
            final(self).view() == old(self).view().insert(owner, proxy),
            old(self).view().contains_key(owner) ==> final(self).proxy_seq() == old(self).proxy_seq().update(
                old(self).position(owner),
                proxy,
            ),
            !old(self).view().contains_key(owner) ==> final(self).proxy_seq() == old(self).proxy_seq().push(proxy),
            old(self).view().contains_key(owner) ==> final(self).position(owner) == old(self).position(owner),
            !old(self).view().contains_key(owner) ==> final(self).position(owner) == old(self).proxy_seq().len(),
            forall|o: u64|
                o != owner && old(self).view().contains_key(o) ==> #[trigger] final(self).position(o) == old(
                    self,
                ).position(o),
    {
        match find_owner(&self.owners, owner) {
            Some(idx) => {
                let ghost v0 = self.view();
                proof {
                    lemma_index_of_unique(self.owners@, owner, idx as int);
                }
                self.proxies.set(idx, proxy);
                proof {
                    assert forall|o: u64| #[trigger] self.owners@.contains(o) implies self.proxies@[self.owners@.index_of(o)]
                        == v0.insert(owner, proxy)[o] by {
                        if o != owner {
                            let j = self.owners@.index_of(o);
                            assert(j != idx);
                        }
                    }
                    assert(self.view() =~= v0.insert(owner, proxy));
                }
            },
            None => {
                let ghost v0 = self.view();
                let ghost o0 = self.owners@;
                self.proxies.push(proxy);
                self.owners.push(owner);
                proof {
                    assert(self.owners@.no_duplicates()) by {
                        assert forall|i: int, j: int|
                            0 <= i < self.owners@.len() && 0 <= j < self.owners@.len() && i != j
                                implies self.owners@[i] != self.owners@[j] by {
                            if i < o0.len() && j < o0.len() {
                                assert(o0[i] != o0[j]);
                            }
                        }
                    }
                    assert forall|o: u64| #[trigger] self.owners@.contains(o) implies self.proxies@[self.owners@.index_of(o)]
                        == v0.insert(owner, proxy)[o] by {
                        if o == owner {
                            lemma_index_of_unique(self.owners@, owner, o0.len() as int);
                        } else {
                            assert(o0.contains(o)) by {
                                let j = self.owners@.index_of(o);
                                assert(o0[j] == o);
                            }
                            let j = o0.index_of(o);
                            lemma_index_of_unique(self.owners@, o, j);
                        }
                    }
                    assert forall|o: u64| #[trigger] self.owners@.contains(o) <== (o == owner || o0.contains(o)) by {
                        if o == owner {
                            assert(self.owners@[o0.len() as int] == owner);
                        } else if o0.contains(o) {
                            let j = o0.index_of(o);
                            assert(self.owners@[j] == o);
                        }
                    }
                    assert(self.view() =~= v0.insert(owner, proxy));
                    lemma_index_of_unique(self.owners@, owner, o0.len() as int);
                    assert forall|o: u64| o != owner && o0.contains(o) implies #[trigger] self.owners@.index_of(o)
                        == o0.index_of(o) by {
                        let j = o0.index_of(o);
                        assert(self.owners@[j] == o);
                        lemma_index_of_unique(self.owners@, o, j);
                    }
                }
            },
        }
    }

    /// Removes the proxy of `owner`, if it has one; the others keep their order.
    pub fn remove_proxy(&mut self, owner: u64)
        requires
            old(self).wf(),
        ensures
            final(self).wf(),
            final(self).view() == old(self).view().remove(owner),
            old(self).view().contains_key(owner) ==> final(self).proxy_seq() == old(self).proxy_seq().remove(
                old(self).position(owner),
            ),
            !old(self).view().contains_key(owner) ==> final(self).proxy_seq() == old(self).proxy_seq(),
    {
        let pos = match find_owner(&self.owners, owner) {
            Some(pos) => pos,
            None => {
                assert(!self.owners@.contains(owner));
                assert(self.view() =~= self.view().remove(owner));
                return;
            },
        };
        let ghost v0 = self.view();
        let ghost o0 = self.owners@;
        let ghost p0 = self.proxies@;
        self.owners.remove(pos);
        self.proxies.remove(pos);
        proof {
            assert(self.owners@ =~= o0.remove(pos as int));
            assert(self.owners@.no_duplicates()) by {
                assert forall|i: int, j: int|
                    0 <= i < self.owners@.len() && 0 <= j < self.owners@.len() && i != j
                        implies self.owners@[i] != self.owners@[j] by {
                    let i0 = if i < pos { i } else { i + 1 };
                    let j0 = if j < pos { j } else { j + 1 };
                    assert(o0[i0] != o0[j0]);
                }
            }
            assert forall|o: u64| #[trigger] self.owners@.contains(o) == v0.remove(owner).contains_key(o) by {
                if self.owners@.contains(o) {
                    let i = self.owners@.index_of(o);
                    let i0 = if i < pos { i } else { i + 1 };
                    assert(o0[i0] == o);
                    assert(o0.contains(o));
                    if o == owner {
                        assert(o0[pos as int] == owner);
                        assert(i0 != pos);
                    }
                } else if o0.contains(o) && o != owner {
                    let j = o0.index_of(o);
                    assert(j != pos);
                    let j1 = if j < pos { j } else { j - 1 };
                    assert(self.owners@[j1] == o);
                }
            }
            assert forall|o: u64| #[trigger] self.owners@.contains(o) implies self.proxies@[self.owners@.index_of(o)]
                == v0[o] by {
                let i = self.owners@.index_of(o);
                let i0 = if i < pos { i } else { i + 1 };
                assert(o0[i0] == o);
                lemma_index_of_unique(o0, o, i0);
                assert(self.proxies@[i] == p0[i0]);
            }
            assert(self.view() =~= v0.remove(owner));
        }
    }

    /// The proxy at position `index`, if there is one.
    pub fn proxy(&self, index: usize) -> (r: Option<&P>)
        ensures
            r matches Some(p) ==> index < self.proxy_seq().len() && *p == self.proxy_seq()[index as int],
            r is None <==> index >= self.proxy_seq().len(),
    {
        if index < self.proxies.len() {
            Some(&self.proxies[index])
        } else {
            None
        }
    }

    /// Replaces the proxy of `owner` in its place when the owner has one;
    /// an owner without a proxy is left without.
    pub fn set_proxy(&mut self, owner: u64, proxy: P)
        requires
            old(self).wf(),
        ensures
            final(self).wf(),
            final(self).view() == if old(self).view().contains_key(owner) {
                old(self).view().insert(owner, proxy)
            } else {
                old(self).view()
            },
            final(self).proxy_seq() == if old(self).view().contains_key(owner) {
                old(self).proxy_seq().update(old(self).position(owner), proxy)
            } else {
                old(self).proxy_seq()
            },
    {
        if find_owner(&self.owners, owner).is_some() {
            self.add_proxy(owner, proxy);
        }
    }

    /// The number of registered proxies.
    pub fn len(&self) -> (r: usize)
        requires
            self.wf(),
        ensures
            r == self.proxy_seq().len(),
            r == self.view().len(),
    {
        proof {
            lemma_view_len(self);
        }
        self.proxies.len()
    }
}

proof fn lemma_index_of_unique(s: Seq<u64>, x: u64, i: int)
    requires
        s.no_duplicates(),
        0 <= i < s.len(),
        s[i] == x,
    ensures
        s.index_of(x) == i,
{
    assert(s.contains(x));
}

proof fn lemma_view_len<P>(r: &LightRegistry<P>)
    requires
        r.wf(),
    ensures
        r.view().len() == r.proxy_seq().len(),
{
    r.owners@.unique_seq_to_set();
    assert(r.view().dom() =~= r.owners@.to_set());
}

/// A registered proxy reads back as written: once `proxy` is registered for
/// `owner` (the state [`LightRegistry::add_proxy`] leaves), the owner has
/// `proxy` and every other owner keeps what it had; once the owner is
/// removed (the state [`LightRegistry::remove_proxy`] leaves), it has none
/// and the others keep theirs.
pub proof fn lemma_registry_read_after_write<P>(
    before: &LightRegistry<P>,
    added: &LightRegistry<P>,
    removed: &LightRegistry<P>,
    owner: u64,
    other: u64,
    proxy: P,
)
    requires
        added.view() == before.view().insert(owner, proxy),
        removed.view() == added.view().remove(owner),
        other != owner,
    ensures
        added.view().contains_key(owner) && added.view()[owner] == proxy,
        added.view().contains_key(other) == before.view().contains_key(other),
        before.view().contains_key(other) ==> added.view()[other] == before.view()[other],
        !removed.view().contains_key(owner),
        removed.view().contains_key(other) == before.view().contains_key(other),
        before.view().contains_key(other) ==> removed.view()[other] == before.view()[other],
{
}

// ---------------------------------------------------------------------------
// Per-frame light updates
// ---------------------------------------------------------------------------

/// The shadow camera a render target is set up as.
#[derive(Debug, Copy, Clone, PartialEq, Eq, Structural)]
pub enum ShadowCamera {
    /// One cube face of a point light.
    PointFace(u8),
    /// The cone of a spot light.
    Spot,
}

/// One shadow camera to set up: the render target, the light, and how.
#[derive(Debug, Copy, Clone, PartialEq, Eq, Structural)]
pub struct ShadowCameraUpdate {
    pub target: usize,
    pub light_index: usize,
    pub camera: ShadowCamera,
}

/// The shadow cameras for the first `n` pairs of render target and
/// assignment: an assignment whose light is missing or has an unknown
/// type is passed over, a sun needs no camera.
pub open spec fn shadow_camera_steps(assignments: Seq<ShadowAssignment>, light_types: Seq<u32>, n: nat) -> Seq<
    ShadowCameraUpdate,
>
    decreases n,
{
    if n == 0 || n > assignments.len() {
        seq![]
    } else {
        let prev = shadow_camera_steps(assignments, light_types, (n - 1) as nat);
        let a = assignments[n - 1];
        if a.light_index >= light_types.len() {
            prev
        } else {
            match light_type_of(light_types[a.light_index as int]) {
                Some(LightType::Point) => prev.push(
                    ShadowCameraUpdate {
                        target: (n - 1) as usize,
                        light_index: a.light_index,
                        camera: ShadowCamera::PointFace(a.face),
                    },
                ),
                Some(LightType::Spot) => prev.push(
                    ShadowCameraUpdate { target: (n - 1) as usize, light_index: a.light_index, camera: ShadowCamera::Spot },
                ),
                _ => prev,
            }
        }
    }
}

/// The shadow cameras of a frame: render target `k` renders assignment
/// `k`, as far as there are both (see [`shadow_camera_steps`]).
pub fn plan_shadow_cameras(render_targets: usize, assignments: &Vec<ShadowAssignment>, light_types: &Vec<u32>) -> (r:
    Vec<ShadowCameraUpdate>)
    ensures
        r@ == shadow_camera_steps(
            assignments@,
            light_types@,
            if render_targets < assignments@.len() {
                render_targets as nat
            } else {
                assignments@.len()
            },
        ),
{
    let n = if render_targets < assignments.len() {
        render_targets
    } else {
        assignments.len()
    };
    let mut out: Vec<ShadowCameraUpdate> = Vec::new();
    let mut k: usize = 0;
    while k < n
        invariant
            k <= n <= assignments.len(),
            out@ == shadow_camera_steps(assignments@, light_types@, k as nat),
        decreases n - k,
    {
        let a = assignments[k];
        if a.light_index < light_types.len() {
            match LightType::from_raw(light_types[a.light_index]) {
                Some(LightType::Point) => {
                    out.push(ShadowCameraUpdate { target: k, light_index: a.light_index, camera: ShadowCamera::PointFace(a.face) });
                },
                Some(LightType::Spot) => {
                    out.push(ShadowCameraUpdate { target: k, light_index: a.light_index, camera: ShadowCamera::Spot });
                },
                _ => {},
            }
        }
        k += 1;
    }
    out
}

/// Lights uploaded to the GPU: all proxies, or one placeholder light when
/// there are none, so the light buffer is never empty.
pub fn uploaded_light_count(proxies: usize) -> (r: usize)
    ensures
        r == if proxies == 0 {
            1
        } else {
            proxies
        },
{
    if proxies == 0 {
        1
    } else {
        proxies
    }
}

/// Whether the light buffer must be rebuilt to hold `count` lights of
/// `light_size` bytes: they do not fit into its `buffer_size` bytes.
pub fn light_buffer_too_small(count: usize, light_size: usize, buffer_size: u64) -> (r: bool)
    ensures
        r == (count * light_size > buffer_size),
{
    let c = count as u128;
    let l = light_size as u128;
    assert(c * l <= 0xffff_ffff_ffff_ffffu128 * 0xffff_ffff_ffff_ffffu128) by (nonlinear_arith)
        requires
            c <= 0xffff_ffff_ffff_ffffu128,
            l <= 0xffff_ffff_ffff_ffffu128,
    ;
    c * l > buffer_size as u128
}

/// The debug draws of the first `n` lights: each light's index and the
/// instances of its gizmo (six for a point light, nine for a sun or a
/// spot); lights of unknown type are passed over.
pub open spec fn debug_light_steps(types: Seq<u32>, n: nat) -> Seq<(u32, u32)>
    decreases n,
{
    if n == 0 || n > types.len() {
        seq![]
    } else {
        let prev = debug_light_steps(types, (n - 1) as nat);
        match light_type_of(types[n - 1]) {
            Some(LightType::Point) => prev.push(((n - 1) as u32, 6u32)),
            Some(_) => prev.push(((n - 1) as u32, 9u32)),
            None => prev,
        }
    }
}

/// The debug gizmo draws of the lights (see [`debug_light_steps`]).
pub fn plan_debug_lights(types: &Vec<u32>) -> (r: Vec<(u32, u32)>)
    ensures
        r@ == debug_light_steps(types@, types@.len()),
{
    let mut out: Vec<(u32, u32)> = Vec::new();
    let mut i: usize = 0;
    while i < types.len()
        invariant
            i <= types.len(),
            out@ == debug_light_steps(types@, i as nat),
        decreases types.len() - i,
    {
        match LightType::from_raw(types[i]) {
            Some(LightType::Point) => out.push((i as u32, 6)),
            Some(_) => out.push((i as u32, 9)),
            None => {},
        }
        i += 1;
    }
    out
}

} // verus!
