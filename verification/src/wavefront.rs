//! The ray queues of the wavefront backend and the protocol that runs on
//! them.
//!
//! A frame starts with one primary ray per pixel. Each stage shades every ray
//! of the current queue: a ray either ends its path with one write to its
//! pixel, or scatters and takes the next free slot of the other queue. Then
//! the queues change roles. The payload type `V` of rays and contributions
//! belongs to the host; the protocol only moves it.

use vstd::prelude::*;

verus! {

/// What a ray carries besides its bookkeeping.
#[derive(Clone, Copy, Debug)]
pub struct Payload<V> {
    pub origin: V,
    pub direction: V,
    pub throughput: V,
}

/// A ray in flight.
#[derive(Clone, Copy, Debug)]
pub struct Ray<V> {
    pub payload: Payload<V>,
    /// The pixel that the ray's path started from.
    pub pixel_index: u32,
    /// Number of bounces behind the ray.
    pub depth: u32,
}

/// What a shading kernel makes of one ray.
#[derive(Clone, Copy, Debug)]
pub enum Shaded<V> {
    /// The path ends and adds `contribution` to its pixel.
    Terminated { contribution: V },
    /// The path goes on with a new ray.
    Scattered { payload: Payload<V> },
}

/// The one write that ends a path.
#[derive(Clone, Copy, Debug)]
pub struct TerminalWrite<V> {
    pub pixel_index: u32,
    pub contribution: V,
}

/// The ray that follows `ray` after it scattered into `payload`.
pub open spec fn bounced<V>(ray: Ray<V>, payload: Payload<V>) -> Ray<V> {
    Ray {
        payload,
        pixel_index: ray.pixel_index,
        depth: if ray.depth < u32::MAX {
            (ray.depth + 1) as u32
        } else {
            u32::MAX
        },
    }
}

/// The rays that a stage passes on: those of `rays` whose outcome is
/// `Scattered`, in the order of `rays`, one bounce deeper. The ray at index
/// `i` of the result sits in slot `i` of the next queue.
pub open spec fn survivors<V>(rays: Seq<Ray<V>>, outcomes: Seq<Shaded<V>>) -> Seq<Ray<V>>
    recommends
        rays.len() == outcomes.len(),
    decreases rays.len(),
{
    if rays.len() == 0 {
        Seq::empty()
    } else {
        let earlier = survivors(rays.drop_last(), outcomes.drop_last());
        match outcomes.last() {
            Shaded::Terminated { .. } => earlier,
            Shaded::Scattered { payload } => earlier.push(bounced(rays.last(), payload)),
        }
    }
}

/// The writes that a stage makes: one for each ray of `rays` whose outcome is
/// `Terminated`, in the order of `rays`.
pub open spec fn terminal_writes<V>(rays: Seq<Ray<V>>, outcomes: Seq<Shaded<V>>) -> Seq<
    TerminalWrite<V>,
>
    recommends
        rays.len() == outcomes.len(),
    decreases rays.len(),
{
    if rays.len() == 0 {
        Seq::empty()
    } else {
        let earlier = terminal_writes(rays.drop_last(), outcomes.drop_last());
        match outcomes.last() {
            Shaded::Terminated { contribution } => earlier.push(
                TerminalWrite { pixel_index: rays.last().pixel_index, contribution },
            ),
            Shaded::Scattered { .. } => earlier,
        }
    }
}

/// How many of `rays` belong to `pixel`.
pub open spec fn rays_of<V>(rays: Seq<Ray<V>>, pixel: u32) -> nat
    decreases rays.len(),
{
    if rays.len() == 0 {
        0
    } else {
        rays_of(rays.drop_last(), pixel) + if rays.last().pixel_index == pixel {
            1nat
        } else {
            0nat
        }
    }
}

/// How many of `writes` go to `pixel`.
pub open spec fn writes_to<V>(writes: Seq<TerminalWrite<V>>, pixel: u32) -> nat
    decreases writes.len(),
{
    if writes.len() == 0 {
        0
    } else {
        writes_to(writes.drop_last(), pixel) + if writes.last().pixel_index == pixel {
            1nat
        } else {
            0nat
        }
    }
}

/// Every pixel below `count` gets exactly one of `writes`, and no other
/// pixel gets any.
pub open spec fn one_write_per_pixel<V>(writes: Seq<TerminalWrite<V>>, count: nat) -> bool {
    forall|pixel: u32|
        #[trigger] writes_to(writes, pixel) == if pixel < count {
            1nat
        } else {
            0nat
        }
}

/// `rays` is one primary ray per pixel below `count`, in pixel order, each
/// with a payload that `primary` made for its pixel.
pub open spec fn is_primary<V, G: Fn(u32) -> Payload<V>>(
    rays: Seq<Ray<V>>,
    count: nat,
    primary: G,
) -> bool {
    &&& rays.len() == count
    &&& forall|i: int|
        0 <= i < count ==> {
            &&& (#[trigger] rays[i]).pixel_index == i
            &&& rays[i].depth == 0
            &&& call_ensures(primary, (i as u32,), rays[i].payload)
        }
}

/// Every ray of `rays` has `depth` bounces behind it.
pub open spec fn all_at_depth<V>(rays: Seq<Ray<V>>, depth: u32) -> bool {
    forall|i: int| 0 <= i < rays.len() ==> (#[trigger] rays[i]).depth == depth
}

/// The bounce limit that a frame runs with: at least one stage is always
/// shaded, so that every primary ray can end its path.
pub open spec fn stage_limit(max_depth: u32) -> u32 {
    if max_depth == 0 {
        1
    } else {
        max_depth
    }
}

/// The ray one bounce before `ray` on its path, if it had `payload`.
pub open spec fn before<V>(ray: Ray<V>, payload: Payload<V>) -> Ray<V> {
    Ray { payload, pixel_index: ray.pixel_index, depth: (ray.depth - 1) as u32 }
}

/// `ray` can come up in a frame with bounce limit `limit`: it is the primary
/// ray that `primary` made for its pixel, or `shade` scattered a ray that can
/// come up into it, short of the limit.
pub open spec fn reachable<V, G: Fn(u32) -> Payload<V>, F: Fn(Ray<V>) -> Shaded<V>>(
    primary: G,
    shade: F,
    limit: u32,
    ray: Ray<V>,
) -> bool
    decreases ray.depth,
{
    if ray.depth == 0 {
        call_ensures(primary, (ray.pixel_index,), ray.payload)
    } else {
        &&& ray.depth < limit
        &&& exists|payload: Payload<V>| #[trigger]
            call_ensures(
                shade,
                (before(ray, payload),),
                Shaded::Scattered { payload: ray.payload },
            ) && reachable(primary, shade, limit, before(ray, payload))
    }
}

/// `outcome` is what a stage makes of `ray`: in the stage that reaches the
/// bounce limit (`last`) the path ends with what `finish` returns, before
/// that `shade` decides.
pub open spec fn shaded_by<V, F: Fn(Ray<V>) -> Shaded<V>, H: Fn(Ray<V>) -> V>(
    shade: F,
    finish: H,
    last: bool,
    ray: Ray<V>,
    outcome: Shaded<V>,
) -> bool {
    if last {
        outcome matches Shaded::Terminated { contribution } && call_ensures(
            finish,
            (ray,),
            contribution,
        )
    } else {
        call_ensures(shade, (ray,), outcome)
    }
}

/// `write` ends the path of its pixel: it comes from `ray`, which can come up
/// in the frame and belongs to the pixel.
pub open spec fn ends_path_at<
    V,
    G: Fn(u32) -> Payload<V>,
    F: Fn(Ray<V>) -> Shaded<V>,
    H: Fn(Ray<V>) -> V,
>(primary: G, shade: F, finish: H, limit: u32, write: TerminalWrite<V>, ray: Ray<V>) -> bool {
    &&& ray.pixel_index == write.pixel_index
    &&& reachable(primary, shade, limit, ray)
    &&& shaded_by(
        shade,
        finish,
        ray.depth + 1 >= limit,
        ray,
        Shaded::Terminated { contribution: write.contribution },
    )
}

/// `write` ends the path of its pixel.
pub open spec fn ends_path<
    V,
    G: Fn(u32) -> Payload<V>,
    F: Fn(Ray<V>) -> Shaded<V>,
    H: Fn(Ray<V>) -> V,
>(primary: G, shade: F, finish: H, limit: u32, write: TerminalWrite<V>) -> bool {
    exists|ray: Ray<V>| ends_path_at(primary, shade, finish, limit, write, ray)
}

/// Conservation within a stage: every ray either moves on or ends with one
/// write, so none is dropped and none ends twice. This holds of the total and
/// of each pixel by itself.
pub proof fn lemma_stage_conserves<V>(rays: Seq<Ray<V>>, outcomes: Seq<Shaded<V>>, pixel: u32)
    requires
        rays.len() == outcomes.len(),
    ensures
        survivors(rays, outcomes).len() + terminal_writes(rays, outcomes).len() == rays.len(),
        rays_of(survivors(rays, outcomes), pixel) + writes_to(
            terminal_writes(rays, outcomes),
            pixel,
        ) == rays_of(rays, pixel),
    decreases rays.len(),
{
    if rays.len() > 0 {
        lemma_stage_conserves(rays.drop_last(), outcomes.drop_last(), pixel);
        let earlier_rays = survivors(rays.drop_last(), outcomes.drop_last());
        let earlier_writes = terminal_writes(rays.drop_last(), outcomes.drop_last());
        match outcomes.last() {
            Shaded::Terminated { contribution } => {
                let write = TerminalWrite { pixel_index: rays.last().pixel_index, contribution };
                assert(earlier_writes.push(write).drop_last() =~= earlier_writes);
            },
            Shaded::Scattered { payload } => {
                let ray = bounced(rays.last(), payload);
                assert(earlier_rays.push(ray).drop_last() =~= earlier_rays);
            },
        }
    }
}

/// Writes made one batch after the other count together.
proof fn lemma_writes_add_up<V>(
    earlier: Seq<TerminalWrite<V>>,
    later: Seq<TerminalWrite<V>>,
    pixel: u32,
)
    ensures
        writes_to(earlier + later, pixel) == writes_to(earlier, pixel) + writes_to(later, pixel),
    decreases later.len(),
{
    if later.len() == 0 {
        assert(earlier + later =~= earlier);
    } else {
        lemma_writes_add_up(earlier, later.drop_last(), pixel);
        assert((earlier + later).drop_last() =~= earlier + later.drop_last());
        assert((earlier + later).last() == later.last());
    }
}

/// Rays that stand in pixel order, one per pixel, are one ray for each pixel
/// below their number and none for any other.
proof fn lemma_one_ray_per_pixel<V>(rays: Seq<Ray<V>>, pixel: u32)
    requires
        forall|i: int| 0 <= i < rays.len() ==> (#[trigger] rays[i]).pixel_index == i,
    ensures
        rays_of(rays, pixel) == if pixel < rays.len() {
            1nat
        } else {
            0nat
        },
    decreases rays.len(),
{
    if rays.len() > 0 {
        let earlier = rays.drop_last();
        assert forall|i: int| 0 <= i < earlier.len() implies (#[trigger] earlier[i]).pixel_index
            == i by {
            assert(earlier[i] == rays[i]);
        }
        lemma_one_ray_per_pixel(earlier, pixel);
    }
}

/// A stage in which every path ends passes no ray on.
proof fn lemma_final_stage_drains<V>(rays: Seq<Ray<V>>, outcomes: Seq<Shaded<V>>)
    requires
        rays.len() == outcomes.len(),
        forall|i: int| 0 <= i < outcomes.len() ==> #[trigger] outcomes[i] is Terminated,
    ensures
        survivors(rays, outcomes).len() == 0,
    decreases rays.len(),
{
    if rays.len() > 0 {
        let earlier = outcomes.drop_last();
        assert forall|i: int| 0 <= i < earlier.len() implies #[trigger] earlier[i]
            is Terminated by {
            assert(earlier[i] == outcomes[i]);
        }
        lemma_final_stage_drains(rays.drop_last(), earlier);
        assert(outcomes.last() == outcomes[outcomes.len() - 1]);
    }
}

/// The survivors of a stage are all one bounce deeper than its rays.
proof fn lemma_survivors_one_deeper<V>(
    rays: Seq<Ray<V>>,
    outcomes: Seq<Shaded<V>>,
    depth: u32,
)
    requires
        rays.len() == outcomes.len(),
        all_at_depth(rays, depth),
        depth < u32::MAX,
    ensures
        all_at_depth(survivors(rays, outcomes), (depth + 1) as u32),
    decreases rays.len(),
{
    if rays.len() > 0 {
        let earlier = rays.drop_last();
        assert forall|i: int| 0 <= i < earlier.len() implies (#[trigger] earlier[i]).depth
            == depth by {
            assert(earlier[i] == rays[i]);
        }
        lemma_survivors_one_deeper(earlier, outcomes.drop_last(), depth);
        assert(rays.last() == rays[rays.len() - 1]);
    }
}

/// What a stage at depth `depth` makes of rays that can come up in the frame:
/// its survivors can come up too, and its writes end paths.
proof fn lemma_stage_follows_paths<
    V,
    G: Fn(u32) -> Payload<V>,
    F: Fn(Ray<V>) -> Shaded<V>,
    H: Fn(Ray<V>) -> V,
>(
    primary: G,
    shade: F,
    finish: H,
    limit: u32,
    depth: u32,
    rays: Seq<Ray<V>>,
    outcomes: Seq<Shaded<V>>,
)
    requires
        rays.len() == outcomes.len(),
        depth < limit,
        all_at_depth(rays, depth),
        forall|i: int| 0 <= i < rays.len() ==> reachable(primary, shade, limit, #[trigger] rays[i]),
        forall|i: int|
            0 <= i < rays.len() ==> shaded_by(
                shade,
                finish,
                depth + 1 >= limit,
                #[trigger] rays[i],
                outcomes[i],
            ),
    ensures
        forall|j: int|
            0 <= j < survivors(rays, outcomes).len() ==> reachable(
                primary,
                shade,
                limit,
                #[trigger] survivors(rays, outcomes)[j],
            ),
        forall|k: int|
            0 <= k < terminal_writes(rays, outcomes).len() ==> ends_path(
                primary,
                shade,
                finish,
                limit,
                #[trigger] terminal_writes(rays, outcomes)[k],
            ),
    decreases rays.len(),
{
    if rays.len() > 0 {
        let earlier_rays = rays.drop_last();
        let earlier_outcomes = outcomes.drop_last();
        assert forall|i: int| 0 <= i < earlier_rays.len() implies {
            &&& (#[trigger] earlier_rays[i]).depth == depth
            &&& reachable(primary, shade, limit, earlier_rays[i])
            &&& shaded_by(shade, finish, depth + 1 >= limit, earlier_rays[i], earlier_outcomes[i])
        } by {
            assert(earlier_rays[i] == rays[i]);
            assert(earlier_outcomes[i] == outcomes[i]);
        }
        lemma_stage_follows_paths(
            primary,
            shade,
            finish,
            limit,
            depth,
            earlier_rays,
            earlier_outcomes,
        );
        let ray = rays[rays.len() - 1];
        let outcome = outcomes[outcomes.len() - 1];
        assert(ray == rays.last() && outcome == outcomes.last());
        assert(shaded_by(shade, finish, depth + 1 >= limit, ray, outcome));
        let passed = survivors(rays, outcomes);
        let written = terminal_writes(rays, outcomes);
        let earlier_passed = survivors(earlier_rays, earlier_outcomes);
        let earlier_written = terminal_writes(earlier_rays, earlier_outcomes);
        match outcome {
            Shaded::Terminated { contribution } => {
                let write = TerminalWrite { pixel_index: ray.pixel_index, contribution };
                assert(ends_path_at(primary, shade, finish, limit, write, ray));
                assert(passed == earlier_passed);
                assert(written == earlier_written.push(write));
            },
            Shaded::Scattered { payload } => {
                let next = bounced(ray, payload);
                assert(before(next, ray.payload) == ray);
                assert(call_ensures(
                    shade,
                    (before(next, ray.payload),),
                    Shaded::Scattered { payload: next.payload },
                ));
                assert(reachable(primary, shade, limit, next));
                assert(passed == earlier_passed.push(next));
                assert(written == earlier_written);
            },
        }
        assert forall|j: int| 0 <= j < passed.len() implies reachable(
            primary,
            shade,
            limit,
            #[trigger] passed[j],
        ) by {
            if j < earlier_passed.len() {
                assert(passed[j] == earlier_passed[j]);
            }
        }
        assert forall|k: int| 0 <= k < written.len() implies ends_path(
            primary,
            shade,
            finish,
            limit,
            #[trigger] written[k],
        ) by {
            if k < earlier_written.len() {
                assert(written[k] == earlier_written[k]);
            }
        }
    }
}

/// One queue of rays, laid out attribute by attribute: the part of each of
/// the five arrays below `count` is live, the rest is free.
pub struct RayBuffer<V> {
    origin: Vec<V>,
    direction: Vec<V>,
    throughput: Vec<V>,
    pixel_index: Vec<u32>,
    depth: Vec<u32>,
    count: u32,
}

impl<V> View for RayBuffer<V> {
    type V = Seq<Ray<V>>;

    /// The live rays, by slot.
    closed spec fn view(&self) -> Seq<Ray<V>> {
        Seq::new(
            self.count as nat,
            |i: int|
                Ray {
                    payload: Payload {
                        origin: self.origin[i],
                        direction: self.direction[i],
                        throughput: self.throughput[i],
                    },
                    pixel_index: self.pixel_index[i],
                    depth: self.depth[i],
                },
        )
    }
}

impl<V> RayBuffer<V> {
    /// The five arrays have one length, which fits the counter, and the
    /// counter stays within it.
    #[verifier::type_invariant]
    spec fn inv(self) -> bool {
        &&& self.origin.len() <= u32::MAX
        &&& self.direction.len() == self.origin.len()
        &&& self.throughput.len() == self.origin.len()
        &&& self.pixel_index.len() == self.origin.len()
        &&& self.depth.len() == self.origin.len()
        &&& self.count <= self.origin.len()
    }

    /// Number of slots.
    pub closed spec fn slots(self) -> nat {
        self.origin.len() as nat
    }
}

impl<V: Copy> RayBuffer<V> {
    /// An empty buffer of `capacity` slots. `fill` is what the free slots
    /// hold; it is never read as a ray.
    pub fn new(capacity: u32, fill: V) -> (buffer: Self)
        ensures
            buffer@.len() == 0,
            buffer.slots() == capacity,
    {
        RayBuffer {
            origin: vec![fill; capacity as usize],
            direction: vec![fill; capacity as usize],
            throughput: vec![fill; capacity as usize],
            pixel_index: vec![0u32; capacity as usize],
            depth: vec![0u32; capacity as usize],
            count: 0,
        }
    }

    /// Number of slots.
    pub fn capacity(&self) -> (capacity: u32)
        ensures
            capacity == self.slots(),
    {
        proof {
            use_type_invariant(self);
        }
        self.origin.len() as u32
    }

    /// Number of live rays; never more than there are slots.
    pub fn count(&self) -> (count: u32)
        ensures
            count == self@.len(),
            count <= self.slots(),
    {
        proof {
            use_type_invariant(self);
        }
        self.count
    }

    /// The ray in slot `slot`.
    pub fn get(&self, slot: u32) -> (ray: Ray<V>)
        requires
            slot < self@.len(),
        ensures
            ray == self@[slot as int],
    {
        proof {
            use_type_invariant(self);
        }
        let i = slot as usize;
        Ray {
            payload: Payload {
                origin: self.origin[i],
                direction: self.direction[i],
                throughput: self.throughput[i],
            },
            pixel_index: self.pixel_index[i],
            depth: self.depth[i],
        }
    }

    /// Appends `ray` and returns its slot, which is the count before the
    /// call. A full buffer is left as it is.
    pub fn push(&mut self, ray: Ray<V>) -> (slot: Option<u32>)
        ensures
            final(self).slots() == old(self).slots(),
            old(self)@.len() < old(self).slots() ==> slot == Some(old(self)@.len() as u32)
                && final(self)@ == old(self)@.push(ray),
            old(self)@.len() >= old(self).slots() ==> slot is None && final(self)@ == old(self)@,
        no_unwind
    {
        proof {
            use_type_invariant(&*self);
        }
        let slot = self.count;
        let i = slot as usize;
        if i >= self.origin.len() {
            return None;
        }
        self.origin[i] = ray.payload.origin;
        self.direction[i] = ray.payload.direction;
        self.throughput[i] = ray.payload.throughput;
        self.pixel_index[i] = ray.pixel_index;
        self.depth[i] = ray.depth;
        self.count = slot + 1;
        assert(self@ =~= old(self)@.push(ray));
        Some(slot)
    }

    /// Frees every slot.
    pub fn clear(&mut self)
        ensures
            final(self)@.len() == 0,
            final(self).slots() == old(self).slots(),
        no_unwind
    {
        proof {
            use_type_invariant(&*self);
        }
        self.count = 0;
    }
}

/// The pair of ray queues of the wavefront backend. Between two stages only
/// the current queue holds rays; they are the view.
pub struct RayQueue<V> {
    current: RayBuffer<V>,
    next: RayBuffer<V>,
}

impl<V> View for RayQueue<V> {
    type V = Seq<Ray<V>>;

    closed spec fn view(&self) -> Seq<Ray<V>> {
        self.current@
    }
}

/// What one frame of the wavefront protocol did.
pub struct Traced<V> {
    /// The terminal writes, in the order in which they were made.
    pub writes: Vec<TerminalWrite<V>>,
    /// Number of shading stages that ran.
    pub stages: u32,
}

impl<V> RayQueue<V> {
    /// Both queues have the same number of slots.
    #[verifier::type_invariant]
    spec fn inv(self) -> bool {
        self.current.slots() == self.next.slots()
    }

    /// Number of rays that each of the two queues can hold.
    pub closed spec fn slots(self) -> nat {
        self.current.slots()
    }
}

impl<V: Copy> RayQueue<V> {
    /// A pair of empty queues of `capacity` slots each. `fill` is what free
    /// slots hold; it is never read as a ray.
    pub fn new(capacity: u32, fill: V) -> (queue: Self)
        ensures
            queue@.len() == 0,
            queue.slots() == capacity,
    {
        RayQueue { current: RayBuffer::new(capacity, fill), next: RayBuffer::new(capacity, fill) }
    }

    /// Number of rays that each of the two queues can hold.
    pub fn capacity(&self) -> (capacity: u32)
        ensures
            capacity == self.slots(),
    {
        self.current.capacity()
    }

    /// Number of rays in the current queue.
    pub fn current_count(&self) -> (count: u32)
        ensures
            count == self@.len(),
            count <= self.slots(),
    {
        self.current.count()
    }

    /// The ray in slot `slot` of the current queue.
    pub fn ray(&self, slot: u32) -> (ray: Ray<V>)
        requires
            slot < self@.len(),
        ensures
            ray == self@[slot as int],
    {
        self.current.get(slot)
    }

    /// Starts a frame: puts one primary ray for each of the `width * height`
    /// pixels into the current queue, in pixel order, and reports whether
    /// they fit. If they do not, the queue is left as it is.
    pub fn generate<G: Fn(u32) -> Payload<V>>(
        &mut self,
        width: u32,
        height: u32,
        primary: G,
    ) -> (fits: bool)
        requires
            forall|pixel: u32| call_requires(primary, (pixel,)),
        ensures
            fits == (width * height <= old(self).slots()),
            final(self).slots() == old(self).slots(),
            fits ==> is_primary(final(self)@, (width * height) as nat, primary),
            !fits ==> final(self)@ == old(self)@,
    {
        proof {
            use_type_invariant(&*self);
            assert(width * height <= 0xffff_ffff * 0xffff_ffff) by (nonlinear_arith)
                requires
                    width <= 0xffff_ffff,
                    height <= 0xffff_ffff,
            ;
        }
        let pixels: u64 = width as u64 * height as u64;
        if pixels > self.current.capacity() as u64 {
            return false;
        }
        let count = pixels as u32;
        self.current.clear();
        let mut pixel: u32 = 0;
        while pixel < count
            invariant
                pixel <= count,
                count <= self.current.slots(),
                self.current.slots() == old(self).slots(),
                self.next.slots() == self.current.slots(),
                forall|pixel: u32| call_requires(primary, (pixel,)),
                is_primary(self.current@, pixel as nat, primary),
            decreases count - pixel,
        {
            let payload = primary(pixel);
            let slot = self.current.push(Ray { payload, pixel_index: pixel, depth: 0 });
            pixel += 1;
        }
        true
    }

    /// Runs one shading stage with the given outcome for each ray of the
    /// current queue, and returns the stage's terminal writes.
    ///
    /// A ray that scattered takes the next free slot of the other queue, in
    /// the order in which the rays are shaded; then the queues change roles,
    /// so that the survivors are the current queue of the next stage.
    pub fn stage(&mut self, outcomes: &Vec<Shaded<V>>) -> (writes: Vec<TerminalWrite<V>>)
        requires
            outcomes@.len() == old(self)@.len(),
        ensures
            final(self)@ == survivors(old(self)@, outcomes@),
            writes@ == terminal_writes(old(self)@, outcomes@),
            final(self).slots() == old(self).slots(),
    {
        proof {
            use_type_invariant(&*self);
        }
        let count = self.current.count();
        let mut writes: Vec<TerminalWrite<V>> = Vec::new();
        self.next.clear();
        let mut slot: u32 = 0;
        while slot < count
            invariant
                slot <= count,
                count == self.current@.len(),
                count <= self.current.slots(),
                count == outcomes@.len(),
                self.current@ == old(self)@,
                self.current.slots() == old(self).slots(),
                self.next.slots() == self.current.slots(),
                self.next@ == survivors(old(self)@.take(slot as int), outcomes@.take(slot as int)),
                writes@ == terminal_writes(
                    old(self)@.take(slot as int),
                    outcomes@.take(slot as int),
                ),
                self.next@.len() <= slot,
            decreases count - slot,
        {
            let ray = self.current.get(slot);
            proof {
                let done_rays = old(self)@.take(slot + 1);
                let done_outcomes = outcomes@.take(slot + 1);
                assert(done_rays.drop_last() =~= old(self)@.take(slot as int));
                assert(done_outcomes.drop_last() =~= outcomes@.take(slot as int));
                assert(done_rays.last() == ray);
                assert(done_outcomes.last() == outcomes@[slot as int]);
            }
            match outcomes[slot as usize] {
                Shaded::Terminated { contribution } => {
                    writes.push(TerminalWrite { pixel_index: ray.pixel_index, contribution });
                },
                Shaded::Scattered { payload } => {
                    let depth = if ray.depth < u32::MAX {
                        ray.depth + 1
                    } else {
                        u32::MAX
                    };
                    let next = Ray { payload, pixel_index: ray.pixel_index, depth };
                    let taken = self.next.push(next);
                },
            }
            slot += 1;
        }
        proof {
            assert(old(self)@.take(count as int) =~= old(self)@);
            assert(outcomes@.take(count as int) =~= outcomes@);
        }
        core::mem::swap(&mut self.current, &mut self.next);
        writes
    }

    /// The outcomes of one stage: `finish` ends every path if the stage is
    /// the last one, else `shade` decides for each ray.
    fn shade_all<F: Fn(Ray<V>) -> Shaded<V>, H: Fn(Ray<V>) -> V>(
        &self,
        last: bool,
        shade: &F,
        finish: &H,
    ) -> (outcomes: Vec<Shaded<V>>)
        requires
            forall|ray: Ray<V>| call_requires(*shade, (ray,)),
            forall|ray: Ray<V>| call_requires(*finish, (ray,)),
        ensures
            outcomes@.len() == self@.len(),
            forall|i: int|
                0 <= i < outcomes@.len() ==> shaded_by(
                    *shade,
                    *finish,
                    last,
                    self@[i],
                    #[trigger] outcomes@[i],
                ),
    {
        let count = self.current_count();
        let mut outcomes: Vec<Shaded<V>> = Vec::new();
        let mut slot: u32 = 0;
        while slot < count
            invariant
                slot <= count,
                count == self@.len(),
                outcomes@.len() == slot,
                forall|ray: Ray<V>| call_requires(*shade, (ray,)),
                forall|ray: Ray<V>| call_requires(*finish, (ray,)),
                forall|i: int|
                    0 <= i < outcomes@.len() ==> shaded_by(
                        *shade,
                        *finish,
                        last,
                        self@[i],
                        #[trigger] outcomes@[i],
                    ),
            decreases count - slot,
        {
            let ray = self.ray(slot);
            let outcome = if last {
                Shaded::Terminated { contribution: finish(ray) }
            } else {
                shade(ray)
            };
            outcomes.push(outcome);
            slot += 1;
        }
        outcomes
    }

    /// Traces one frame of `width * height` pixels, unless that many rays do
    /// not fit a queue; then nothing happens.
    ///
    /// `primary` makes the payload of a pixel's primary ray. Stages are run
    /// until no ray is left. `shade` decides what becomes of a ray, except in
    /// the stage that reaches the bounce limit: there `finish` gives the
    /// contribution with which the ray's path ends. A limit of 0 counts as 1.
    ///
    /// Whatever the three functions return, every pixel receives exactly one
    /// terminal write, and each write ends a path that started at its pixel.
    pub fn trace<G: Fn(u32) -> Payload<V>, F: Fn(Ray<V>) -> Shaded<V>, H: Fn(Ray<V>) -> V>(
        &mut self,
        width: u32,
        height: u32,
        max_depth: u32,
        primary: G,
        shade: F,
        finish: H,
    ) -> (traced: Option<Traced<V>>)
        requires
            forall|pixel: u32| call_requires(primary, (pixel,)),
            forall|ray: Ray<V>| call_requires(shade, (ray,)),
            forall|ray: Ray<V>| call_requires(finish, (ray,)),
        ensures
            traced is Some <==> width * height <= old(self).slots(),
            traced is None ==> final(self)@ == old(self)@,
            traced matches Some(frame) ==> {
                &&& final(self)@.len() == 0
                &&& frame.writes@.len() == width * height
                &&& one_write_per_pixel(frame.writes@, (width * height) as nat)
                &&& forall|k: int|
                    0 <= k < frame.writes@.len() ==> ends_path(
                        primary,
                        shade,
                        finish,
                        stage_limit(max_depth),
                        #[trigger] frame.writes@[k],
                    )
                &&& frame.stages <= stage_limit(max_depth)
                &&& frame.stages == 0 <==> width * height == 0
            },
            final(self).slots() == old(self).slots(),
    {
        if !self.generate(width, height, primary) {
            return None;
        }
        let limit = if max_depth == 0 {
            1
        } else {
            max_depth
        };
        let ghost pixels = (width * height) as nat;
        let mut writes: Vec<TerminalWrite<V>> = Vec::new();
        let mut stages: u32 = 0;
        proof {
            assert forall|pixel: u32| #[trigger]
                writes_to(writes@, pixel) + rays_of(self@, pixel) == if pixel < pixels {
                    1nat
                } else {
                    0nat
                } by {
                lemma_one_ray_per_pixel(self@, pixel);
            }
        }
        while self.current_count() > 0
            invariant
                limit == stage_limit(max_depth),
                stages <= limit,
                self@.len() > 0 ==> stages < limit,
                stages == 0 ==> self@.len() == pixels,
                stages > 0 ==> pixels > 0,
                all_at_depth(self@, stages),
                writes@.len() + self@.len() == pixels,
                forall|pixel: u32| #[trigger]
                    writes_to(writes@, pixel) + rays_of(self@, pixel) == if pixel < pixels {
                        1nat
                    } else {
                        0nat
                    },
                forall|i: int|
                    0 <= i < self@.len() ==> reachable(primary, shade, limit, #[trigger] self@[i]),
                forall|k: int|
                    0 <= k < writes@.len() ==> ends_path(
                        primary,
                        shade,
                        finish,
                        limit,
                        #[trigger] writes@[k],
                    ),
                self.slots() == old(self).slots(),
                forall|ray: Ray<V>| call_requires(shade, (ray,)),
                forall|ray: Ray<V>| call_requires(finish, (ray,)),
            decreases limit - stages,
        {
            let last = stages + 1 >= limit;
            let outcomes = self.shade_all(last, &shade, &finish);
            let ghost rays = self@;
            let ghost earlier = writes@;
            let mut stage_writes = self.stage(&outcomes);
            proof {
                lemma_survivors_one_deeper(rays, outcomes@, stages);
                lemma_stage_follows_paths(primary, shade, finish, limit, stages, rays, outcomes@);
                if last {
                    lemma_final_stage_drains(rays, outcomes@);
                }
                lemma_stage_conserves(rays, outcomes@, 0);
                assert forall|pixel: u32| #[trigger]
                    writes_to(earlier + stage_writes@, pixel) + rays_of(self@, pixel) == if pixel
                        < pixels {
                        1nat
                    } else {
                        0nat
                    } by {
                    lemma_stage_conserves(rays, outcomes@, pixel);
                    lemma_writes_add_up(earlier, stage_writes@, pixel);
                    assert(writes_to(earlier, pixel) + rays_of(rays, pixel) == if pixel < pixels {
                        1nat
                    } else {
                        0nat
                    });
                }
            }
            writes.append(&mut stage_writes);
            stages += 1;
        }
        proof {
            assert forall|pixel: u32| #[trigger]
                writes_to(writes@, pixel) == if pixel < pixels {
                    1nat
                } else {
                    0nat
                } by {
                assert(writes_to(writes@, pixel) + rays_of(self@, pixel) == if pixel < pixels {
                    1nat
                } else {
                    0nat
                });
            }
        }
        Some(Traced { writes, stages })
    }
}

} // verus!
