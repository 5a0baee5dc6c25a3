//! Ping-pong images and the bind groups that read one and write the other,
//! selected each frame by its parity.
use vstd::prelude::*;
use crate::image::{
    fill_texels, filled_texels, storage_image, storage_image_spec, WINDOW_HEIGHT, WINDOW_WIDTH, ExtractedImages, ImageHandle, ImageSlot, ImageStore,
    ImageView,
};
use crate::layout::TextureFormat;

verus! {

/// Two images with identical descriptors used as alternating read and write
/// targets. The two handles differ.
#[derive(Clone, Copy, Debug, PartialEq, Eq, Structural)]
pub struct PingPongPair {
    a: ImageHandle,
    b: ImageHandle,
}

impl PingPongPair {
    pub open spec fn wf(&self) -> bool {
        self.a_spec() != self.b_spec()
    }

    pub closed spec fn a_spec(&self) -> ImageHandle {
        self.a
    }

    pub closed spec fn b_spec(&self) -> ImageHandle {
        self.b
    }

    /// The pair `(a, b)`, or `None` where both name the same image.
    pub fn new(a: ImageHandle, b: ImageHandle) -> (r: Option<PingPongPair>)
        ensures
            match r {
                Some(p) => a != b && p.a_spec() == a && p.b_spec() == b && p.wf(),
                None => a == b,
            },
    {
        if a == b {
            None
        } else {
            Some(PingPongPair { a, b })
        }
    }

    #[verifier::when_used_as_spec(a_spec)]
    pub fn a(&self) -> (r: ImageHandle)
        ensures
            r == self.a_spec(),
    {
        self.a
    }

    #[verifier::when_used_as_spec(b_spec)]
    pub fn b(&self) -> (r: ImageHandle)
        ensures
            r == self.b_spec(),
    {
        self.b
    }
}

/// The bytes both ping-pong images start with: every texel `[0, 0, 0, 255]`.
pub open spec fn ping_pong_fill() -> Seq<u8> {
    filled_texels(seq![0u8, 0u8, 0u8, 255u8], (WINDOW_WIDTH as nat) * (WINDOW_HEIGHT as nat))
}

/// Creates the two window-sized single-channel float images of the
/// ping-pong pass, each filled with `[0, 0, 0, 255]` per texel.
pub fn setup_ping_pong(store: &mut ImageStore) -> (r: PingPongPair)
    requires
        old(store).wf(),
    ensures
        final(store).wf(),
        r.wf(),
        r.a_spec().index == old(store)@.slots.len(),
        r.b_spec().index == old(store)@.slots.len() + 1,
        final(store)@.slots == old(store)@.slots.push(
            ImageSlot { descriptor: storage_image_spec(TextureFormat::R32Float), view: None },
        ).push(ImageSlot { descriptor: storage_image_spec(TextureFormat::R32Float), view: None }),
        final(store)@.initial == old(store)@.initial.push(Some(ping_pong_fill())).push(
            Some(ping_pong_fill()),
        ),
        final(store)@.retired == old(store)@.retired,
        final(store)@.next_generation == old(store)@.next_generation,
{
    let descriptor = storage_image(TextureFormat::R32Float);
    let pixel: [u8; 4] = [0u8, 0u8, 0u8, 255u8];
    let count: usize = (WINDOW_WIDTH as usize) * (WINDOW_HEIGHT as usize);
    assert(pixel@ =~= seq![0u8, 0u8, 0u8, 255u8]);
    let a = store.create(descriptor, Some(fill_texels(pixel, count)));
    let b = store.create(descriptor, Some(fill_texels(pixel, count)));
    PingPongPair { a, b }
}

/// A bind group of the ping-pong layout: binding 0 is read, binding 1 is
/// written.
#[derive(Clone, Copy, Debug, PartialEq, Eq, Structural)]
pub struct BindGroup {
    pub read: ImageView,
    pub write: ImageView,
}

/// The two bind groups of a frame: group 0 reads A and writes B, group 1
/// reads B and writes A.
#[derive(Clone, Copy, Debug, PartialEq, Eq, Structural)]
pub struct BindGroups {
    pub group0: BindGroup,
    pub group1: BindGroup,
}

impl BindGroups {
    pub open spec fn group(&self, i: int) -> BindGroup {
        if i == 0 {
            self.group0
        } else {
            self.group1
        }
    }

    /// The groups bind `view_a` and `view_b` in both orders.
    pub open spec fn binds(&self, view_a: ImageView, view_b: ImageView) -> bool {
        &&& self.group(0) == BindGroup { read: view_a, write: view_b }
        &&& self.group(1) == BindGroup { read: view_b, write: view_a }
    }

    /// The group of frame number `frame`, chosen by its parity.
    pub open spec fn selected(&self, frame: int) -> BindGroup {
        self.group(frame % 2)
    }

    /// The group dispatched in frame `frame`, chosen by its parity.
    pub fn select(&self, frame: u64) -> (r: BindGroup)
        ensures
            r == self.selected(frame as int),
    {
        if frame % 2 == 0 {
            self.group0
        } else {
            self.group1
        }
    }
}

/// What went missing while preparing a frame's bind groups.
#[derive(Clone, Copy, Debug, PartialEq, Eq, Structural)]
pub enum MissingResource {
    /// The snapshot holds no GPU view of this image yet.
    View(ImageHandle),
}

/// Builds the frame's bind groups for `pair` from the views in the render
/// snapshot: `(read A, write B)` and `(read B, write A)`. Fails, naming the
/// image, while either image has no view yet.
pub fn prepare_bind_group(extracted: &ExtractedImages, pair: &PingPongPair) -> (r: Result<
    BindGroups,
    MissingResource,
>)
    ensures
        match r {
            Ok(g) => {
                &&& g.group0.read.image == pair.a_spec()
                &&& g.group0.write.image == pair.b_spec()
                &&& extracted.entries@.contains(g.group0.read)
                &&& extracted.entries@.contains(g.group0.write)
                &&& g.binds(g.group0.read, g.group0.write)
            },
            Err(MissingResource::View(h)) => {
                ||| h == pair.a_spec() && forall|j: int|
                    0 <= j < extracted.entries@.len() ==> extracted.entries@[j].image != h
                ||| h == pair.b_spec() && forall|j: int|
                    0 <= j < extracted.entries@.len() ==> extracted.entries@[j].image != h
            },
        },
        r is Ok <==> (exists|j: int|
            0 <= j < extracted.entries@.len() && extracted.entries@[j].image == pair.a_spec())
            && (exists|j: int|
            0 <= j < extracted.entries@.len() && extracted.entries@[j].image == pair.b_spec()),
{
    let view_a = match extracted.get(pair.a) {
        Some(v) => v,
        None => {
            return Err(MissingResource::View(pair.a));
        },
    };
    let view_b = match extracted.get(pair.b) {
        Some(v) => v,
        None => {
            return Err(MissingResource::View(pair.b));
        },
    };
    let g = BindGroups {
        group0: BindGroup { read: view_a, write: view_b },
        group1: BindGroup { read: view_b, write: view_a },
    };
    assert(g.binds(view_a, view_b));
    Ok(g)
}

/// Ping-pong correctness: whatever the frame, the group dispatched reads
/// one image of the pair and writes the other, and the next frame swaps
/// the two roles.
pub proof fn lemma_ping_pong_alternates(
    groups: BindGroups,
    view_a: ImageView,
    view_b: ImageView,
    frame: int,
)
    requires
        groups.binds(view_a, view_b),
        view_a.image != view_b.image,
        frame >= 0,
    ensures
        groups.selected(frame).read.image != groups.selected(frame).write.image,
        (groups.selected(frame).read == view_a && groups.selected(frame).write == view_b) || (
        groups.selected(frame).read == view_b && groups.selected(frame).write == view_a),
        groups.selected(frame + 1).read == groups.selected(frame).write,
        groups.selected(frame + 1).write == groups.selected(frame).read,
        frame % 2 == 0 ==> groups.selected(frame).read == view_a,
        frame % 2 == 1 ==> groups.selected(frame).read == view_b,
{
}

} // verus!
