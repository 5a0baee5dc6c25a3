//! Image store: image descriptors by handle, their GPU views once uploaded,
//! views retired until the frame that used them has completed, and the
//! per-frame snapshot the render phase reads.
use vstd::prelude::*;
use crate::layout::TextureFormat;

verus! {

#[derive(Clone, Copy, Debug, PartialEq, Eq, Structural)]
pub struct Extent {
    pub width: u32,
    pub height: u32,
    pub depth_or_array_layers: u32,
}

#[derive(Clone, Copy, Debug, PartialEq, Eq, Structural)]
pub enum TextureDimension {
    D2,
}

#[derive(Clone, Copy, Debug, PartialEq, Eq, Structural)]
pub struct TextureUsages {
    pub copy_dst: bool,
    pub storage_binding: bool,
    pub texture_binding: bool,
}

#[derive(Clone, Copy, Debug, PartialEq, Eq, Structural)]
pub struct ImageDescriptor {
    pub extent: Extent,
    pub format: TextureFormat,
    pub dimension: TextureDimension,
    pub usage: TextureUsages,
}

/// Resolution of the window and of the images the passes write.
pub const WINDOW_WIDTH: u32 = 1920;

pub const WINDOW_HEIGHT: u32 = 1080;

pub open spec fn storage_image_spec(format: TextureFormat) -> ImageDescriptor {
    ImageDescriptor {
        extent: Extent { width: WINDOW_WIDTH, height: WINDOW_HEIGHT, depth_or_array_layers: 1 },
        format,
        dimension: TextureDimension::D2,
        usage: TextureUsages { copy_dst: true, storage_binding: true, texture_binding: true },
    }
}

/// A window-sized 2D image that can be copied to, bound as storage and
/// sampled.
pub fn storage_image(format: TextureFormat) -> (r: ImageDescriptor)
    ensures
        r == storage_image_spec(format),
{
    ImageDescriptor {
        extent: Extent { width: WINDOW_WIDTH, height: WINDOW_HEIGHT, depth_or_array_layers: 1 },
        format,
        dimension: TextureDimension::D2,
        usage: TextureUsages { copy_dst: true, storage_binding: true, texture_binding: true },
    }
}

/// The texel bytes of `count` texels, each holding `pixel`.
pub open spec fn filled_texels(pixel: Seq<u8>, count: nat) -> Seq<u8> {
    Seq::new(count * 4, |i: int| pixel[i % 4])
}

/// The bytes of `count` texels of four bytes, each holding `pixel`.
pub fn fill_texels(pixel: [u8; 4], count: usize) -> (r: Vec<u8>)
    requires
        count * 4 <= usize::MAX,
    ensures
        r@ == filled_texels(pixel@, count as nat),
{
    let mut r: Vec<u8> = Vec::new();
    let mut t: usize = 0;
    while t < count
        invariant
            t <= count,
            count * 4 <= usize::MAX,
            r@.len() == t * 4,
            forall|i: int| 0 <= i < r@.len() ==> r@[i] == pixel@[i % 4],
        decreases count - t,
    {
        let mut k: usize = 0;
        while k < 4
            invariant
                t < count,
                k <= 4,
                r@.len() == t * 4 + k,
                forall|i: int| 0 <= i < r@.len() ==> r@[i] == pixel@[i % 4],
            decreases 4 - k,
        {
            proof {
                assert((t * 4 + k) as int % 4 == k as int);
            }
            r.push(pixel[k]);
            k = k + 1;
        }
        t = t + 1;
    }
    assert(r@ =~= filled_texels(pixel@, count as nat));
    r
}

/// Identifier of an image in the store; cheap to copy, compared by identity.
#[derive(Clone, Copy, Debug, PartialEq, Eq, Structural)]
pub struct ImageHandle {
    pub index: usize,
}

/// A GPU view of an image: `generation` names the allocation it belongs to.
#[derive(Clone, Copy, Debug, PartialEq, Eq, Structural)]
pub struct ImageView {
    pub image: ImageHandle,
    pub generation: u64,
}

#[derive(Clone, Copy, Debug, PartialEq, Eq, Structural)]
pub struct ImageSlot {
    pub descriptor: ImageDescriptor,
    /// The live view, once the image has been uploaded.
    pub view: Option<ImageView>,
}

/// A view no longer current, kept until the fence reaches `until`.
#[derive(Clone, Copy, Debug, PartialEq, Eq, Structural)]
pub struct Retired {
    pub view: ImageView,
    pub until: u64,
}

pub struct StoreModel {
    pub slots: Seq<ImageSlot>,
    pub retired: Seq<Retired>,
    /// Generation the next upload receives; every earlier one is below it.
    pub next_generation: nat,
    /// Texel bytes each image is first uploaded with, if any.
    pub initial: Seq<Option<Seq<u8>>>,
}

impl StoreModel {
    pub open spec fn wf(&self) -> bool {
        &&& self.initial.len() == self.slots.len()
        &&& forall|i: int|
            0 <= i < self.slots.len() ==> match #[trigger] self.slots[i].view {
                Some(v) => v.image.index == i && (v.generation as nat) < self.next_generation,
                None => true,
            }
    }
}

pub struct ImageStore {
    slots: Vec<ImageSlot>,
    retired: Vec<Retired>,
    next_generation: u64,
    initial: Vec<Option<Vec<u8>>>,
}

impl View for ImageStore {
    type V = StoreModel;

    closed spec fn view(&self) -> StoreModel {
        StoreModel {
            slots: self.slots@,
            retired: self.retired@,
            next_generation: self.next_generation as nat,
            initial: self.initial@.map_values(
                |o: Option<Vec<u8>>|
                    match o {
                        Some(b) => Some(b@),
                        None => None,
                    },
            ),
        }
    }
}

/// The views the render phase may use this frame, snapshotted from the
/// store; each entry is a handle with the live view of that image.
pub struct ExtractedImages {
    pub entries: Vec<ImageView>,
}

impl ExtractedImages {
    /// The view of `h` in the snapshot, if it holds one.
    pub fn get(&self, h: ImageHandle) -> (r: Option<ImageView>)
        ensures
            match r {
                Some(v) => v.image == h && self.entries@.contains(v),
                None => forall|j: int| 0 <= j < self.entries@.len() ==> self.entries@[j].image != h,
            },
    {
        let mut j: usize = 0;
        while j < self.entries.len()
            invariant
                j <= self.entries.len(),
                forall|k: int| 0 <= k < j ==> self.entries@[k].image != h,
            decreases self.entries.len() - j,
        {
            if self.entries[j].image == h {
                return Some(self.entries[j]);
            }
            j = j + 1;
        }
        None
    }
}

impl ImageStore {
    pub open spec fn wf(&self) -> bool {
        self@.wf()
    }

    pub fn new() -> (r: ImageStore)
        ensures
            r.wf(),
            r@.slots.len() == 0,
            r@.retired.len() == 0,
            r@.next_generation == 0,
    {
        let r = ImageStore {
            slots: Vec::new(),
            retired: Vec::new(),
            next_generation: 0,
            initial: Vec::new(),
        };
        assert(r@.initial.len() == 0);
        r
    }

    pub fn len(&self) -> (r: usize)
        ensures
            r == self@.slots.len(),
    {
        self.slots.len()
    }

    /// Registers an image, with the texel bytes it is first uploaded with,
    /// if any; it gets a GPU view on its first upload.
    pub fn create(&mut self, descriptor: ImageDescriptor, initial_bytes: Option<Vec<u8>>) -> (r:
        ImageHandle)
        requires
            old(self).wf(),
        ensures
            final(self).wf(),
            r.index == old(self)@.slots.len(),
            final(self)@.slots == old(self)@.slots.push(ImageSlot { descriptor, view: None }),
            final(self)@.initial == old(self)@.initial.push(
                match initial_bytes {
                    Some(b) => Some(b@),
                    None => None,
                },
            ),
            final(self)@.retired == old(self)@.retired,
            final(self)@.next_generation == old(self)@.next_generation,
    {
        let index = self.slots.len();
        let ghost init = match &initial_bytes {
            Some(b) => Some(b@),
            None => None::<Seq<u8>>,
        };
        self.slots.push(ImageSlot { descriptor, view: None });
        self.initial.push(initial_bytes);
        assert(forall|i: int| 0 <= i < index ==> self@.slots[i] == old(self)@.slots[i]);
        assert(self@.initial =~= old(self)@.initial.push(init));
        ImageHandle { index }
    }

    /// The texel bytes `h` is first uploaded with, if any.
    pub fn initial_bytes(&self, h: ImageHandle) -> (r: Option<&Vec<u8>>)
        requires
            self.wf(),
            h.index < self@.slots.len(),
        ensures
            match r {
                Some(b) => self@.initial[h.index as int] == Some(b@),
                None => self@.initial[h.index as int] is None,
            },
    {
        match &self.initial[h.index] {
            Some(b) => Some(b),
            None => None,
        }
    }

    pub fn descriptor(&self, h: ImageHandle) -> (r: ImageDescriptor)
        requires
            h.index < self@.slots.len(),
        ensures
            r == self@.slots[h.index as int].descriptor,
    {
        self.slots[h.index].descriptor
    }

    /// The live view of `h`, or `None` before its upload.
    pub fn get_view(&self, h: ImageHandle) -> (r: Option<ImageView>)
        requires
            h.index < self@.slots.len(),
        ensures
            r == self@.slots[h.index as int].view,
    {
        self.slots[h.index].view
    }

    /// The view of `h`, allocating a new one if it has none. Returns it and
    /// whether the host must now create the GPU image.
    pub fn upload(&mut self, h: ImageHandle) -> (r: (ImageView, bool))
        requires
            old(self).wf(),
            h.index < old(self)@.slots.len(),
            old(self)@.next_generation < u64::MAX,
        ensures
            final(self).wf(),
            final(self)@.retired == old(self)@.retired,
            final(self)@.initial == old(self)@.initial,
            final(self)@.slots.len() == old(self)@.slots.len(),
            match old(self)@.slots[h.index as int].view {
                Some(v) => r == (v, false) && final(self)@ == old(self)@,
                None => {
                    &&& r.1
                    &&& r.0 == ImageView { image: h, generation: old(self)@.next_generation as u64 }
                    &&& final(self)@.next_generation == old(self)@.next_generation + 1
                    &&& final(self)@.slots == old(self)@.slots.update(
                        h.index as int,
                        ImageSlot {
                            descriptor: old(self)@.slots[h.index as int].descriptor,
                            view: Some(r.0),
                        },
                    )
                },
            },
    {
        match self.slots[h.index].view {
            Some(v) => (v, false),
            None => {
                let v = ImageView { image: h, generation: self.next_generation };
                let descriptor = self.slots[h.index].descriptor;
                self.slots.set(h.index, ImageSlot { descriptor, view: Some(v) });
                self.next_generation = self.next_generation + 1;
                assert forall|i: int| 0 <= i < self@.slots.len() implies match #[trigger] self@.slots[i].view {
                    Some(w) => w.image.index == i && (w.generation as nat) < self@.next_generation,
                    None => true,
                } by {
                    if i != h.index {
                        assert(self@.slots[i] == old(self)@.slots[i]);
                    }
                }
                (v, true)
            },
        }
    }

    /// Changes the extent of `h`. Its GPU image, if any, is retired until
    /// the fence reaches `until` (the value the current frame signals) and
    /// the image is uploaded again on next use.
    pub fn resize(&mut self, h: ImageHandle, extent: Extent, until: u64)
        requires
            old(self).wf(),
            h.index < old(self)@.slots.len(),
        ensures
            final(self).wf(),
            final(self)@.next_generation == old(self)@.next_generation,
            final(self)@.initial == old(self)@.initial,
            final(self)@.slots == old(self)@.slots.update(
                h.index as int,
                ImageSlot {
                    descriptor: ImageDescriptor {
                        extent,
                        ..old(self)@.slots[h.index as int].descriptor
                    },
                    view: None,
                },
            ),
            final(self)@.retired == (match old(self)@.slots[h.index as int].view {
                Some(v) => old(self)@.retired.push(Retired { view: v, until }),
                None => old(self)@.retired,
            }),
    {
        let slot = self.slots[h.index];
        match slot.view {
            Some(v) => {
                self.retired.push(Retired { view: v, until });
            },
            None => {},
        }
        let descriptor = ImageDescriptor { extent, ..slot.descriptor };
        self.slots.set(h.index, ImageSlot { descriptor, view: None });
        assert forall|i: int| 0 <= i < self@.slots.len() implies match #[trigger] self@.slots[i].view {
            Some(w) => w.image.index == i && (w.generation as nat) < self@.next_generation,
            None => true,
        } by {
            if i != h.index {
                assert(self@.slots[i] == old(self)@.slots[i]);
            }
        }
    }

    /// Releases the retired views whose fence value has been reached by
    /// `completed`, returning them in retirement order; the others stay.
    pub fn collect_retired(&mut self, completed: u64) -> (r: Vec<ImageView>)
        requires
            old(self).wf(),
        ensures
            final(self).wf(),
            final(self)@.slots == old(self)@.slots,
            final(self)@.initial == old(self)@.initial,
            final(self)@.next_generation == old(self)@.next_generation,
            r@ == old(self)@.retired.filter(|e: Retired| e.until <= completed).map_values(
                |e: Retired| e.view,
            ),
            final(self)@.retired == old(self)@.retired.filter(|e: Retired| e.until > completed),
    {
        let mut released: Vec<ImageView> = Vec::new();
        let mut kept: Vec<Retired> = Vec::new();
        let mut j: usize = 0;
        let ghost all = self.retired@;
        while j < self.retired.len()
            invariant
                self.retired@ == all,
                j <= all.len(),
                released@ == all.subrange(0, j as int).filter(|e: Retired| e.until <= completed).map_values(
                    |e: Retired| e.view,
                ),
                kept@ == all.subrange(0, j as int).filter(|e: Retired| e.until > completed),
            decreases all.len() - j,
        {
            let e = self.retired[j];
            proof {
                assert(all.subrange(0, j as int + 1).drop_last() =~= all.subrange(0, j as int));
                assert(all.subrange(0, j as int + 1).last() == e);
                reveal(Seq::filter);
            }
            if e.until <= completed {
                released.push(e.view);
                proof {
                    assert(released@ =~= all.subrange(0, j as int + 1).filter(
                        |e: Retired| e.until <= completed,
                    ).map_values(|e: Retired| e.view));
                    assert(kept@ =~= all.subrange(0, j as int + 1).filter(
                        |e: Retired| e.until > completed,
                    ));
                }
            } else {
                kept.push(e);
                proof {
                    assert(released@ =~= all.subrange(0, j as int + 1).filter(
                        |e: Retired| e.until <= completed,
                    ).map_values(|e: Retired| e.view));
                    assert(kept@ =~= all.subrange(0, j as int + 1).filter(
                        |e: Retired| e.until > completed,
                    ));
                }
            }
            j = j + 1;
        }
        assert(all.subrange(0, all.len() as int) =~= all);
        self.retired = kept;
        released
    }

    /// Snapshot for the render phase: the live view of each of `handles`
    /// that has one, in the order given.
    pub fn extract(&self, handles: &Vec<ImageHandle>) -> (r: ExtractedImages)
        requires
            forall|j: int| 0 <= j < handles@.len() ==> handles@[j].index < self@.slots.len(),
        ensures
            r.entries@ == extracted_views(self@.slots, handles@),
    {
        let mut entries: Vec<ImageView> = Vec::new();
        let mut j: usize = 0;
        while j < handles.len()
            invariant
                j <= handles.len(),
                forall|i: int| 0 <= i < handles@.len() ==> handles@[i].index < self@.slots.len(),
                entries@ == extracted_views(self@.slots, handles@.subrange(0, j as int)),
            decreases handles.len() - j,
        {
            let h = handles[j];
            proof {
                assert(handles@.subrange(0, j as int + 1).drop_last() =~= handles@.subrange(
                    0,
                    j as int,
                ));
            }
            match self.slots[h.index].view {
                Some(v) => {
                    entries.push(v);
                },
                None => {},
            }
            j = j + 1;
        }
        assert(handles@.subrange(0, handles@.len() as int) =~= handles@);
        ExtractedImages { entries }
    }
}

/// The live views of `handles` in `slots`, in order, skipping images that
/// have none.
pub open spec fn extracted_views(slots: Seq<ImageSlot>, handles: Seq<ImageHandle>) -> Seq<
    ImageView,
>
    decreases handles.len(),
{
    if handles.len() == 0 {
        Seq::empty()
    } else {
        let rest = extracted_views(slots, handles.drop_last());
        match slots[handles.last().index as int].view {
            Some(v) => rest.push(v),
            None => rest,
        }
    }
}

} // verus!
