//! Taking a screenshot of a region, and the store of pinned screenshots.
//!
//! Capturing pixels is the platform's work. The library decides what is to
//! be captured, and what becomes of the pixels once they are there.

use std::collections::HashMap;
use vstd::prelude::*;
use crate::model::{
    Error, ErrorKind, LogicalParam, LogicalRegion, Monitor, PhysicalParam, PixelBuffer,
};
use crate::transform::{to_physical, within};
use crate::util::{find_monitor, is_first_at};

verus! {

/// What is to be captured: a rectangle of device pixels on one of the
/// displays that were enumerated for the request.
#[derive(Clone, Copy, Debug)]
pub struct CaptureTarget {
    /// Index of the display in the enumeration.
    pub monitor: usize,
    pub region: PhysicalParam,
}

/// `target` is what the request `region` means on the displays `monitors`:
/// the first display at the region's origin, and the region transformed to
/// that display's pixels.
pub open spec fn is_target_of(
    target: CaptureTarget,
    monitors: Seq<Monitor>,
    region: LogicalRegion,
) -> bool {
    &&& is_first_at(monitors, region.origin_x, region.origin_y, Some(target.monitor as int))
    &&& target.region@ == to_physical(monitors[target.monitor as int]@, region)
}

/// No display is at the origin that `region` names.
pub open spec fn has_no_target(monitors: Seq<Monitor>, region: LogicalRegion) -> bool {
    is_first_at(monitors, region.origin_x, region.origin_y, None)
}

/// Resolves the display that a region belongs to and transforms the region
/// to that display's pixels.
pub fn locate(param: &LogicalParam, monitors: &Vec<Monitor>) -> (r: Option<CaptureTarget>)
    ensures
        match r {
            Some(target) => {
                &&& is_target_of(target, monitors@, param@)
                &&& within(
                    target.region@,
                    monitors@[target.monitor as int]@.width,
                    monitors@[target.monitor as int]@.height,
                )
            },
            None => has_no_target(monitors@, param@),
        },
{
    match find_monitor(monitors, param.screen_x, param.screen_y) {
        Some(index) => {
            let region = PhysicalParam::new(&monitors[index], param);
            Some(CaptureTarget { monitor: index, region })
        },
        None => None,
    }
}

/// Decides what a screenshot request captures. An invalid region is
/// rejected before any display is looked at; a valid one is resolved to the
/// first display at its origin, or fails when there is none.
pub fn screenshot_take(param: &LogicalParam, monitors: &Vec<Monitor>) -> (r: Result<
    CaptureTarget,
    Error,
>)
    ensures
        match r {
            Ok(target) => {
                &&& param@.valid()
                &&& is_target_of(target, monitors@, param@)
                &&& within(
                    target.region@,
                    monitors@[target.monitor as int]@.width,
                    monitors@[target.monitor as int]@.height,
                )
            },
            Err(e) => if !param@.valid() {
                e.says(ErrorKind::Validation, "invalid param"@)
            } else {
                &&& has_no_target(monitors@, param@)
                &&& e.says(ErrorKind::MonitorNotFound, "monitor not found"@)
            },
        },
{
    match param.validate() {
        Err(e) => {
            return Err(e);
        },
        Ok(()) => {},
    }
    match locate(param, monitors) {
        Some(target) => Ok(target),
        None => Err(Error::new(ErrorKind::MonitorNotFound, "monitor not found")),
    }
}

/// Mathematical value of a [`PinStore`].
pub struct PinStoreView {
    /// The encoded image of each pin, by the pin's identifier.
    pub images: Map<int, Seq<u8>>,
    /// How many identifiers were given out since the store was made.
    pub issued: int,
}

impl PinStoreView {
    /// Every pin has one of the identifiers that were given out, and these
    /// are the positive integers up to `issued`.
    pub open spec fn wf(self) -> bool {
        &&& 0 <= self.issued <= i32::MAX
        &&& forall|id: int| self.images.contains_key(id) ==> 1 <= id <= self.issued
    }

    /// The store as it is made: no pin, no identifier given out.
    pub open spec fn empty() -> PinStoreView {
        PinStoreView { images: Map::empty(), issued: 0 }
    }

    /// The identifier that the next pin gets.
    pub open spec fn next_id(self) -> int {
        self.issued + 1
    }

    /// The store after `bytes` were pinned under the next identifier.
    pub open spec fn created(self, bytes: Seq<u8>) -> PinStoreView {
        PinStoreView { images: self.images.insert(self.next_id(), bytes), issued: self.issued + 1 }
    }

    /// The store after the pin `id` was deleted, if there was one.
    pub open spec fn deleted(self, id: int) -> PinStoreView {
        PinStoreView { images: self.images.remove(id), issued: self.issued }
    }

    /// The encoded image of the pin `id`, if there is one.
    pub open spec fn lookup(self, id: int) -> Option<Seq<u8>> {
        if self.images.contains_key(id) {
            Some(self.images[id])
        } else {
            None
        }
    }
}

/// The pins: encoded images, each under an identifier of its own. An
/// identifier is given out once in the lifetime of a store, also after its
/// pin was deleted.
pub struct PinStore {
    images: HashMap<i32, Vec<u8>>,
    issued: i32,
}

impl View for PinStore {
    type V = PinStoreView;

    closed spec fn view(&self) -> PinStoreView {
        PinStoreView {
            images: Map::new(
                |id: int| i32::MIN <= id <= i32::MAX && self.images@.contains_key(id as i32),
                |id: int| self.images@[id as i32]@,
            ),
            issued: self.issued as int,
        }
    }
}

impl PinStore {
    /// A store without pins.
    pub fn new() -> (r: PinStore)
        ensures
            r@ == PinStoreView::empty(),
            r@.wf(),
    {
        let r = PinStore { images: HashMap::new(), issued: 0 };
        assert(r@.images =~= Map::<int, Seq<u8>>::empty());
        r
    }

    /// Whether an identifier is left for another pin.
    pub fn has_room(&self) -> (r: bool)
        ensures
            r == (self@.issued < i32::MAX),
    {
        self.issued < i32::MAX
    }

    /// How many pins the store holds.
    pub fn len(&self) -> (r: usize)
        ensures
            r == self@.images.len(),
            self@.images.dom().finite(),
    {
        proof {
            self.lemma_view_len();
        }
        self.images.len()
    }

    proof fn lemma_view_len(&self)
        ensures
            self@.images.dom().finite(),
            self@.images.len() == self.images@.len(),
    {
        let keys = self.images@.dom();
        let ids = self@.images.dom();
        assert(ids =~= keys.map(|k: i32| k as int));
        assert(vstd::relations::injective(|k: i32| k as int));
        keys.lemma_map_finite(|k: i32| k as int);
        vstd::set_lib::lemma_map_size(keys, ids, |k: i32| k as int);
    }
}

/// What `image`'s PNG encoder writes for an RGBA8 image of `width` by
/// `height` pixels whose bytes are `pixels`: the file, or the text of the
/// encoder's error.
pub uninterp spec fn png_encoding(width: u32, height: u32, pixels: Seq<u8>) -> Result<
    Seq<u8>,
    Seq<char>,
>;

/// Encodes RGBA8 pixels as a PNG file with `write_image` of
/// `image::codecs::png::PngEncoder`, in the encoder's default settings. The
/// encoder is a function of the size and the bytes alone; its result is
/// known here by name only. It panics unless there are four bytes for each
/// pixel, which is required.
#[verifier::external_body]
fn encode_png(width: u32, height: u32, pixels: &Vec<u8>) -> (r: Result<Vec<u8>, String>)
    requires
        pixels@.len() == 4 * width * height,
    ensures
        match r {
            Ok(bytes) => png_encoding(width, height, pixels@) == Ok::<Seq<u8>, Seq<char>>(bytes@),
            Err(reason) => png_encoding(width, height, pixels@) == Err::<Seq<u8>, Seq<char>>(
                reason@,
            ),
        },
{
    let mut bytes: Vec<u8> = Vec::new();
    let encoder = image::codecs::png::PngEncoder::new(&mut bytes);
    let color = image::ExtendedColorType::Rgba8;
    match image::ImageEncoder::write_image(encoder, pixels, width, height, color) {
        Ok(()) => Ok(bytes),
        Err(e) => Err(e.to_string()),
    }
}

/// Pins an encoded image, or reports why there is none. An image gets the
/// next identifier of the store, which no pin had before; a failed encoding
/// leaves the store as it is.
pub fn pin_insert(encoded: Result<Vec<u8>, String>, state: &mut PinStore) -> (r: Result<i32, Error>)
    requires
        old(state)@.issued < i32::MAX,
    ensures
        match encoded {
            Ok(bytes) => {
                &&& r == Ok::<i32, Error>(old(state)@.next_id() as i32)
                &&& final(state)@ == old(state)@.created(bytes@)
            },
            Err(reason) => {
                &&& r matches Err(e) && e.says(ErrorKind::EncodingFailure, reason@)
                &&& final(state)@ == old(state)@
            },
        },
        old(state)@.wf() ==> final(state)@.wf(),
{
    broadcast use vstd::std_specs::hash::group_hash_axioms;

    match encoded {
        Ok(bytes) => {
            let id = state.issued + 1;
            state.issued = id;
            state.images.insert(id, bytes);
            assert(state@.images =~= old(state)@.created(bytes@).images);
            Ok(id)
        },
        Err(reason) => Err(Error { kind: ErrorKind::EncodingFailure, message: reason }),
    }
}

/// Encodes captured pixels as a PNG file: the file, or the reason why the
/// encoder gave none. The store is not needed for this, so a caller that
/// shares the store encodes first and takes the store only to pin.
pub fn encode_pin(image: &PixelBuffer) -> (r: Result<Vec<u8>, String>)
    ensures
        match png_encoding(image@.width as u32, image@.height as u32, image@.data) {
            Ok(bytes) => r matches Ok(found) && found@ == bytes,
            Err(reason) => r matches Err(found) && found@ == reason,
        },
{
    encode_png(image.width(), image.height(), image.data())
}

/// Encodes captured pixels as a PNG file and pins the file.
pub fn pin_create(image: &PixelBuffer, state: &mut PinStore) -> (r: Result<i32, Error>)
    requires
        old(state)@.issued < i32::MAX,
    ensures
        match png_encoding(image@.width as u32, image@.height as u32, image@.data) {
            Ok(bytes) => {
                &&& r == Ok::<i32, Error>(old(state)@.next_id() as i32)
                &&& final(state)@ == old(state)@.created(bytes)
            },
            Err(reason) => {
                &&& r matches Err(e) && e.says(ErrorKind::EncodingFailure, reason)
                &&& final(state)@ == old(state)@
            },
        },
        old(state)@.wf() ==> final(state)@.wf(),
{
    pin_insert(encode_pin(image), state)
}

/// Deletes a pin. Deleting a pin that is not there changes nothing and is
/// no failure.
pub fn pin_delete(pin_id: i32, state: &mut PinStore)
    ensures
        final(state)@ == old(state)@.deleted(pin_id as int),
        old(state)@.wf() ==> final(state)@.wf(),
{
    broadcast use vstd::std_specs::hash::group_hash_axioms;

    state.images.remove(&pin_id);
    assert(state@.images =~= old(state)@.deleted(pin_id as int).images);
}

/// Reads the encoded image of a pin.
pub fn pin_get(pin_id: i32, state: &PinStore) -> (r: Result<Vec<u8>, Error>)
    ensures
        match state@.lookup(pin_id as int) {
            Some(bytes) => r matches Ok(found) && found@ == bytes,
            None => r matches Err(e) && e.says(ErrorKind::StateNotFound, "pin not found"@),
        },
{
    broadcast use vstd::std_specs::hash::group_hash_axioms;

    match state.images.get(&pin_id) {
        Some(bytes) => Ok(bytes.clone()),
        None => Err(Error::new(ErrorKind::StateNotFound, "pin not found")),
    }
}

/// A request that changes the store.
pub enum PinChange {
    /// Pin these bytes.
    Create(Seq<u8>),
    /// Delete the pin with this identifier.
    Delete(int),
}

/// The store after one change.
pub open spec fn changed(store: PinStoreView, change: PinChange) -> PinStoreView {
    match change {
        PinChange::Create(bytes) => store.created(bytes),
        PinChange::Delete(id) => store.deleted(id),
    }
}

/// The store after a series of changes, the first of them first.
pub open spec fn changed_by(store: PinStoreView, changes: Seq<PinChange>) -> PinStoreView
    decreases changes.len(),
{
    if changes.len() == 0 {
        store
    } else {
        changed(changed_by(store, changes.drop_last()), changes.last())
    }
}

/// The identifier that the change at position `at` gives out, if it is a
/// create: the next identifier of the store that the changes before it
/// leave.
pub open spec fn id_given(store: PinStoreView, changes: Seq<PinChange>, at: int) -> int {
    changed_by(store, changes.take(at)).next_id()
}

/// A new store is well formed, and creating and deleting keep a store so.
pub proof fn lemma_store_stays_wf(store: PinStoreView, change: PinChange)
    requires
        store.wf(),
        change is Create ==> store.issued < i32::MAX,
    ensures
        PinStoreView::empty().wf(),
        changed(store, change).wf(),
{
}

/// A pin that was created is read back as the bytes that were pinned.
pub proof fn lemma_create_then_get(store: PinStoreView, bytes: Seq<u8>)
    ensures
        store.created(bytes).lookup(store.next_id()) == Some(bytes),
{
}

/// A pin that was deleted is not found, and deleting it once more changes
/// nothing.
pub proof fn lemma_delete_then_get(store: PinStoreView, id: int)
    ensures
        store.deleted(id).lookup(id) is None,
        store.deleted(id).deleted(id) == store.deleted(id),
{
    assert(store.deleted(id).deleted(id).images =~= store.deleted(id).images);
}

/// The identifier of a new pin is one that no pin of the store has, so a
/// create never replaces a pin; and neither a create nor a delete touches
/// a pin with another identifier.
pub proof fn lemma_other_pins_stay(store: PinStoreView, change: PinChange, id: int)
    requires
        store.wf(),
    ensures
        store.lookup(store.next_id()) is None,
        match change {
            PinChange::Create(bytes) => id != store.next_id() ==> store.created(bytes).lookup(id)
                == store.lookup(id),
            PinChange::Delete(deleted) => id != deleted ==> store.deleted(deleted).lookup(id)
                == store.lookup(id),
        },
{
}

/// No change of the store lowers the count of identifiers given out, and a
/// create raises it.
pub proof fn lemma_issued_grows(store: PinStoreView, changes: Seq<PinChange>, from: int, to: int)
    requires
        0 <= from <= to <= changes.len(),
    ensures
        changed_by(store, changes.take(from)).issued <= changed_by(store, changes.take(to)).issued,
        from < to && changes[from] is Create ==> changed_by(store, changes.take(from)).issued
            < changed_by(store, changes.take(to)).issued,
    decreases to - from,
{
    if from < to {
        let before = changes.take(to - 1);
        assert(changes.take(to).drop_last() =~= before);
        assert(changes.take(to).last() == changes[to - 1]);
        lemma_issued_grows(store, changes, from, to - 1);
    }
}

/// Two creates never give out the same identifier, whatever is created or
/// deleted in between, and whether or not the store is empty by then.
pub proof fn lemma_ids_are_distinct(
    store: PinStoreView,
    changes: Seq<PinChange>,
    first: int,
    second: int,
)
    requires
        0 <= first < second < changes.len(),
        changes[first] is Create,
        changes[second] is Create,
    ensures
        id_given(store, changes, first) < id_given(store, changes, second),
{
    lemma_issued_grows(store, changes, first, second);
}

} // verus!
