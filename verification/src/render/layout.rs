//! How blocks lie in GPU memory: as 32-bit words, field behind field, element
//! behind element. Every field is made of words, and none is padded.
use vstd::prelude::*;

use crate::render::uniforms::CameraUniform;
use crate::render::uniforms::GeomOffset;
use crate::render::uniforms::LightSlot;
use crate::render::uniforms::LightsUniform;
use crate::render::uniforms::MaterialUniform;
use crate::scalar::Float4;
use crate::scalar::Scalar;
use crate::scalar::UInt4;

verus! {

/// Something that is uploaded as words, always as many of them.
pub trait Block: Sized {
    /// The words of the block.
    spec fn words(self) -> Seq<u32>;

    /// How many words a block has.
    spec fn word_count() -> nat;

    /// A block has as many words as blocks of its kind have.
    proof fn lemma_word_count(self)
        ensures
            self.words().len() == Self::word_count(),
    ;

    /// How many words a block has.
    fn count() -> (count: usize)
        ensures
            count == Self::word_count(),
    ;

    /// Appends the words of the block.
    fn push_words(&self, out: &mut Vec<u32>)
        ensures
            final(out)@ == old(out)@ + self.words(),
    ;
}

/// The words of blocks one behind the other.
pub open spec fn all_words<T: Block>(list: Seq<T>) -> Seq<u32>
    decreases list.len(),
{
    if list.len() == 0 {
        Seq::empty()
    } else {
        all_words(list.drop_last()) + list.last().words()
    }
}

/// The words of blocks one behind the other.
pub fn list_words<T: Block>(list: &Vec<T>) -> (words: Vec<u32>)
    ensures
        words@ == all_words(list@),
{
    let mut words: Vec<u32> = Vec::new();
    let mut i: usize = 0;
    while i < list.len()
        invariant
            0 <= i <= list@.len(),
            words@ == all_words(list@.take(i as int)),
        decreases list@.len() - i,
    {
        assert(list@.take(i + 1).drop_last() =~= list@.take(i as int));
        list[i].push_words(&mut words);
        i = i + 1;
    }
    assert(list@.take(i as int) =~= list@);
    words
}

/// The words of a buffer that the kernel is given even if nothing is in it: a
/// buffer of nothing holds one block of zeros, since none can be bound
/// without.
pub fn bound_words<T: Block>(list: &Vec<T>) -> (words: Vec<u32>)
    ensures
        words@ == if list@.len() == 0 {
            Seq::new(T::word_count(), |i: int| 0u32)
        } else {
            all_words(list@)
        },
{
    if list.len() > 0 {
        return list_words(list);
    }
    let mut words: Vec<u32> = Vec::new();
    let count: usize = T::count();
    let mut i: usize = 0;
    while i < count
        invariant
            0 <= i <= count,
            words@ == Seq::new(i as nat, |k: int| 0u32),
        decreases count - i,
    {
        words.push(0);
        i = i + 1;
        assert(words@ =~= Seq::new(i as nat, |k: int| 0u32));
    }
    words
}

/// A block's words stand behind those of the blocks before it, which take up
/// as much room each.
pub proof fn lemma_place_of_block<T: Block>(list: Seq<T>, i: int)
    requires
        0 <= i < list.len(),
    ensures
        all_words(list).len() == list.len() * T::word_count(),
        0 <= i * T::word_count(),
        (i + 1) * T::word_count() <= all_words(list).len(),
        all_words(list).subrange(i * T::word_count(), (i + 1) * T::word_count())
            == list[i].words(),
    decreases list.len(),
{
    let before = list.drop_last();
    let size = T::word_count() as int;
    list.last().lemma_word_count();
    if before.len() > 0 {
        lemma_place_of_block(before, 0);
    } else {
        assert(all_words(before).len() == 0);
    }
    let all = all_words(list);
    assert(all_words(before).len() == before.len() * size);
    assert(all.len() == list.len() * size) by (nonlinear_arith)
        requires
            all.len() == (list.len() - 1) * size + size,
    ;
    assert(0 <= i * size && (i + 1) * size == i * size + size && (i + 1) * size <= list.len()
        * size) by (nonlinear_arith)
        requires
            0 <= i < list.len(),
            0 <= size,
    ;
    if i == list.len() - 1 {
        assert(all.subrange(i * size, (i + 1) * size) =~= list[i].words());
    } else {
        lemma_place_of_block(before, i);
        assert(before[i] == list[i]);
        assert(all.subrange(i * size, (i + 1) * size) =~= all_words(before).subrange(
            i * size,
            (i + 1) * size,
        ));
    }
}

impl Block for u32 {
    open spec fn words(self) -> Seq<u32> {
        seq![self]
    }

    open spec fn word_count() -> nat {
        1
    }

    proof fn lemma_word_count(self) {
    }

    fn count() -> (count: usize) {
        1
    }

    fn push_words(&self, out: &mut Vec<u32>) {
        out.push(*self);
        assert(out@ =~= old(out)@ + self.words());
    }
}

impl Block for Scalar {
    open spec fn words(self) -> Seq<u32> {
        seq![self.bits]
    }

    open spec fn word_count() -> nat {
        1
    }

    proof fn lemma_word_count(self) {
    }

    fn count() -> (count: usize) {
        1
    }

    fn push_words(&self, out: &mut Vec<u32>) {
        out.push(self.bits);
        assert(out@ =~= old(out)@ + self.words());
    }
}

impl Block for Float4 {
    open spec fn words(self) -> Seq<u32> {
        seq![self.x.bits, self.y.bits, self.z.bits, self.w.bits]
    }

    open spec fn word_count() -> nat {
        4
    }

    proof fn lemma_word_count(self) {
    }

    fn count() -> (count: usize) {
        4
    }

    fn push_words(&self, out: &mut Vec<u32>) {
        out.push(self.x.bits);
        out.push(self.y.bits);
        out.push(self.z.bits);
        out.push(self.w.bits);
        assert(out@ =~= old(out)@ + self.words());
    }
}

impl Block for UInt4 {
    open spec fn words(self) -> Seq<u32> {
        seq![self.x, self.y, self.z, self.w]
    }

    open spec fn word_count() -> nat {
        4
    }

    proof fn lemma_word_count(self) {
    }

    fn count() -> (count: usize) {
        4
    }

    fn push_words(&self, out: &mut Vec<u32>) {
        out.push(self.x);
        out.push(self.y);
        out.push(self.z);
        out.push(self.w);
        assert(out@ =~= old(out)@ + self.words());
    }
}

impl Block for CameraUniform {
    open spec fn words(self) -> Seq<u32> {
        self.eye.words() + self.right.words() + self.up.words() + self.forward.words()
            + self.misc.words()
    }

    open spec fn word_count() -> nat {
        20
    }

    proof fn lemma_word_count(self) {
    }

    fn count() -> (count: usize) {
        20
    }

    fn push_words(&self, out: &mut Vec<u32>) {
        self.eye.push_words(out);
        self.right.push_words(out);
        self.up.push_words(out);
        self.forward.push_words(out);
        self.misc.push_words(out);
        assert(out@ =~= old(out)@ + self.words());
    }
}

impl Block for MaterialUniform {
    open spec fn words(self) -> Seq<u32> {
        self.albedo.words() + self.params.words() + self.flags.words()
    }

    open spec fn word_count() -> nat {
        12
    }

    proof fn lemma_word_count(self) {
    }

    fn count() -> (count: usize) {
        12
    }

    fn push_words(&self, out: &mut Vec<u32>) {
        self.albedo.push_words(out);
        self.params.push_words(out);
        self.flags.push_words(out);
        assert(out@ =~= old(out)@ + self.words());
    }
}

impl Block for GeomOffset {
    open spec fn words(self) -> Seq<u32> {
        seq![self.vertex_offset, self.index_offset, self.is_indexed, self.pad]
    }

    open spec fn word_count() -> nat {
        4
    }

    proof fn lemma_word_count(self) {
    }

    fn count() -> (count: usize) {
        4
    }

    fn push_words(&self, out: &mut Vec<u32>) {
        out.push(self.vertex_offset);
        out.push(self.index_offset);
        out.push(self.is_indexed);
        out.push(self.pad);
        assert(out@ =~= old(out)@ + self.words());
    }
}

impl Block for LightSlot {
    open spec fn words(self) -> Seq<u32> {
        self.pos_or_dir.words() + self.color.words() + self.spot_dir.words()
            + self.range_cones.words() + self.flags.words()
    }

    open spec fn word_count() -> nat {
        20
    }

    proof fn lemma_word_count(self) {
    }

    fn count() -> (count: usize) {
        20
    }

    fn push_words(&self, out: &mut Vec<u32>) {
        self.pos_or_dir.push_words(out);
        self.color.push_words(out);
        self.spot_dir.push_words(out);
        self.range_cones.push_words(out);
        self.flags.push_words(out);
        assert(out@ =~= old(out)@ + self.words());
    }
}

impl Block for LightsUniform {
    open spec fn words(self) -> Seq<u32> {
        self.ambient.words() + self.meta.words() + self.slots@[0].words() + self.slots@[1].words()
            + self.slots@[2].words() + self.slots@[3].words()
    }

    open spec fn word_count() -> nat {
        88
    }

    proof fn lemma_word_count(self) {
    }

    fn count() -> (count: usize) {
        88
    }

    fn push_words(&self, out: &mut Vec<u32>) {
        self.ambient.push_words(out);
        self.meta.push_words(out);
        self.slots[0].push_words(out);
        self.slots[1].push_words(out);
        self.slots[2].push_words(out);
        self.slots[3].push_words(out);
        assert(out@ =~= old(out)@ + self.words());
    }
}

/// The words of a vector are its components' bits, in order.
pub proof fn lemma_vector_words(vector: Float4, tags: UInt4)
    ensures
        vector.words().len() == 4,
        vector.words()[0] == vector.x.bits,
        vector.words()[1] == vector.y.bits,
        vector.words()[2] == vector.z.bits,
        vector.words()[3] == vector.w.bits,
        tags.words().len() == 4,
        tags.words()[0] == tags.x,
        tags.words()[1] == tags.y,
        tags.words()[2] == tags.z,
        tags.words()[3] == tags.w,
{
}

/// A number is its own word, and a scalar's word is its bits.
pub proof fn lemma_single_words(number: u32, scalar: Scalar)
    ensures
        number.words().len() == 1,
        number.words()[0] == number,
        scalar.words().len() == 1,
        scalar.words()[0] == scalar.bits,
{
}

/// Where the kernel finds a camera's vectors: each begins four words behind
/// the one before.
pub proof fn lemma_camera_words(camera: CameraUniform, k: int)
    requires
        0 <= k < 4,
    ensures
        camera.words().len() == 20,
        camera.words()[k] == camera.eye.words()[k],
        camera.words()[4 + k] == camera.right.words()[k],
        camera.words()[8 + k] == camera.up.words()[k],
        camera.words()[12 + k] == camera.forward.words()[k],
        camera.words()[16 + k] == camera.misc.words()[k],
{
}

/// Where the kernel finds a material's vectors.
pub proof fn lemma_material_words(material: MaterialUniform, k: int)
    requires
        0 <= k < 4,
    ensures
        material.words().len() == 12,
        material.words()[k] == material.albedo.words()[k],
        material.words()[4 + k] == material.params.words()[k],
        material.words()[8 + k] == material.flags.words()[k],
{
}

/// Where the kernel finds a mesh's offsets.
pub proof fn lemma_offset_words(offset: GeomOffset)
    ensures
        offset.words().len() == 4,
        offset.words()[0] == offset.vertex_offset,
        offset.words()[1] == offset.index_offset,
        offset.words()[2] == offset.is_indexed,
        offset.words()[3] == offset.pad,
{
}

/// Where the kernel finds a light's vectors.
pub proof fn lemma_slot_words(slot: LightSlot, k: int)
    requires
        0 <= k < 4,
    ensures
        slot.words().len() == 20,
        slot.words()[k] == slot.pos_or_dir.words()[k],
        slot.words()[4 + k] == slot.color.words()[k],
        slot.words()[8 + k] == slot.spot_dir.words()[k],
        slot.words()[12 + k] == slot.range_cones.words()[k],
        slot.words()[16 + k] == slot.flags.words()[k],
{
}

/// Where the kernel finds the ambient light, the count, and each light: behind
/// eight words, twenty words apart.
pub proof fn lemma_lights_words(lights: LightsUniform, slot: int, k: int)
    requires
        0 <= slot < 4,
        0 <= k < 20,
    ensures
        lights.words().len() == 88,
        k < 4 ==> lights.words()[k] == lights.ambient.words()[k],
        k < 4 ==> lights.words()[4 + k] == lights.meta.words()[k],
        lights.words()[8 + 20 * slot + k] == lights.slots@[slot].words()[k],
{
    if slot == 0 {
    } else if slot == 1 {
    } else if slot == 2 {
    } else {
        assert(slot == 3);
    }
}

} // verus!
