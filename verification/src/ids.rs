use vstd::prelude::*;
use vstd::std_specs::hash::DefaultHasherAdditionalSpecFns;
use vstd::string::StringSliceAdditionalSpecFns;
use std::collections::hash_map::DefaultHasher;
use core::hash::Hasher;

verus! {

/// The stable hash of one chunk of bytes, as std's `DefaultHasher` computes it
/// when fed that chunk by a single `write`. Identifiers derived from names are
/// this hash of the name's UTF-8 bytes, so equal names always give equal ids.
pub open spec fn stable_hash_of(bytes: Seq<u8>) -> u64 {
    DefaultHasher::spec_finish(seq![bytes])
}

/// The decimal digits of `n`, as ASCII bytes, most significant digit first.
pub open spec fn decimal_bytes(n: nat) -> Seq<u8>
    decreases n,
{
    if n < 10 {
        seq![(48 + n) as u8]
    } else {
        decimal_bytes(n / 10).push((48 + n % 10) as u8)
    }
}

/// Write `n` in decimal, most significant digit first, as ASCII bytes.
pub fn u64_decimal_bytes(n: u64) -> (r: Vec<u8>)
    ensures
        r@ == decimal_bytes(n as nat),
    decreases n,
{
    if n < 10 {
        let mut r: Vec<u8> = Vec::new();
        r.push(48 + (n as u8));
        proof {
            assert(r@ =~= decimal_bytes(n as nat));
        }
        r
    } else {
        let mut r = u64_decimal_bytes(n / 10);
        r.push(48 + ((n % 10) as u8));
        proof {
            assert(r@ =~= decimal_bytes(n as nat));
        }
        r
    }
}

/// Append every byte of `src` to `dst`, in order.
pub(crate) fn push_bytes(dst: &mut Vec<u8>, src: &[u8])
    ensures
        final(dst)@ == old(dst)@ + src@,
{
    let mut i: usize = 0;
    while i < src.len()
        invariant
            i <= src@.len(),
            dst@ == old(dst)@ + src@.take(i as int),
        decreases src@.len() - i,
    {
        dst.push(src[i]);
        i = i + 1;
        proof {
            assert(old(dst)@ + src@.take(i as int) =~= (old(dst)@ + src@.take(i - 1)).push(
                src@[i - 1],
            ));
        }
    }
    proof {
        assert(old(dst)@ + src@.take(src@.len() as int) =~= old(dst)@ + src@);
    }
}

/// Finish a stable hash over one chunk of bytes.
fn hash_bytes(bytes: &[u8]) -> (r: u64)
    ensures
        r == stable_hash_of(bytes@),
{
    let mut hasher = DefaultHasher::new();
    hasher.write(bytes);
    proof {
        assert(hasher@ =~= seq![bytes@]);
    }
    hasher.finish()
}

/// Stable identifier of a named GPU resource: the hash of its logical name.
/// Distinct names may collide; the design accepts that risk, and an id is
/// never reused for a different logical resource by convention.
#[derive(Debug, Clone, Copy, PartialEq, Eq, Hash, Structural)]
pub struct ResourceId(pub u64);

/// The id derived from a base id and a suffix: the hash of the base id's
/// decimal digits followed by the suffix. The resource manager indexes a
/// mesh's buffers under such ids.
pub open spec fn sub_id_of(base: u64, suffix: Seq<u8>) -> u64 {
    stable_hash_of(decimal_bytes(base as nat) + suffix)
}

/// The id of an indexed resource name: the hash of the name followed by the
/// index's decimal digits. Scenes name their per-object meshes this way.
pub open spec fn indexed_id_of(name: Seq<u8>, n: u64) -> u64 {
    stable_hash_of(name + decimal_bytes(n as nat))
}

impl ResourceId {
    /// Derive the id of a logical resource name. Deterministic: the result
    /// depends only on the name's characters.
    pub fn new(name: &str) -> (r: ResourceId)
        ensures
            r.0 == stable_hash_of(name.spec_bytes()),
    {
        ResourceId(hash_bytes(name.as_bytes()))
    }

    /// The id named by this id's decimal digits followed by `suffix`.
    pub fn sub_id(&self, suffix: &str) -> (r: ResourceId)
        ensures
            r.0 == sub_id_of(self.0, suffix.spec_bytes()),
    {
        let mut bytes = u64_decimal_bytes(self.0);
        push_bytes(&mut bytes, suffix.as_bytes());
        ResourceId(hash_bytes(bytes.as_slice()))
    }

    /// The id named by `name` followed by the decimal digits of `n`.
    pub fn indexed(name: &str, n: u64) -> (r: ResourceId)
        ensures
            r.0 == indexed_id_of(name.spec_bytes(), n),
    {
        let mut bytes: Vec<u8> = Vec::new();
        push_bytes(&mut bytes, name.as_bytes());
        let digits = u64_decimal_bytes(n);
        push_bytes(&mut bytes, digits.as_slice());
        proof {
            assert(Seq::<u8>::empty() + name.spec_bytes() + decimal_bytes(n as nat)
                =~= name.spec_bytes() + decimal_bytes(n as nat));
        }
        ResourceId(hash_bytes(bytes.as_slice()))
    }
}

/// Law: resource ids are deterministic. Two names with the same characters
/// hash to the same id, in every call.
pub proof fn lemma_resource_id_deterministic(name1: &str, name2: &str)
    requires
        name1@ == name2@,
    ensures
        stable_hash_of(name1.spec_bytes()) == stable_hash_of(name2.spec_bytes()),
{
}

/// Stable identifier of a registered scene: the hash of its name, derived
/// exactly as resource ids are.
#[derive(Debug, Clone, Copy, PartialEq, Eq, Hash, Structural)]
pub struct SceneId(pub u64);

impl SceneId {
    /// Derive the id of a scene name. Deterministic, like `ResourceId::new`.
    pub fn new(name: &str) -> (r: SceneId)
        ensures
            r.0 == stable_hash_of(name.spec_bytes()),
    {
        SceneId(hash_bytes(name.as_bytes()))
    }
}

/// Source of unique render-object ids: a monotonic counter starting at 1,
/// never reset while its owner lives.
#[derive(Debug, Clone, Copy, PartialEq, Eq, Structural)]
pub struct ObjectIdAllocator {
    pub next: u32,
}

impl ObjectIdAllocator {
    /// A fresh counter, whose first id will be 1.
    pub fn new() -> (a: ObjectIdAllocator)
        ensures
            a.next == 1,
    {
        ObjectIdAllocator { next: 1 }
    }
}

/// Unique identifier of one render object within a scene.
#[derive(Debug, Clone, Copy, PartialEq, Eq, Hash, Structural)]
pub struct ObjectId(pub u32);

impl ObjectId {
    /// Draw the next id from the counter. Ids come out strictly increasing,
    /// so no two calls on one counter return the same id.
    pub fn generate(ids: &mut ObjectIdAllocator) -> (r: ObjectId)
        requires
            old(ids).next < u32::MAX,
        ensures
            r.0 == old(ids).next,
            final(ids).next == old(ids).next + 1,
    {
        let id = ObjectId(ids.next);
        ids.next = ids.next + 1;
        id
    }

    /// The numeric value of this id.
    pub fn as_u32(self) -> (r: u32)
        ensures
            r == self.0,
    {
        self.0
    }
}

} // verus!
