//! Binding tables sized for the fixed ring of frame slots.
//!
//! A `Descriptor` owns one binding-table instance per frame slot plus the
//! write templates the pipeline pre-built for it. A steady-state update only
//! ever targets the instance of the slot that is current when the actor
//! executes it; the one-time path writes every instance at once.

use vstd::prelude::*;

use crate::write_descriptor_info::WriteDescriptorInfo;
use crate::MAX_FRAMES_IN_FLIGHT;

verus! {

/// One device-level write into a binding table: which table instance, which
/// binding slot in it, what descriptor kind, and what it is pointed at.
/// `descriptor_type` is the raw device descriptor-type value.
#[derive(Clone, Copy, Debug, PartialEq, Eq, Structural)]
pub struct DescriptorWrite {
    pub dst_set: u64,
    pub dst_binding: u32,
    pub descriptor_type: i32,
    pub info: WriteDescriptorInfo,
}

/// A binding-table pool, its per-frame-slot table instances, and the
/// descriptor kind of each binding, in binding-index order.
/// Handles are raw device object ids.
#[derive(Debug)]
pub struct Descriptor {
    pub descriptor_pool: u64,
    pub descriptor_set: Vec<u64>,
    pub binding_types: Vec<i32>,
}

impl Clone for Descriptor {
    /// An exact copy: same pool, same table instances, same binding kinds.
    fn clone(&self) -> (r: Self)
        ensures
            r.descriptor_pool == self.descriptor_pool,
            r.descriptor_set@ == self.descriptor_set@,
            r.binding_types@ == self.binding_types@,
    {
        Descriptor {
            descriptor_pool: self.descriptor_pool,
            descriptor_set: clone_u64s(&self.descriptor_set),
            binding_types: clone_i32s(&self.binding_types),
        }
    }
}

fn clone_u64s(v: &Vec<u64>) -> (r: Vec<u64>)
    ensures
        r@ == v@,
{
    let mut r: Vec<u64> = Vec::new();
    let mut i: usize = 0;
    while i < v.len()
        invariant
            i <= v@.len(),
            r@ == v@.take(i as int),
        decreases v@.len() - i,
    {
        r.push(v[i]);
        proof {
            assert(r@ =~= v@.take(i + 1));
        }
        i = i + 1;
    }
    proof {
        assert(r@ =~= v@);
    }
    r
}

fn clone_i32s(v: &Vec<i32>) -> (r: Vec<i32>)
    ensures
        r@ == v@,
{
    let mut r: Vec<i32> = Vec::new();
    let mut i: usize = 0;
    while i < v.len()
        invariant
            i <= v@.len(),
            r@ == v@.take(i as int),
        decreases v@.len() - i,
    {
        r.push(v[i]);
        proof {
            assert(r@ =~= v@.take(i + 1));
        }
        i = i + 1;
    }
    proof {
        assert(r@ =~= v@);
    }
    r
}

impl Descriptor {
    /// A descriptor is well formed when it carries exactly one binding-table
    /// instance per frame slot.
    pub open spec fn wf(self) -> bool {
        self.descriptor_set@.len() == MAX_FRAMES_IN_FLIGHT
    }

    /// Number of bindings in each table instance.
    pub open spec fn spec_binding_count(self) -> nat {
        self.binding_types@.len()
    }

    pub fn binding_count(&self) -> (r: usize)
        ensures
            r == self.spec_binding_count(),
    {
        self.binding_types.len()
    }

    /// The writes that fill the table instance of frame slot `slot` with the
    /// given payloads: payload `i` lands in binding `i` of that one instance.
    pub open spec fn spec_writes_for_slot(self, infos: Seq<WriteDescriptorInfo>, slot: int) -> Seq<
        DescriptorWrite,
    > {
        Seq::new(
            infos.len(),
            |i: int|
                DescriptorWrite {
                    dst_set: self.descriptor_set@[slot],
                    dst_binding: i as u32,
                    descriptor_type: self.binding_types@[i],
                    info: infos[i],
                },
        )
    }

    /// Build the writes that update the binding-table instance of one frame
    /// slot, one write per payload, binding `i` taking payload `i`.
    pub fn writes_for_slot(&self, infos: &Vec<WriteDescriptorInfo>, slot: usize) -> (r: Vec<
        DescriptorWrite,
    >)
        requires
            self.wf(),
            slot < MAX_FRAMES_IN_FLIGHT,
            infos@.len() == self.spec_binding_count(),
            infos@.len() <= u32::MAX,
        ensures
            r@ == self.spec_writes_for_slot(infos@, slot as int),
    {
        let dst_set = self.descriptor_set[slot];
        let mut r: Vec<DescriptorWrite> = Vec::new();
        let mut i: usize = 0;
        while i < infos.len()
            invariant
                i <= infos@.len(),
                infos@.len() == self.spec_binding_count(),
                infos@.len() <= u32::MAX,
                slot < self.descriptor_set@.len(),
                dst_set == self.descriptor_set@[slot as int],
                r@ == self.spec_writes_for_slot(infos@, slot as int).take(i as int),
            decreases infos@.len() - i,
        {
            r.push(
                DescriptorWrite {
                    dst_set,
                    dst_binding: i as u32,
                    descriptor_type: self.binding_types[i],
                    info: infos[i],
                },
            );
            proof {
                assert(r@ =~= self.spec_writes_for_slot(infos@, slot as int).take(i + 1));
            }
            i = i + 1;
        }
        proof {
            assert(r@ =~= self.spec_writes_for_slot(infos@, slot as int));
        }
        r
    }

    /// The writes of the synchronous one-time update path, which fills the
    /// table instances of all frame slots at once, slot by slot.
    pub open spec fn spec_writes_once(self, infos: Seq<WriteDescriptorInfo>) -> Seq<
        DescriptorWrite,
    > {
        Seq::new(MAX_FRAMES_IN_FLIGHT as nat, |s: int| self.spec_writes_for_slot(infos, s)).flatten()
    }

    /// Build the writes that fill every frame slot's table instance with the
    /// same payloads, used for bindings that never change per frame.
    pub fn writes_once(&self, infos: &Vec<WriteDescriptorInfo>) -> (r: Vec<DescriptorWrite>)
        requires
            self.wf(),
            infos@.len() == self.spec_binding_count(),
            infos@.len() <= u32::MAX,
        ensures
            r@ == self.spec_writes_once(infos@),
    {
        let mut r: Vec<DescriptorWrite> = Vec::new();
        let mut slot: usize = 0;
        while slot < MAX_FRAMES_IN_FLIGHT
            invariant
                slot <= MAX_FRAMES_IN_FLIGHT,
                self.wf(),
                infos@.len() == self.spec_binding_count(),
                infos@.len() <= u32::MAX,
                r@ == Seq::new(slot as nat, |s: int| self.spec_writes_for_slot(infos@, s)).flatten(),
            decreases MAX_FRAMES_IN_FLIGHT - slot,
        {
            let mut w = self.writes_for_slot(infos, slot);
            r.append(&mut w);
            proof {
                let per_slot = |s: int| self.spec_writes_for_slot(infos@, s);
                assert(Seq::new((slot + 1) as nat, per_slot).drop_last() =~= Seq::new(
                    slot as nat,
                    per_slot,
                ));
                Seq::new((slot + 1) as nat, per_slot).lemma_flatten_and_flatten_alt_are_equivalent();
                Seq::new(slot as nat, per_slot).lemma_flatten_and_flatten_alt_are_equivalent();
                assert(r@ =~= Seq::new((slot + 1) as nat, per_slot).flatten_alt());
            }
            slot = slot + 1;
        }
        r
    }
}

} // verus!
