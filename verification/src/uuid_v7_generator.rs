//! A UUID v7 generator that packs a node id and a per-process counter into
//! the counter bits of each drawn uuid:
//! `[timestamp (48)] [version (4)] [variant (2)] [node_id (16) + counter (counter_bits)] [random]`.

use vstd::prelude::*;

use crate::clock::{secs_since_unix_epoch, system_time_now};

pub use crate::clock::ClockError;

verus! {

#[verifier::external_type_specification]
#[verifier::external_body]
pub struct ExUuid(uuid::Uuid);

#[verifier::external_type_specification]
#[verifier::external_body]
pub struct ExTimestamp(uuid::Timestamp);

/// Relies on uuid::Timestamp::from_unix_time: it stores the given Unix time,
/// counter value and counter width for a later v7 build.
pub assume_specification[ uuid::Timestamp::from_unix_time ](
    seconds: u64,
    subsec_nanos: u32,
    counter: u128,
    usable_counter_bits: u8,
) -> (r: uuid::Timestamp);

/// Relies on uuid::Uuid::new_v7: it builds a version-7 uuid from the
/// timestamp's time and counter bits, filling the leftover bits at random, so
/// nothing is promised of the result.
pub assume_specification[ uuid::Uuid::new_v7 ](ts: uuid::Timestamp) -> (r: uuid::Uuid);

/// Generator state: the node id for sharding, the running counter, and how
/// many of the uuid's counter bits the counter occupies (the node id takes 16
/// more).
pub struct UuidV7Generator {
    node_id: u16,
    counter: u32,
    counter_bits: u8,
}

/// The node id shifted above the counter bits, with the counter in the low
/// bits.
pub open spec fn spec_combined(node_id: u16, counter: u32, counter_bits: u8) -> u128 {
    ((node_id as u128) << (counter_bits as u128)) | (counter as u128)
}

/// `c + 1`, wrapping at the `u32` boundary.
pub open spec fn wrapping_inc(c: u32) -> u32 {
    if c == u32::MAX {
        0
    } else {
        (c + 1) as u32
    }
}

impl UuidV7Generator {
    pub closed spec fn spec_node_id(self) -> u16 {
        self.node_id
    }

    pub closed spec fn spec_counter(self) -> u32 {
        self.counter
    }

    pub closed spec fn spec_counter_bits(self) -> u8 {
        self.counter_bits
    }

    /// The counter width leaves room for the 16 node bits within the 128-bit
    /// counter a v7 timestamp can hold.
    pub open spec fn wf(self) -> bool {
        self.spec_counter_bits() <= 112
    }

    /// A generator with the recommended counter width.
    pub fn with_default_counter_bits(node_id: u16) -> (g: Self)
        ensures
            g.wf(),
            g.spec_node_id() == node_id,
            g.spec_counter() == 0,
            g.spec_counter_bits() == 24,
    {
        Self::new(node_id, 24)
    }

    pub fn new(node_id: u16, counter_bits: u8) -> (g: Self)
        ensures
            g.spec_node_id() == node_id,
            g.spec_counter() == 0,
            g.spec_counter_bits() == counter_bits,
    {
        UuidV7Generator { node_id, counter: 0, counter_bits }
    }

    /// How many bits of the uuid's counter field the counter occupies.
    pub fn counter_bits(&self) -> (r: u8)
        ensures
            r == self.spec_counter_bits(),
    {
        self.counter_bits
    }

    /// The counter field of the next uuid: node id and current counter
    /// packed together.
    pub fn combined(&self) -> (r: u128)
        requires
            self.wf(),
        ensures
            r == spec_combined(self.spec_node_id(), self.spec_counter(), self.spec_counter_bits()),
    {
        ((self.node_id as u128) << (self.counter_bits as u32)) | (self.counter as u128)
    }

    /// Draw a uuid for the current system time, advancing the counter by one
    /// (wrapping). On a clock error the generator is unchanged.
    pub fn now_uuid(&mut self) -> (r: Result<uuid::Uuid, ClockError>)
        requires
            old(self).wf(),
        ensures
            final(self).wf(),
            final(self).spec_node_id() == old(self).spec_node_id(),
            final(self).spec_counter_bits() == old(self).spec_counter_bits(),
            r is Ok ==> final(self).spec_counter() == wrapping_inc(old(self).spec_counter()),
            r is Err ==> *final(self) == *old(self),
    {
        let t = system_time_now();
        let (sec, nanos) = match secs_since_unix_epoch(t) {
            Ok(p) => p,
            Err(_) => {
                return Err(ClockError);
            },
        };
        let combined = self.combined();
        self.counter = if self.counter == u32::MAX {
            0
        } else {
            self.counter + 1
        };
        // the counter width handed on counts the node id's 16 bits too
        let ts = uuid::Timestamp::from_unix_time(sec, nanos, combined, self.counter_bits + 16);
        Ok(uuid::Uuid::new_v7(ts))
    }
}

} // verus!
