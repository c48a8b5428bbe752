//! Archetypes: typed compositions of components that are read and written
//! together, with the encode/decode round-trip law every member must carry.

use vstd::prelude::*;

use crate::row::Cell;
use crate::serialization::{Deserializeable, Serializable};

verus! {

/// A typed composition of components, written as one batch and read back
/// through one joined query.
///
/// Every archetype carries the round-trip law: a row segment that holds
/// exactly the archetype's encoded field values decodes back to an equal
/// value, which is what makes an insert followed by a get return the value
/// that was inserted.
pub trait Archetype: Serializable + Deserializeable {
    /// The encoded field list is exactly as wide as one decode pass.
    proof fn law_values_width(&self)
        ensures
            self.spec_values().len() == Self::spec_width(),
    ;

    /// A row segment holding exactly this value's encoded fields decodes
    /// successfully, and any value read back from that segment equals this
    /// one.
    proof fn law_round_trip(&self, other: Self, row: Seq<Cell>, at: int)
        requires
            0 <= at,
            at + Self::spec_width() <= row.len(),
            forall|i: int|
                0 <= i < self.spec_values().len() ==> row[at + i] == Some(self.spec_values()[i]),
            other.spec_read_back(row, at),
        ensures
            Self::spec_accepts(row, at),
            other == *self,
    ;
}

impl<A: Archetype, B: Archetype> Archetype for (A, B) {
    proof fn law_values_width(&self) {
        self.0.law_values_width();
        self.1.law_values_width();
    }

    proof fn law_round_trip(&self, other: Self, row: Seq<Cell>, at: int) {
        self.0.law_values_width();
        self.1.law_values_width();
        let va = self.0.spec_values();
        let vb = self.1.spec_values();
        assert forall|i: int| 0 <= i < va.len() implies row[at + i] == Some(va[i]) by {
            assert(self.spec_values()[i] == va[i]);
        }
        assert forall|i: int| 0 <= i < vb.len() implies row[at + va.len() + i] == Some(
            vb[i],
        ) by {
            assert(self.spec_values()[va.len() + i] == vb[i]);
        }
        self.0.law_round_trip(other.0, row, at);
        self.1.law_round_trip(other.1, row, at + va.len());
    }
}

impl<A: Archetype, B: Archetype, C: Archetype> Archetype for (A, B, C) {
    proof fn law_values_width(&self) {
        self.0.law_values_width();
        self.1.law_values_width();
        self.2.law_values_width();
    }

    proof fn law_round_trip(&self, other: Self, row: Seq<Cell>, at: int) {
        self.0.law_values_width();
        self.1.law_values_width();
        self.2.law_values_width();
        let va = self.0.spec_values();
        let vb = self.1.spec_values();
        let vc = self.2.spec_values();
        assert forall|i: int| 0 <= i < va.len() implies row[at + i] == Some(va[i]) by {
            assert(self.spec_values()[i] == va[i]);
        }
        assert forall|i: int| 0 <= i < vb.len() implies row[at + va.len() + i] == Some(
            vb[i],
        ) by {
            assert(self.spec_values()[va.len() + i] == vb[i]);
        }
        assert forall|i: int| 0 <= i < vc.len() implies row[at + va.len() + vb.len() + i] == Some(
            vc[i],
        ) by {
            assert(self.spec_values()[va.len() + vb.len() + i] == vc[i]);
        }
        self.0.law_round_trip(other.0, row, at);
        self.1.law_round_trip(other.1, row, at + va.len());
        self.2.law_round_trip(other.2, row, at + va.len() + vb.len());
    }
}

} // verus!
