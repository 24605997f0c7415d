//! Simulated PTZ camera: an in-memory reference implementation of the
//! controller contract, with no hardware or network dependency. It is
//! the executable specification of clamping behavior that the network
//! clients reproduce at the boundary of their native ranges.

use crate::controller::{PtzController, PtzError};
use crate::norm::{clamp_i64, clamp_pan_tilt, clamp_spec, clamp_zoom};
use crate::text::{append_dec_u8, dec_u8};
use crate::types::PtzPosition;
use std::collections::HashMap;
use vstd::prelude::*;
use vstd::string::*;

verus! {

broadcast use vstd::std_specs::hash::group_hash_axioms;

/// The position reached by an absolute move: each axis clamped to its
/// legal normalized range.
pub open spec fn clamped_position(pan: int, tilt: int, zoom: int) -> PtzPosition {
    PtzPosition {
        pan: clamp_spec(pan, -1000, 1000) as i32,
        tilt: clamp_spec(tilt, -1000, 1000) as i32,
        zoom: clamp_spec(zoom, 0, 1000) as i32,
    }
}

/// The error detail reported when recalling a preset index that was
/// never stored; it names the index.
pub open spec fn missing_preset_detail(index: int) -> Seq<char> {
    "No preset stored at index "@ + dec_u8(index)
}

/// Transfers preset well-formedness across an unchanged preset map.
proof fn lemma_preset_map_wf_unchanged(old_m: Map<u8, PtzPosition>, new_m: Map<u8, PtzPosition>)
    requires
        new_m == old_m,
        forall|i: u8| old_m.dom().contains(i) ==> (#[trigger] old_m[i]).well_formed(),
    ensures
        forall|i: u8| new_m.dom().contains(i) ==> (#[trigger] new_m[i]).well_formed(),
{
}

/// Simulated PTZ camera for development and demo use: tracks the
/// current position and a map from preset index to saved position.
pub struct SimulatedController {
    position: PtzPosition,
    presets: HashMap<u8, PtzPosition>,
}

impl SimulatedController {
    /// The current position.
    pub closed spec fn position_spec(&self) -> PtzPosition {
        self.position
    }

    /// The stored camera-native presets.
    pub closed spec fn presets_spec(&self) -> Map<u8, PtzPosition> {
        self.presets@
    }

    pub fn new() -> (c: Self)
        ensures
            c.position_spec() == (PtzPosition { pan: 0, tilt: 0, zoom: 0 }),
            c.presets_spec() == Map::<u8, PtzPosition>::empty(),
            c.inv(),
    {
        SimulatedController { position: PtzPosition::default(), presets: HashMap::new() }
    }
}

impl Default for SimulatedController {
    fn default() -> (c: Self)
        ensures
            c.position_spec() == (PtzPosition { pan: 0, tilt: 0, zoom: 0 }),
            c.presets_spec() == Map::<u8, PtzPosition>::empty(),
            c.inv(),
    {
        SimulatedController::new()
    }
}

impl PtzController for SimulatedController {
    /// The tracked position and every stored preset are well-formed.
    open spec fn inv(&self) -> bool {
        &&& self.position_spec().well_formed()
        &&& forall|i: u8|
            self.presets_spec().dom().contains(i) ==> (#[trigger] self.presets_spec()[i]).well_formed()
    }

    /// Clamps each axis and overwrites the position in place.
    fn move_absolute(&mut self, pan: i32, tilt: i32, zoom: i32) -> (r: Result<(), PtzError>)
        ensures
            r is Ok,
            final(self).position_spec() == clamped_position(pan as int, tilt as int, zoom as int),
            final(self).presets_spec() == old(self).presets_spec(),
    {
        self.position = PtzPosition {
            pan: clamp_pan_tilt(pan),
            tilt: clamp_pan_tilt(tilt),
            zoom: clamp_zoom(zoom),
        };
        proof {
            lemma_preset_map_wf_unchanged(old(self).presets_spec(), self.presets_spec());
        }
        Ok(())
    }

    /// Accumulates the deltas against the tracked position, clamping
    /// at the bounds; zoom is unchanged.
    fn move_relative(&mut self, pan_delta: i32, tilt_delta: i32) -> (r: Result<(), PtzError>)
        ensures
            r is Ok,
            final(self).position_spec() == (PtzPosition {
                pan: clamp_spec(old(self).position_spec().pan + pan_delta, -1000, 1000) as i32,
                tilt: clamp_spec(old(self).position_spec().tilt + tilt_delta, -1000, 1000) as i32,
                zoom: old(self).position_spec().zoom,
            }),
            final(self).presets_spec() == old(self).presets_spec(),
    {
        let pan = clamp_i64(self.position.pan as i64 + pan_delta as i64, -1000, 1000) as i32;
        let tilt = clamp_i64(self.position.tilt as i64 + tilt_delta as i64, -1000, 1000) as i32;
        self.position = PtzPosition { pan, tilt, zoom: self.position.zoom };
        proof {
            lemma_preset_map_wf_unchanged(old(self).presets_spec(), self.presets_spec());
        }
        Ok(())
    }

    /// Clamps and overwrites the zoom; pan and tilt are unchanged.
    fn zoom_to(&mut self, zoom: i32) -> (r: Result<(), PtzError>)
        ensures
            r is Ok,
            final(self).position_spec() == (PtzPosition {
                pan: old(self).position_spec().pan,
                tilt: old(self).position_spec().tilt,
                zoom: clamp_spec(zoom as int, 0, 1000) as i32,
            }),
            final(self).presets_spec() == old(self).presets_spec(),
    {
        self.position.zoom = clamp_zoom(zoom);
        proof {
            lemma_preset_map_wf_unchanged(old(self).presets_spec(), self.presets_spec());
        }
        Ok(())
    }

    /// Recalling a stored index restores the exact stored position;
    /// recalling an unset index fails and names the index.
    fn recall_preset(&mut self, preset_index: u8) -> (r: Result<(), PtzError>)
        ensures
            final(self).presets_spec() == old(self).presets_spec(),
            old(self).presets_spec().contains_key(preset_index) ==> r is Ok
                && final(self).position_spec() == old(self).presets_spec()[preset_index],
            !old(self).presets_spec().contains_key(preset_index) ==> *final(self) == *old(self)
                && (r matches Err(PtzError::CommandFailed(m))
                && m@ == missing_preset_detail(preset_index as int)),
    {
        match self.presets.get(&preset_index) {
            Some(stored) => {
                self.position = *stored;
                proof {
                    lemma_preset_map_wf_unchanged(old(self).presets_spec(), self.presets_spec());
                }
                Ok(())
            },
            None => {
                let mut m = String::from_str("No preset stored at index ");
                append_dec_u8(&mut m, preset_index);
                Err(PtzError::CommandFailed(m))
            },
        }
    }

    /// Saves the current position under the index, overwriting any
    /// previous preset there.
    fn store_preset(&mut self, preset_index: u8) -> (r: Result<(), PtzError>)
        ensures
            r is Ok,
            final(self).position_spec() == old(self).position_spec(),
            final(self).presets_spec() == old(self).presets_spec().insert(
                preset_index,
                old(self).position_spec(),
            ),
    {
        let snapshot = self.position;
        self.presets.insert(preset_index, snapshot);
        proof {
            assert forall|i: u8| self.presets_spec().dom().contains(i) implies (
            #[trigger] self.presets_spec()[i]).well_formed() by {
                if i != preset_index {
                    assert(old(self).presets_spec().dom().contains(i));
                    assert(self.presets_spec()[i] == old(self).presets_spec()[i]);
                }
            }
        }
        Ok(())
    }

    /// Returns the tracked position.
    fn get_position(&self) -> (r: Result<PtzPosition, PtzError>)
        ensures
            r == Ok::<PtzPosition, PtzError>(self.position_spec()),
    {
        Ok(self.position)
    }

    /// The simulator is always reachable.
    fn test_connection(&self) -> (r: Result<(), PtzError>)
        ensures
            r == Ok::<(), PtzError>(()),
    {
        Ok(())
    }
}

/// Law: storing a preset, moving elsewhere, then recalling that preset
/// restores the exact stored position. The hypotheses are the
/// postconditions of `store_preset`, `move_absolute`, and
/// `recall_preset` on the intermediate controller states.
pub proof fn lemma_preset_round_trip(
    c0: SimulatedController,
    c1: SimulatedController,
    c2: SimulatedController,
    c3: SimulatedController,
    index: u8,
    pan: int,
    tilt: int,
    zoom: int,
)
    requires
        c1.presets_spec() == c0.presets_spec().insert(index, c0.position_spec()),
        c1.position_spec() == c0.position_spec(),
        c2.position_spec() == clamped_position(pan, tilt, zoom),
        c2.presets_spec() == c1.presets_spec(),
        c2.presets_spec().contains_key(index) ==> c3.position_spec() == c2.presets_spec()[index],
    ensures
        c3.position_spec() == c0.position_spec(),
{
    assert(c2.presets_spec().contains_key(index));
    assert(c2.presets_spec()[index] == c0.position_spec());
}

} // verus!
