use vstd::prelude::*;

verus! {

/// Microseconds of echo round trip per centimetre of distance.
pub const US_PER_CM: u16 = 58;

/// Ticks elapsed from `start` to `end` on a 16-bit counter that may have wrapped.
pub open spec fn elapsed_ticks(start: u16, end: u16) -> u16 {
    ((end as int - start as int) % 0x10000) as u16
}

/// What a `DistanceMeasurer` holds: the edge that still waits for its partner,
/// and the length of the last completed pulse in microseconds.
pub struct MeasurerModel {
    pub pending_edge: Option<u16>,
    pub last_duration: u16,
}

impl MeasurerModel {
    /// The state after one more edge at time `t`.
    pub open spec fn after_edge(self, t: u16) -> MeasurerModel {
        match self.pending_edge {
            None => MeasurerModel { pending_edge: Some(t), last_duration: self.last_duration },
            Some(p) => MeasurerModel { pending_edge: None, last_duration: elapsed_ticks(p, t) },
        }
    }

    /// Waiting for a first edge, with no pulse measured yet.
    pub open spec fn fresh() -> MeasurerModel {
        MeasurerModel { pending_edge: None, last_duration: u16::MAX }
    }

    /// The state after the edge in `t`, if there was one.
    pub open spec fn after_capture(self, t: Option<u16>) -> MeasurerModel {
        match t {
            Some(t) => self.after_edge(t),
            None => self,
        }
    }

    pub open spec fn distance_cm(self) -> u16 {
        (self.last_duration / US_PER_CM) as u16
    }
}

/// Turns pairs of capture timestamps on one echo pin into a pulse length.
pub struct DistanceMeasurer {
    rising: Option<u16>,
    time_us: u16,
}

impl View for DistanceMeasurer {
    type V = MeasurerModel;

    closed spec fn view(&self) -> MeasurerModel {
        MeasurerModel { pending_edge: self.rising, last_duration: self.time_us }
    }
}

impl DistanceMeasurer {
    /// Distance of the last completed echo; `u16::MAX / 58` before the first one.
    pub fn get_distance_cm(&self) -> (r: u16)
        ensures
            r == self@.distance_cm(),
    {
        self.time_us / US_PER_CM
    }

    /// Records one edge; `t` is the capture time in microseconds.
    pub fn update_measurment(&mut self, t: u16)
        ensures
            final(self)@ == old(self)@.after_edge(t),
    {
        self.rising = match self.rising {
            None => Some(t),
            Some(p) => {
                self.time_us = t.wrapping_sub(p);
                None
            },
        };
    }

    pub fn new() -> (r: Self)
        ensures
            r@ == MeasurerModel::fresh(),
    {
        Self { rising: None, time_us: u16::MAX }
    }
}

/// Distance of a fresh pair of edges at `t1` and `t2`: the measurer that waited for
/// no edge reports the wrapped difference of the two timestamps over 58, and waits
/// for no edge again.
pub proof fn lemma_edge_pair_distance(m: MeasurerModel, t1: u16, t2: u16)
    requires
        m.pending_edge is None,
    ensures
        m.after_edge(t1).after_edge(t2).distance_cm() == ((t2 as int - t1 as int) % 0x10000) / 58,
        m.after_edge(t1).after_edge(t2).pending_edge is None,
{
}

/// The two ultrasonic channels: straight ahead and to the side.
pub struct Measurements {
    pub front: DistanceMeasurer,
    pub side: DistanceMeasurer,
}

impl Measurements {
    pub fn new() -> (r: Self)
        ensures
            r.front@ == MeasurerModel::fresh(),
            r.side@ == MeasurerModel::fresh(),
    {
        Measurements { front: DistanceMeasurer::new(), side: DistanceMeasurer::new() }
    }

    /// Feeds the edges captured on each channel during one capture interrupt.
    pub fn record_captures(&mut self, front: Option<u16>, side: Option<u16>)
        ensures
            final(self).front@ == old(self).front@.after_capture(front),
            final(self).side@ == old(self).side@.after_capture(side),
    {
        if let Some(t) = front {
            self.front.update_measurment(t);
        }
        if let Some(t) = side {
            self.side.update_measurment(t);
        }
    }
}

} // verus!
