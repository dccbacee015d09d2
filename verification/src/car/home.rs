//! The home's recent consumption: the last few samples of what the whole
//! home draws, from which the load without the vehicle is estimated.

use vstd::prelude::*;

verus! {

/// The number of home samples that are kept.
pub const HOME_STATE_CAPACITY: usize = 10;

/// One measurement of the home's consumption.
#[derive(Clone, Copy, Debug, PartialEq, Eq, Structural)]
pub struct HomeState {
    /// Average current drawn by the home, the vehicle included, over the
    /// measurement window, in milliamps.
    pub avg_milliamps: u64,
    /// Highest current drawn by the home, the vehicle included, over the
    /// same window, in milliamps.
    pub max_milliamps: u64,
    /// Current drawn by the vehicle when the sample was taken, in milliamps.
    pub car_milliamps: u64,
    /// When the sample was taken.
    pub timestamp: i64,
}

impl HomeState {
    /// The home's load without the vehicle, in milliamps. A vehicle reading
    /// above the home's average is sensor noise and counts as a load of zero.
    pub open spec fn spec_load_excluding_vehicle(self) -> u64 {
        if self.avg_milliamps < self.car_milliamps {
            0
        } else {
            (self.avg_milliamps - self.car_milliamps) as u64
        }
    }

    /// The home's load without the vehicle, in milliamps, never below zero.
    pub fn load_excluding_vehicle(&self) -> (load: u64)
        ensures
            load == self.spec_load_excluding_vehicle(),
    {
        if self.avg_milliamps < self.car_milliamps {
            0
        } else {
            self.avg_milliamps - self.car_milliamps
        }
    }
}

/// The samples after `sample` has been recorded: appended as the newest, and
/// the oldest dropped until no more than [`HOME_STATE_CAPACITY`] are left.
pub open spec fn spec_record(samples: Seq<HomeState>, sample: HomeState) -> Seq<HomeState> {
    let pushed = samples.push(sample);
    if pushed.len() > HOME_STATE_CAPACITY {
        pushed.subrange(pushed.len() - HOME_STATE_CAPACITY, pushed.len() as int)
    } else {
        pushed
    }
}

/// The recent history of the home's consumption, oldest first.
pub struct HomeStateWrapper {
    state: Vec<HomeState>,
}

impl View for HomeStateWrapper {
    type V = Seq<HomeState>;

    closed spec fn view(&self) -> Seq<HomeState> {
        self.state@
    }
}

impl HomeStateWrapper {
    /// No more than [`HOME_STATE_CAPACITY`] samples are ever held.
    #[verifier::type_invariant]
    spec fn bounded(self) -> bool {
        self.state@.len() <= HOME_STATE_CAPACITY
    }

    /// An empty history.
    pub fn new() -> (w: Self)
        ensures
            w@ == Seq::<HomeState>::empty(),
    {
        HomeStateWrapper { state: Vec::new() }
    }

    /// The number of samples held, which is never more than
    /// [`HOME_STATE_CAPACITY`].
    pub fn len(&self) -> (n: usize)
        ensures
            n == self@.len(),
            n <= HOME_STATE_CAPACITY,
    {
        proof {
            use_type_invariant(self);
        }
        self.state.len()
    }

    /// The sample at `index`, counted from the oldest.
    pub fn get(&self, index: usize) -> (s: Option<HomeState>)
        ensures
            s == if index < self@.len() {
                Some(self@[index as int])
            } else {
                None
            },
    {
        if index < self.state.len() {
            Some(self.state[index])
        } else {
            None
        }
    }

    /// The newest sample, if there is one.
    pub fn latest(&self) -> (s: Option<HomeState>)
        ensures
            s == if self@.len() > 0 {
                Some(self@.last())
            } else {
                None
            },
    {
        let n: usize = self.state.len();
        if n == 0 {
            None
        } else {
            Some(self.state[n - 1])
        }
    }

    /// Appends `sample` as the newest. A full history drops its oldest
    /// sample to make room.
    pub fn record(&mut self, sample: HomeState)
        ensures
            final(self)@ == spec_record(old(self)@, sample),
            final(self)@.len() <= HOME_STATE_CAPACITY,
            final(self)@.len() > 0,
            final(self)@.last() == sample,
            old(self)@.len() < HOME_STATE_CAPACITY ==> final(self)@ == old(self)@.push(sample),
            old(self)@.len() == HOME_STATE_CAPACITY ==> final(self)@ == old(self)@.drop_first().push(
                sample,
            ),
    {
        proof {
            use_type_invariant(&*self);
        }
        // The samples are taken out while they change, so that what `self`
        // holds is within the bound at every moment.
        let mut samples: Vec<HomeState> = Vec::new();
        std::mem::swap(&mut self.state, &mut samples);
        if samples.len() >= HOME_STATE_CAPACITY {
            samples.remove(0);
        }
        samples.push(sample);
        self.state = samples;
    }

    /// The home's load without the vehicle according to the newest sample, in
    /// milliamps; `None` while no sample has been recorded.
    pub fn load_excluding_vehicle(&self) -> (load: Option<u64>)
        ensures
            load == if self@.len() > 0 {
                Some(self@.last().spec_load_excluding_vehicle())
            } else {
                None::<u64>
            },
    {
        match self.latest() {
            Some(s) => Some(s.load_excluding_vehicle()),
            None => None,
        }
    }
}

} // verus!
