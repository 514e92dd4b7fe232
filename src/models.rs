use vstd::prelude::*;

verus! {

/// Seconds in one day.
pub const SECONDS_PER_DAY: i64 = 86400;

/// Largest distance from the epoch, in seconds, that a timestamp may hold.
pub const MAX_UNIX_SECONDS: i64 = 10_000_000_000_000;

/// An instant with the UTC offset it was reported in.
#[derive(Clone, Copy, Debug, PartialEq, Eq, Structural)]
pub struct Timestamp {
    /// Seconds since 1970-01-01T00:00:00Z.
    pub unix_seconds: i64,
    /// Offset of the local clock from UTC, in seconds.
    pub offset_seconds: i32,
}

impl Timestamp {
    pub open spec fn wf(&self) -> bool {
        &&& -MAX_UNIX_SECONDS <= self.unix_seconds <= MAX_UNIX_SECONDS
        &&& -SECONDS_PER_DAY < self.offset_seconds < SECONDS_PER_DAY
    }

    /// Seconds since local midnight on the reported clock.
    pub open spec fn local_second_of_day(&self) -> int {
        (self.unix_seconds + self.offset_seconds) % (SECONDS_PER_DAY as int)
    }

    pub open spec fn spec_hour(&self) -> int {
        self.local_second_of_day() / 3600
    }

    pub open spec fn spec_minute(&self) -> int {
        (self.local_second_of_day() % 3600) / 60
    }

    pub open spec fn spec_second(&self) -> int {
        self.local_second_of_day() % 60
    }

    /// Whether the timestamp is within the supported range.
    pub fn is_valid(&self) -> (r: bool)
        ensures
            r == self.wf(),
    {
        -MAX_UNIX_SECONDS <= self.unix_seconds && self.unix_seconds <= MAX_UNIX_SECONDS
            && -SECONDS_PER_DAY < self.offset_seconds as i64 && (self.offset_seconds as i64)
            < SECONDS_PER_DAY
    }

    /// Seconds since local midnight.
    pub fn second_of_day(&self) -> (r: u32)
        requires
            self.wf(),
        ensures
            r as int == self.local_second_of_day(),
            r < 86400,
    {
        // shift by a whole number of days so that the value is non-negative
        let days: i64 = 200_000_000;
        let local: i64 = self.unix_seconds + self.offset_seconds as i64;
        let shifted: i64 = local + days * SECONDS_PER_DAY;
        proof {
            vstd::arithmetic::div_mod::lemma_mod_multiples_vanish(
                days as int,
                local as int,
                SECONDS_PER_DAY as int,
            );
        }
        (shifted % SECONDS_PER_DAY) as u32
    }
}

/// One stop that a train lists: where it comes from, goes via or goes to.
#[derive(Clone, Debug)]
pub struct TrainLocation {
    pub location_name: String,
    /// Lower is more canonical.
    pub priority: i32,
    /// Position in the service's own ordering; kept, not consulted.
    pub order: i32,
}

/// A descriptive entry about the train's product (the kind of service).
#[derive(Clone, Debug)]
pub struct ProductInformation {
    pub description: String,
}

/// One scheduled departure of a train at a location.
#[derive(Clone, Debug)]
pub struct TrainAnnouncement {
    pub advertised_train_ident: String,
    pub advertised_time_at_location: Timestamp,
    pub location_signature: String,
    pub time_at_location_with_seconds: Option<Timestamp>,
    pub from_location: Vec<TrainLocation>,
    pub via_to_location: Vec<TrainLocation>,
    pub to_location: Vec<TrainLocation>,
    pub product_information: Vec<ProductInformation>,
}

impl TrainAnnouncement {
    pub open spec fn wf(&self) -> bool {
        &&& self.advertised_time_at_location.wf()
        &&& (self.time_at_location_with_seconds matches Some(t) ==> t.wf())
    }

    /// Whether both timestamps are within the supported range.
    pub fn is_valid(&self) -> (r: bool)
        ensures
            r == self.wf(),
    {
        self.advertised_time_at_location.is_valid() && match &self.time_at_location_with_seconds {
            Some(t) => t.is_valid(),
            None => true,
        }
    }
}

/// The outer envelope of the service's reply.
#[derive(Debug)]
pub struct ApiResponse {
    pub response: Response,
}

/// The reply proper: a list of result groups.
#[derive(Debug)]
pub struct Response {
    pub result: Vec<Result>,
}

/// One result group of announcements.
#[derive(Debug)]
pub struct Result {
    pub train_announcements: Vec<TrainAnnouncement>,
}

/// All announcements of the groups, group after group, each in its own order.
pub open spec fn concat_groups(groups: Seq<Result>) -> Seq<TrainAnnouncement>
    decreases groups.len(),
{
    if groups.len() == 0 {
        Seq::empty()
    } else {
        concat_groups(groups.drop_last()) + groups.last().train_announcements@
    }
}

impl ApiResponse {
    pub open spec fn spec_announcements(&self) -> Seq<TrainAnnouncement> {
        concat_groups(self.response.result@)
    }

    /// The announcements of every result group, concatenated in reply order.
    pub fn announcements(self) -> (r: Vec<TrainAnnouncement>)
        ensures
            r@ == self.spec_announcements(),
    {
        let ghost groups = self.response.result@;
        let mut rest = self.response.result;
        let n: usize = rest.len();
        let mut r: Vec<TrainAnnouncement> = Vec::new();
        let mut i: usize = 0;
        while rest.len() > 0
            invariant
                0 <= i <= groups.len() == n,
                rest@ == groups.skip(i as int),
                rest@.len() + i == groups.len(),
                r@ == concat_groups(groups.take(i as int)),
            decreases rest.len(),
        {
            let mut group = rest.remove(0);
            proof {
                assert(groups.take(i as int + 1).drop_last() =~= groups.take(i as int));
                assert(rest@ =~= groups.skip(i as int + 1));
            }
            r.append(&mut group.train_announcements);
            i = i + 1;
        }
        proof {
            assert(groups.take(i as int) =~= groups);
        }
        r
    }
}

} // verus!
