use vstd::prelude::*;
use crate::locations::{location_name, name};
use crate::models::{
    concat_groups, ApiResponse, ProductInformation, Result, Timestamp, TrainAnnouncement,
    TrainLocation,
};

verus! {

/// How a list of stops becomes one display name.
#[derive(Clone, Copy, Debug, PartialEq, Eq, Structural)]
pub enum SelectionMode {
    /// The single most canonical stop: lowest priority, first one on ties.
    Priority,
    /// Every stop, in list order, separated by the delimiter.
    JoinAll,
}

/// Settings of the view mapper.
#[derive(Clone, Debug)]
pub struct ViewConfig {
    pub mode: SelectionMode,
    /// Put between joined names.
    pub delimiter: String,
    /// Shown for an empty stop list in priority mode.
    pub empty_text: String,
    /// Shown when no stop can be named, and for every train field of an
    /// empty announcement list.
    pub unknown_text: String,
}

impl ViewConfig {
    /// Priority selection with "N/A" and "Unknown" as fallbacks.
    pub fn priority() -> (r: ViewConfig)
        ensures
            r.mode == SelectionMode::Priority,
            r.delimiter@ == ", "@,
            r.empty_text@ == "N/A"@,
            r.unknown_text@ == "Unknown"@,
    {
        ViewConfig {
            mode: SelectionMode::Priority,
            delimiter: String::from_str(", "),
            empty_text: String::from_str("N/A"),
            unknown_text: String::from_str("Unknown"),
        }
    }

    /// Every stop joined with ", ", and "Unknown" as fallback.
    pub fn joined() -> (r: ViewConfig)
        ensures
            r.mode == SelectionMode::JoinAll,
            r.delimiter@ == ", "@,
            r.empty_text@ == "N/A"@,
            r.unknown_text@ == "Unknown"@,
    {
        ViewConfig {
            mode: SelectionMode::JoinAll,
            delimiter: String::from_str(", "),
            empty_text: String::from_str("N/A"),
            unknown_text: String::from_str("Unknown"),
        }
    }
}

/// A stop can be named when it carries a name.
pub open spec fn resolvable(location: TrainLocation) -> bool {
    location.location_name@.len() > 0
}

/// The index of the nameable stop with the lowest priority, the first such on
/// ties; -1 when no stop can be named.
pub open spec fn best_index(locations: Seq<TrainLocation>) -> int
    decreases locations.len(),
{
    if locations.len() == 0 {
        -1
    } else {
        let b = best_index(locations.drop_last());
        let last = locations.len() - 1;
        if !resolvable(locations[last]) {
            b
        } else if b < 0 || locations[last].priority < locations[b].priority {
            last
        } else {
            b
        }
    }
}

pub proof fn lemma_best_index_bounds(locations: Seq<TrainLocation>)
    ensures
        -1 <= best_index(locations) < locations.len(),
        best_index(locations) >= 0 ==> resolvable(locations[best_index(locations)]),
        best_index(locations) < 0 ==> forall|i: int|
            0 <= i < locations.len() ==> !resolvable(#[trigger] locations[i]),
    decreases locations.len(),
{
    if locations.len() > 0 {
        lemma_best_index_bounds(locations.drop_last());
        let b = best_index(locations.drop_last());
        if b < 0 {
            assert forall|i: int| 0 <= i < locations.len() - 1 implies !resolvable(
                #[trigger] locations[i],
            ) by {
                assert(locations.drop_last()[i] == locations[i]);
            }
        }
    }
}

/// The chosen stop is nameable, no nameable stop has a lower priority, and
/// every nameable stop before it has a higher one.
pub proof fn lemma_best_index_is_minimal(locations: Seq<TrainLocation>)
    requires
        best_index(locations) >= 0,
    ensures
        forall|i: int|
            0 <= i < locations.len() && resolvable(#[trigger] locations[i]) ==> locations[best_index(
                locations,
            )].priority <= locations[i].priority,
        forall|i: int|
            0 <= i < best_index(locations) && resolvable(#[trigger] locations[i])
                ==> locations[best_index(locations)].priority < locations[i].priority,
    decreases locations.len(),
{
    lemma_best_index_bounds(locations);
    let init = locations.drop_last();
    lemma_best_index_bounds(init);
    if best_index(init) >= 0 {
        lemma_best_index_is_minimal(init);
    }
    assert forall|i: int| 0 <= i < locations.len() - 1 implies #[trigger] locations[i]
        == init[i] by {}
}

/// The priority-mode text of a stop list.
pub open spec fn spec_pick(locations: Seq<TrainLocation>, config: ViewConfig) -> Seq<char> {
    if locations.len() == 0 {
        config.empty_text@
    } else if best_index(locations) < 0 {
        config.unknown_text@
    } else {
        location_name(locations[best_index(locations)].location_name@)
    }
}

/// The friendly names of the stops, in list order, with the delimiter
/// between each two.
pub open spec fn spec_join(locations: Seq<TrainLocation>, delimiter: Seq<char>) -> Seq<char>
    decreases locations.len(),
{
    if locations.len() == 0 {
        Seq::empty()
    } else if locations.len() == 1 {
        location_name(locations[0].location_name@)
    } else {
        spec_join(locations.drop_last(), delimiter) + delimiter + location_name(
            locations.last().location_name@,
        )
    }
}

/// The text of a stop list under the configured mode.
pub open spec fn spec_locations_text(locations: Seq<TrainLocation>, config: ViewConfig) -> Seq<
    char,
> {
    match config.mode {
        SelectionMode::Priority => spec_pick(locations, config),
        SelectionMode::JoinAll => spec_join(locations, config.delimiter@),
    }
}

/// Picks the nameable stop of lowest priority, first on ties, and names it.
pub fn pick_location(locations: &Vec<TrainLocation>, config: &ViewConfig) -> (r: String)
    ensures
        r@ == spec_pick(locations@, *config),
{
    if locations.len() == 0 {
        return config.empty_text.clone();
    }
    let mut best: Option<usize> = None;
    let mut i: usize = 0;
    while i < locations.len()
        invariant
            0 <= i <= locations@.len(),
            best_index(locations@.take(i as int)) == match best {
                Some(b) => b as int,
                None => -1,
            },
        decreases locations@.len() - i,
    {
        proof {
            lemma_best_index_bounds(locations@.take(i as int));
            assert(locations@.take(i as int + 1).drop_last() =~= locations@.take(i as int));
        }
        let location = &locations[i];
        if !location.location_name.as_str().is_empty() {
            match best {
                None => {
                    best = Some(i);
                },
                Some(b) => {
                    if location.priority < locations[b].priority {
                        best = Some(i);
                    }
                },
            }
        }
        i = i + 1;
    }
    proof {
        assert(locations@.take(i as int) =~= locations@);
        lemma_best_index_bounds(locations@);
    }
    match best {
        None => config.unknown_text.clone(),
        Some(b) => name(locations[b].location_name.clone()),
    }
}

/// Joins the friendly names of all stops, in list order, with `delimiter`.
pub fn join_locations(locations: &Vec<TrainLocation>, delimiter: &str) -> (r: String)
    ensures
        r@ == spec_join(locations@, delimiter@),
{
    let mut r = String::new();
    let mut i: usize = 0;
    while i < locations.len()
        invariant
            0 <= i <= locations@.len(),
            r@ == spec_join(locations@.take(i as int), delimiter@),
        decreases locations@.len() - i,
    {
        proof {
            assert(locations@.take(i as int + 1).drop_last() =~= locations@.take(i as int));
        }
        if i > 0 {
            r.append(delimiter);
        }
        let resolved = name(locations[i].location_name.clone());
        r.append(resolved.as_str());
        i = i + 1;
    }
    proof {
        assert(locations@.take(i as int) =~= locations@);
    }
    r
}

/// The text of a stop list under the configured mode.
pub fn locations_text(locations: &Vec<TrainLocation>, config: &ViewConfig) -> (r: String)
    ensures
        r@ == spec_locations_text(locations@, *config),
{
    match config.mode {
        SelectionMode::Priority => pick_location(locations, config),
        SelectionMode::JoinAll => join_locations(locations, config.delimiter.as_str()),
    }
}

/// The decimal digits, in order.
pub const DIGITS: &'static str = "0123456789";

/// Two decimal digits of a number below one hundred.
pub open spec fn two_digit_text(n: int) -> Seq<char> {
    DIGITS@.subrange(n / 10, n / 10 + 1) + DIGITS@.subrange(n % 10, n % 10 + 1)
}

/// Writes `n`, below one hundred, as two decimal digits.
pub fn two_digits(n: u32) -> (r: String)
    requires
        n < 100,
    ensures
        r@ == two_digit_text(n as int),
{
    proof {
        reveal_strlit("0123456789");
    }
    let tens: usize = (n / 10) as usize;
    let ones: usize = (n % 10) as usize;
    let mut r = String::from_str(DIGITS.substring_char(tens, tens + 1));
    r.append(DIGITS.substring_char(ones, ones + 1));
    r
}

/// Local hour and minute, as "HH:MM".
pub open spec fn hour_minute_text(t: Timestamp) -> Seq<char> {
    two_digit_text(t.spec_hour()) + ":"@ + two_digit_text(t.spec_minute())
}

/// Local hour, minute and second, as "HH:MM:SS".
pub open spec fn hour_minute_second_text(t: Timestamp) -> Seq<char> {
    hour_minute_text(t) + ":"@ + two_digit_text(t.spec_second())
}

/// Writes a timestamp's local clock time as "HH:MM", or as "HH:MM:SS" with
/// `seconds`.
pub fn clock_text(t: &Timestamp, seconds: bool) -> (r: String)
    requires
        t.wf(),
    ensures
        seconds ==> r@ == hour_minute_second_text(*t),
        !seconds ==> r@ == hour_minute_text(*t),
{
    let s = t.second_of_day();
    let mut r = two_digits(s / 3600);
    r.append(":");
    let minutes = two_digits((s % 3600) / 60);
    r.append(minutes.as_str());
    if seconds {
        r.append(":");
        let secs = two_digits(s % 60);
        r.append(secs.as_str());
    }
    r
}

/// The advertised time as "HH:MM".
pub fn advertised_time(announcement: &TrainAnnouncement) -> (r: String)
    requires
        announcement.wf(),
    ensures
        r@ == hour_minute_text(announcement.advertised_time_at_location),
{
    clock_text(&announcement.advertised_time_at_location, false)
}

pub open spec fn spec_actual_time(announcement: TrainAnnouncement) -> Seq<char> {
    match announcement.time_at_location_with_seconds {
        Some(t) => hour_minute_second_text(t),
        None => Seq::empty(),
    }
}

/// The actual time as "HH:MM:SS", empty while the train has not been seen.
pub fn actual_time(announcement: &TrainAnnouncement) -> (r: String)
    requires
        announcement.wf(),
    ensures
        r@ == spec_actual_time(*announcement),
{
    match &announcement.time_at_location_with_seconds {
        Some(t) => clock_text(t, true),
        None => String::new(),
    }
}

/// Where the train comes from.
pub fn origin(announcement: &TrainAnnouncement, config: &ViewConfig) -> (r: String)
    ensures
        r@ == spec_locations_text(announcement.from_location@, *config),
{
    locations_text(&announcement.from_location, config)
}

/// Where the train goes via.
pub fn via(announcement: &TrainAnnouncement, config: &ViewConfig) -> (r: String)
    ensures
        r@ == spec_locations_text(announcement.via_to_location@, *config),
{
    locations_text(&announcement.via_to_location, config)
}

/// Where the train goes to.
pub fn destination(announcement: &TrainAnnouncement, config: &ViewConfig) -> (r: String)
    ensures
        r@ == spec_locations_text(announcement.to_location@, *config),
{
    locations_text(&announcement.to_location, config)
}

pub open spec fn spec_product(products: Seq<ProductInformation>) -> Seq<char> {
    if products.len() == 0 {
        Seq::empty()
    } else {
        products[0].description@
    }
}

/// The first product entry's description, empty when there is none.
pub fn product_information(announcement: &TrainAnnouncement) -> (r: String)
    ensures
        r@ == spec_product(announcement.product_information@),
{
    if announcement.product_information.len() == 0 {
        String::new()
    } else {
        announcement.product_information[0].description.clone()
    }
}

/// One announcement, ready for display.
#[derive(Clone, Debug)]
pub struct AnnouncementView {
    pub advertised_train_ident: String,
    pub advertised_time: String,
    pub actual_time: String,
    pub from: String,
    pub via: String,
    pub destination: String,
    pub location_signature: String,
    pub location_name: String,
    pub product_information: String,
}

impl AnnouncementView {
    /// This view shows `announcement` under `config`.
    pub open spec fn shows(&self, announcement: TrainAnnouncement, config: ViewConfig) -> bool {
        &&& self.advertised_train_ident@ == announcement.advertised_train_ident@
        &&& self.advertised_time@ == hour_minute_text(announcement.advertised_time_at_location)
        &&& self.actual_time@ == spec_actual_time(announcement)
        &&& self.from@ == spec_locations_text(announcement.from_location@, config)
        &&& self.via@ == spec_locations_text(announcement.via_to_location@, config)
        &&& self.destination@ == spec_locations_text(announcement.to_location@, config)
        &&& self.location_signature@ == announcement.location_signature@
        &&& self.location_name@ == location_name(announcement.location_signature@)
        &&& self.product_information@ == spec_product(announcement.product_information@)
    }
}

/// The view of one announcement.
pub fn to_view(announcement: &TrainAnnouncement, config: &ViewConfig) -> (r: AnnouncementView)
    requires
        announcement.wf(),
    ensures
        r.shows(*announcement, *config),
{
    AnnouncementView {
        advertised_train_ident: announcement.advertised_train_ident.clone(),
        advertised_time: advertised_time(announcement),
        actual_time: actual_time(announcement),
        from: origin(announcement, config),
        via: via(announcement, config),
        destination: destination(announcement, config),
        location_signature: announcement.location_signature.clone(),
        location_name: name(announcement.location_signature.clone()),
        product_information: product_information(announcement),
    }
}

pub open spec fn all_wf(announcements: Seq<TrainAnnouncement>) -> bool {
    forall|i: int| 0 <= i < announcements.len() ==> (#[trigger] announcements[i]).wf()
}

/// Whether every announcement's timestamps are within the supported range.
pub fn all_valid(announcements: &Vec<TrainAnnouncement>) -> (r: bool)
    ensures
        r == all_wf(announcements@),
{
    let mut i: usize = 0;
    while i < announcements.len()
        invariant
            0 <= i <= announcements@.len(),
            all_wf(announcements@.take(i as int)),
        decreases announcements@.len() - i,
    {
        if !announcements[i].is_valid() {
            assert(!all_wf(announcements@)) by {
                assert(!announcements@[i as int].wf());
            }
            return false;
        }
        assert(all_wf(announcements@.take(i as int + 1))) by {
            assert forall|k: int| 0 <= k < i + 1 implies (#[trigger] announcements@.take(
                i as int + 1,
            )[k]).wf() by {
                if k < i {
                    assert(announcements@.take(i as int)[k] == announcements@[k]);
                }
            }
        }
        i = i + 1;
    }
    assert(announcements@.take(i as int) =~= announcements@);
    true
}

/// The views show the announcements one for one, in the same order.
pub open spec fn views_show(
    views: Seq<AnnouncementView>,
    announcements: Seq<TrainAnnouncement>,
    config: ViewConfig,
) -> bool {
    &&& views.len() == announcements.len()
    &&& forall|i: int| 0 <= i < views.len() ==> (#[trigger] views[i]).shows(announcements[i], config)
}

/// The views of a list of announcements, in list order.
pub fn to_views(announcements: &Vec<TrainAnnouncement>, config: &ViewConfig) -> (r: Vec<
    AnnouncementView,
>)
    requires
        all_wf(announcements@),
    ensures
        views_show(r@, announcements@, *config),
{
    let mut r: Vec<AnnouncementView> = Vec::new();
    let mut i: usize = 0;
    while i < announcements.len()
        invariant
            0 <= i <= announcements@.len(),
            all_wf(announcements@),
            views_show(r@, announcements@.take(i as int), *config),
        decreases announcements@.len() - i,
    {
        let view = to_view(&announcements[i], config);
        r.push(view);
        i = i + 1;
    }
    proof {
        assert(announcements@.take(i as int) =~= announcements@);
    }
    r
}

/// A train field from the first announcement, or the unknown text when
/// there is none.
pub open spec fn first_or_unknown(
    announcements: Seq<TrainAnnouncement>,
    config: ViewConfig,
    field: spec_fn(TrainAnnouncement) -> Seq<char>,
) -> Seq<char> {
    if announcements.len() == 0 {
        config.unknown_text@
    } else {
        field(announcements[0])
    }
}

/// The station's friendly name, from the first announcement.
pub fn location(announcements: &Vec<TrainAnnouncement>, config: &ViewConfig) -> (r: String)
    ensures
        r@ == first_or_unknown(
            announcements@,
            *config,
            |a: TrainAnnouncement| location_name(a.location_signature@),
        ),
{
    if announcements.len() == 0 {
        config.unknown_text.clone()
    } else {
        name(announcements[0].location_signature.clone())
    }
}

/// The train's identifier, from the first announcement.
pub fn train_ident(announcements: &Vec<TrainAnnouncement>, config: &ViewConfig) -> (r: String)
    ensures
        r@ == first_or_unknown(
            announcements@,
            *config,
            |a: TrainAnnouncement| a.advertised_train_ident@,
        ),
{
    if announcements.len() == 0 {
        config.unknown_text.clone()
    } else {
        announcements[0].advertised_train_ident.clone()
    }
}

/// Where the train comes from, by the first announcement.
pub fn from(announcements: &Vec<TrainAnnouncement>, config: &ViewConfig) -> (r: String)
    ensures
        r@ == first_or_unknown(
            announcements@,
            *config,
            |a: TrainAnnouncement| spec_locations_text(a.from_location@, *config),
        ),
{
    if announcements.len() == 0 {
        config.unknown_text.clone()
    } else {
        origin(&announcements[0], config)
    }
}

/// Where the train goes via, by the first announcement.
pub fn via_stations(announcements: &Vec<TrainAnnouncement>, config: &ViewConfig) -> (r: String)
    ensures
        r@ == first_or_unknown(
            announcements@,
            *config,
            |a: TrainAnnouncement| spec_locations_text(a.via_to_location@, *config),
        ),
{
    if announcements.len() == 0 {
        config.unknown_text.clone()
    } else {
        via(&announcements[0], config)
    }
}

/// Where the train goes to, by the first announcement.
pub fn dest(announcements: &Vec<TrainAnnouncement>, config: &ViewConfig) -> (r: String)
    ensures
        r@ == first_or_unknown(
            announcements@,
            *config,
            |a: TrainAnnouncement| spec_locations_text(a.to_location@, *config),
        ),
{
    if announcements.len() == 0 {
        config.unknown_text.clone()
    } else {
        destination(&announcements[0], config)
    }
}

/// The train's product description, by the first announcement.
pub fn prod(announcements: &Vec<TrainAnnouncement>, config: &ViewConfig) -> (r: String)
    ensures
        r@ == first_or_unknown(
            announcements@,
            *config,
            |a: TrainAnnouncement| spec_product(a.product_information@),
        ),
{
    if announcements.len() == 0 {
        config.unknown_text.clone()
    } else {
        product_information(&announcements[0])
    }
}

/// What a train's page says of the train as a whole.
#[derive(Clone, Debug)]
pub struct TrainSummary {
    pub id: String,
    pub from: String,
    pub via: String,
    pub destination: String,
    pub product_information: String,
}

impl TrainSummary {
    /// This summary describes a train by the first of `announcements`.
    pub open spec fn summarizes(
        &self,
        announcements: Seq<TrainAnnouncement>,
        config: ViewConfig,
    ) -> bool {
        if announcements.len() == 0 {
            &&& self.id@ == config.unknown_text@
            &&& self.from@ == config.unknown_text@
            &&& self.via@ == config.unknown_text@
            &&& self.destination@ == config.unknown_text@
            &&& self.product_information@ == config.unknown_text@
        } else {
            let a = announcements[0];
            &&& self.id@ == a.advertised_train_ident@
            &&& self.from@ == spec_locations_text(a.from_location@, config)
            &&& self.via@ == spec_locations_text(a.via_to_location@, config)
            &&& self.destination@ == spec_locations_text(a.to_location@, config)
            &&& self.product_information@ == spec_product(a.product_information@)
        }
    }
}

/// Summarizes a train by the first announcement, in the order given.
pub fn summarize(announcements: &Vec<TrainAnnouncement>, config: &ViewConfig) -> (r: TrainSummary)
    ensures
        r.summarizes(announcements@, *config),
{
    TrainSummary {
        id: train_ident(announcements, config),
        from: from(announcements, config),
        via: via_stations(announcements, config),
        destination: dest(announcements, config),
        product_information: prod(announcements, config),
    }
}

/// An empty announcement list summarizes to the unknown text in every field,
/// which is "Unknown" under the preset configurations.
pub proof fn lemma_empty_summary(summary: TrainSummary, config: ViewConfig)
    requires
        summary.summarizes(Seq::empty(), config),
    ensures
        summary.id@ == config.unknown_text@,
        summary.from@ == config.unknown_text@,
        summary.via@ == config.unknown_text@,
        summary.destination@ == config.unknown_text@,
        summary.product_information@ == config.unknown_text@,
{
}

/// What a station's page shows.
#[derive(Clone, Debug)]
pub struct StationPage {
    pub location_name: String,
    pub announcements: Vec<AnnouncementView>,
}

/// What a train's page shows.
#[derive(Clone, Debug)]
pub struct TrainPage {
    pub summary: TrainSummary,
    pub announcements: Vec<AnnouncementView>,
}

/// The station page for announcements at one station.
pub fn station_page(announcements: &Vec<TrainAnnouncement>, config: &ViewConfig) -> (r:
    StationPage)
    requires
        all_wf(announcements@),
    ensures
        r.location_name@ == first_or_unknown(
            announcements@,
            *config,
            |a: TrainAnnouncement| location_name(a.location_signature@),
        ),
        views_show(r.announcements@, announcements@, *config),
{
    StationPage {
        location_name: location(announcements, config),
        announcements: to_views(announcements, config),
    }
}

/// The train page for the announcements of one train.
pub fn train_page(announcements: &Vec<TrainAnnouncement>, config: &ViewConfig) -> (r: TrainPage)
    requires
        all_wf(announcements@),
    ensures
        r.summary.summarizes(announcements@, *config),
        views_show(r.announcements@, announcements@, *config),
{
    TrainPage {
        summary: summarize(announcements, config),
        announcements: to_views(announcements, config),
    }
}

/// How many announcements the groups hold together.
pub open spec fn total_count(groups: Seq<Result>) -> int
    decreases groups.len(),
{
    if groups.len() == 0 {
        0
    } else {
        total_count(groups.drop_last()) + groups.last().train_announcements@.len()
    }
}

proof fn lemma_concat_groups_len(groups: Seq<Result>)
    ensures
        concat_groups(groups).len() == total_count(groups),
    decreases groups.len(),
{
    if groups.len() > 0 {
        lemma_concat_groups_len(groups.drop_last());
    }
}

proof fn lemma_concat_groups_index(groups: Seq<Result>, g: int, j: int)
    requires
        0 <= g < groups.len(),
        0 <= j < groups[g].train_announcements@.len(),
    ensures
        total_count(groups.take(g)) + j < concat_groups(groups).len(),
        concat_groups(groups)[total_count(groups.take(g)) + j]
            == groups[g].train_announcements@[j],
    decreases groups.len(),
{
    let init = groups.drop_last();
    lemma_concat_groups_len(groups.take(g));
    let k = total_count(groups.take(g)) + j;
    assert(concat_groups(groups) == concat_groups(init) + groups.last().train_announcements@);
    if g == groups.len() - 1 {
        assert(groups.take(g) =~= init);
        lemma_concat_groups_len(init);
        assert(k - concat_groups(init).len() == j);
    } else {
        lemma_concat_groups_index(init, g, j);
        assert(init.take(g) =~= groups.take(g));
        assert(init[g] == groups[g]);
        assert(k < concat_groups(init).len());
        assert(concat_groups(groups)[k] == concat_groups(init)[k]);
    }
}

/// A reply holding N announcements, over all its groups, gives exactly N
/// views, and the j-th announcement of the g-th group is shown by the view
/// that follows the views of the groups before it, in reply order.
pub proof fn lemma_views_follow_response(
    response: ApiResponse,
    views: Seq<AnnouncementView>,
    config: ViewConfig,
)
    requires
        views_show(views, response.spec_announcements(), config),
    ensures
        views.len() == total_count(response.response.result@),
        forall|g: int, j: int|
            0 <= g < response.response.result@.len() && 0 <= j
                < response.response.result@[g].train_announcements@.len() ==> (#[trigger] views[total_count(
                response.response.result@.take(g),
            ) + j]).shows(#[trigger] response.response.result@[g].train_announcements@[j], config),
{
    let groups = response.response.result@;
    lemma_concat_groups_len(groups);
    assert forall|g: int, j: int|
        0 <= g < groups.len() && 0 <= j < groups[g].train_announcements@.len() implies (#[trigger] views[total_count(
        groups.take(g),
    ) + j]).shows(#[trigger] groups[g].train_announcements@[j], config) by {
        lemma_concat_groups_index(groups, g, j);
        lemma_concat_groups_len(groups.take(g));
        let k = total_count(groups.take(g)) + j;
        assert(response.spec_announcements() == concat_groups(groups));
        assert(k < views.len());
        assert(response.spec_announcements()[k] == groups[g].train_announcements@[j]);
        assert(views[k].shows(response.spec_announcements()[k], config));
    }
}

} // verus!
