use departures::locations::name;
use departures::models::{
    ApiResponse, ProductInformation, Response, Result as ResultGroup, Timestamp,
    TrainAnnouncement, TrainLocation,
};
use departures::table::sort_by_advertised_time;
use departures::views::{
    actual_time, advertised_time, all_valid, join_locations, location, locations_text, pick_location,
    product_information, station_page, summarize, to_views, train_page,
    two_digits, SelectionMode, ViewConfig,
};

fn stop(location_name: &str, priority: i32, order: i32) -> TrainLocation {
    TrainLocation { location_name: location_name.to_string(), priority, order }
}

fn at(unix_seconds: i64, offset_seconds: i32) -> Timestamp {
    Timestamp { unix_seconds, offset_seconds }
}

fn announcement(ident: &str, signature: &str, unix_seconds: i64) -> TrainAnnouncement {
    TrainAnnouncement {
        advertised_train_ident: ident.to_string(),
        advertised_time_at_location: at(unix_seconds, 3600),
        location_signature: signature.to_string(),
        time_at_location_with_seconds: None,
        from_location: vec![stop("Cst", 1, 0)],
        via_to_location: vec![stop("Sk", 1, 0), stop("Tu", 2, 1)],
        to_location: vec![stop("Tul", 1, 0)],
        product_information: vec![ProductInformation { description: "Pendeltåg".to_string() }],
    }
}

#[test]
fn known_code_resolves_to_friendly_name() {
    assert_eq!(name("Sk".to_string()), "Skövde");
    assert_eq!(name("Tu".to_string()), "Tumba");
    assert_eq!(name("Tul".to_string()), "Tullinge");
}

#[test]
fn unknown_code_resolves_to_itself() {
    assert_eq!(name("Xx".to_string()), "Xx");
    assert_eq!(name("".to_string()), "");
}

#[test]
fn priority_mode_picks_lowest_priority() {
    let stops = vec![stop("A", 2, 0), stop("B", 1, 1)];
    assert_eq!(pick_location(&stops, &ViewConfig::priority()), "B");
}

#[test]
fn priority_mode_breaks_ties_by_list_order() {
    let stops = vec![stop("A", 3, 5), stop("B", 1, 9), stop("C", 1, 0)];
    assert_eq!(pick_location(&stops, &ViewConfig::priority()), "B");
}

#[test]
fn priority_mode_resolves_the_chosen_code() {
    let stops = vec![stop("Xx", 4, 0), stop("Sk", 2, 1)];
    assert_eq!(pick_location(&stops, &ViewConfig::priority()), "Skövde");
}

#[test]
fn priority_mode_on_empty_list_gives_not_available() {
    let stops: Vec<TrainLocation> = Vec::new();
    assert_eq!(pick_location(&stops, &ViewConfig::priority()), "N/A");
}

#[test]
fn priority_mode_on_unnamed_stops_gives_unknown() {
    let stops = vec![stop("", 1, 0), stop("", 2, 1)];
    assert_eq!(pick_location(&stops, &ViewConfig::priority()), "Unknown");
}

#[test]
fn priority_mode_skips_unnamed_stops() {
    let stops = vec![stop("", 0, 0), stop("Tu", 5, 1)];
    assert_eq!(pick_location(&stops, &ViewConfig::priority()), "Tumba");
}

#[test]
fn join_mode_keeps_order() {
    let stops = vec![stop("A", 2, 0), stop("B", 1, 1)];
    assert_eq!(join_locations(&stops, ", "), "A, B");
    assert_eq!(locations_text(&stops, &ViewConfig::joined()), "A, B");
}

#[test]
fn join_mode_uses_configured_delimiter() {
    let stops = vec![stop("A", 1, 0), stop("Sk", 1, 1), stop("C", 1, 2)];
    let mut config = ViewConfig::joined();
    config.delimiter = " / ".to_string();
    assert_eq!(config.mode, SelectionMode::JoinAll);
    assert_eq!(locations_text(&stops, &config), "A / Skövde / C");
}

#[test]
fn join_mode_on_empty_list_is_empty() {
    let stops: Vec<TrainLocation> = Vec::new();
    assert_eq!(join_locations(&stops, ", "), "");
}

#[test]
fn two_digits_pads_with_zero() {
    assert_eq!(two_digits(7), "07");
    assert_eq!(two_digits(0), "00");
    assert_eq!(two_digits(59), "59");
}

#[test]
fn advertised_time_is_local_hour_and_minute() {
    // 2023-11-14T22:13:20Z, reported at +01:00
    let a = announcement("1234", "Sk", 1_700_000_000);
    assert_eq!(advertised_time(&a), "23:13");
}

#[test]
fn advertised_time_wraps_past_midnight() {
    let mut a = announcement("1234", "Sk", 1_700_000_000);
    a.advertised_time_at_location = at(1_700_000_000, 7200);
    assert_eq!(advertised_time(&a), "00:13");
    a.advertised_time_at_location = at(-1, 0);
    assert_eq!(advertised_time(&a), "23:59");
}

#[test]
fn actual_time_has_seconds_or_is_empty() {
    let mut a = announcement("1234", "Sk", 1_700_000_000);
    assert_eq!(actual_time(&a), "");
    a.time_at_location_with_seconds = Some(at(1_700_000_045, 3600));
    assert_eq!(actual_time(&a), "23:14:05");
}

#[test]
fn product_information_is_first_description() {
    let mut a = announcement("1234", "Sk", 1_700_000_000);
    a.product_information.push(ProductInformation { description: "Other".to_string() });
    assert_eq!(product_information(&a), "Pendeltåg");
    a.product_information.clear();
    assert_eq!(product_information(&a), "");
}

#[test]
fn empty_sequence_summarizes_to_unknown() {
    let none: Vec<TrainAnnouncement> = Vec::new();
    for config in [ViewConfig::priority(), ViewConfig::joined()] {
        let s = summarize(&none, &config);
        assert_eq!(s.id, "Unknown");
        assert_eq!(s.from, "Unknown");
        assert_eq!(s.via, "Unknown");
        assert_eq!(s.destination, "Unknown");
        assert_eq!(s.product_information, "Unknown");
        assert_eq!(location(&none, &config), "Unknown");
    }
}

#[test]
fn summary_comes_from_first_announcement() {
    let list = vec![announcement("1234", "Sk", 1_700_000_000), announcement("99", "Tu", 1)];
    let s = summarize(&list, &ViewConfig::joined());
    assert_eq!(s.id, "1234");
    assert_eq!(s.from, "Cst");
    assert_eq!(s.via, "Skövde, Tumba");
    assert_eq!(s.destination, "Tullinge");
    assert_eq!(s.product_information, "Pendeltåg");
    let p = summarize(&list, &ViewConfig::priority());
    assert_eq!(p.via, "Skövde");
}

#[test]
fn response_groups_flatten_in_order() {
    let response = ApiResponse {
        response: Response {
            result: vec![
                ResultGroup {
                    train_announcements: vec![
                        announcement("1", "Sk", 100),
                        announcement("2", "Sk", 50),
                    ],
                },
                ResultGroup { train_announcements: Vec::new() },
                ResultGroup { train_announcements: vec![announcement("3", "Tu", 10)] },
            ],
        },
    };
    let list = response.announcements();
    let idents: Vec<&str> = list.iter().map(|a| a.advertised_train_ident.as_str()).collect();
    assert_eq!(idents, vec!["1", "2", "3"]);
    let views = to_views(&list, &ViewConfig::priority());
    assert_eq!(views.len(), 3);
    let shown: Vec<&str> = views.iter().map(|v| v.advertised_train_ident.as_str()).collect();
    assert_eq!(shown, vec!["1", "2", "3"]);
}

#[test]
fn view_shows_every_field() {
    let mut a = announcement("1234", "Sk", 1_700_000_000);
    a.time_at_location_with_seconds = Some(at(1_700_000_061, 3600));
    let views = to_views(&vec![a], &ViewConfig::priority());
    let v = &views[0];
    assert_eq!(v.advertised_train_ident, "1234");
    assert_eq!(v.advertised_time, "23:13");
    assert_eq!(v.actual_time, "23:14:21");
    assert_eq!(v.from, "Cst");
    assert_eq!(v.via, "Skövde");
    assert_eq!(v.destination, "Tullinge");
    assert_eq!(v.location_signature, "Sk");
    assert_eq!(v.location_name, "Skövde");
    assert_eq!(v.product_information, "Pendeltåg");
}

#[test]
fn station_page_names_the_station() {
    let list = vec![announcement("1", "Tul", 100), announcement("2", "Tul", 200)];
    let page = station_page(&list, &ViewConfig::joined());
    assert_eq!(page.location_name, "Tullinge");
    assert_eq!(page.announcements.len(), 2);
    let none: Vec<TrainAnnouncement> = Vec::new();
    let empty = station_page(&none, &ViewConfig::joined());
    assert_eq!(empty.location_name, "Unknown");
    assert!(empty.announcements.is_empty());
}

#[test]
fn train_page_summarizes_and_lists() {
    let list = vec![announcement("7", "Sk", 100), announcement("7", "Tu", 200)];
    let page = train_page(&list, &ViewConfig::priority());
    assert_eq!(page.summary.id, "7");
    assert_eq!(page.summary.via, "Skövde");
    assert_eq!(page.announcements.len(), 2);
    assert_eq!(page.announcements[1].location_name, "Tumba");
}

#[test]
fn sort_orders_by_time_and_keeps_ties() {
    let list = vec![
        announcement("a", "Sk", 300),
        announcement("b", "Sk", 100),
        announcement("c", "Sk", 300),
        announcement("d", "Sk", 200),
        announcement("e", "Sk", 100),
    ];
    let sorted = sort_by_advertised_time(list);
    let idents: Vec<&str> = sorted.iter().map(|a| a.advertised_train_ident.as_str()).collect();
    assert_eq!(idents, vec!["b", "e", "d", "a", "c"]);
}

#[test]
fn timestamps_out_of_range_are_invalid() {
    let mut list = vec![announcement("1", "Sk", 100), announcement("2", "Sk", 200)];
    assert!(all_valid(&list));
    list[1].time_at_location_with_seconds = Some(at(100, 86400));
    assert!(!all_valid(&list));
    list[1].time_at_location_with_seconds = Some(at(100, -86399));
    assert!(all_valid(&list));
    list[0].advertised_time_at_location = at(10_000_000_000_001, 0);
    assert!(!all_valid(&list));
}
