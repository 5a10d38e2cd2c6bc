use horizon::chat::{chat_reply, help_text, ChatPayload, ChatRequest};
use horizon::chronos::{is_daytime_hour, time_of_day, ClockStep, TimeState, START_HOUR};
use horizon::load_times::add_load_times;
use horizon::collision::{allocate_id, Crossing, Occupancy, SphereRegistry};
use horizon::config::ServerConfig;
use horizon::objects::BaseObject;
use horizon::text::{decimal_text, signed_decimal_text};

#[test]
fn clock_starts_at_six() {
    let t = TimeState::new(1000);
    assert_eq!(START_HOUR, 6);
    assert_eq!(t.request_time(), (6, 0));
    assert!(t.is_daytime());
    assert_eq!(t.get_time_of_day(), "Dawn");
    assert_eq!(t.elapsed_real_seconds(1045), 45);
}

#[test]
fn set_then_request_time() {
    let mut t = TimeState::new(0);
    t.set_time(22, 15);
    assert_eq!(t.request_time(), (22, 15));
    assert!(!t.is_daytime());
    assert_eq!(t.get_time_of_day(), "Night");
}

#[test]
fn clock_ticks_wrap_around() {
    let mut t = TimeState::new(0);
    t.set_time(23, 59);
    t.advance_minute();
    assert_eq!(t.request_time(), (0, 0));
    t.set_time(10, 59);
    t.advance_minute();
    assert_eq!(t.request_time(), (11, 0));
    t.advance_minute();
    assert_eq!(t.request_time(), (11, 1));
}

#[test]
fn a_day_of_ticks_returns_to_start() {
    let mut t = TimeState::new(0);
    for _ in 0..(24 * 60) {
        t.advance_minute();
    }
    assert_eq!(t.request_time(), (6, 0));
}

#[test]
fn sync_from_elapsed_seconds() {
    let mut t = TimeState::new(0);
    // 25 hours, 7 minutes and 30 seconds of game time
    t.sync_to_elapsed(25 * 3600 + 7 * 60 + 30);
    assert_eq!(t.request_time(), (1, 7));
    t.sync_to_elapsed(59);
    assert_eq!(t.request_time(), (0, 0));
}

#[test]
fn parts_of_the_day() {
    assert_eq!(time_of_day(4), "Night");
    assert_eq!(time_of_day(5), "Dawn");
    assert_eq!(time_of_day(8), "Dawn");
    assert_eq!(time_of_day(9), "Day");
    assert_eq!(time_of_day(16), "Day");
    assert_eq!(time_of_day(17), "Dusk");
    assert_eq!(time_of_day(20), "Dusk");
    assert_eq!(time_of_day(21), "Night");
    for h in -2..30 {
        assert_eq!(is_daytime_hour(h), time_of_day(h) != "Night");
    }
}

#[test]
fn decimal_numerals() {
    assert_eq!(decimal_text(0), "0");
    assert_eq!(decimal_text(1234567890), "1234567890");
    assert_eq!(decimal_text(u64::MAX), u64::MAX.to_string());
    assert_eq!(signed_decimal_text(-42), "-42");
    assert_eq!(signed_decimal_text(i64::MIN), i64::MIN.to_string());
    assert_eq!(horizon::text::concat("ab", "cd"), "abcd");
}

#[test]
fn chat_answers() {
    let w = chat_reply(
        "sock1",
        &ChatRequest::Whisper { recipient: "bob".to_string(), message: "hi".to_string() },
    );
    assert_eq!(w.event, "whisper");
    assert!(!w.to_others);
    match w.payload {
        ChatPayload::FromSender { sender, message } => {
            assert_eq!(sender, "sock1");
            assert_eq!(message, "hi");
        }
        _ => panic!("expected a message from the sender"),
    }
    let b = chat_reply("sock2", &ChatRequest::Broadcast("all".to_string()));
    assert_eq!(b.event, "broadcast");
    assert!(b.to_others);
    let h = chat_reply("sock3", &ChatRequest::Help);
    assert_eq!(h.event, "help");
    match h.payload {
        ChatPayload::Text(t) => assert_eq!(t, help_text()),
        _ => panic!("expected text"),
    }
    assert_eq!(
        help_text(),
        "Available commands:\n/whisper <recipient> <message> - Send a private message\n/broadcast <message> - Send a message to all users\n/help - Show this help message"
    );
}

#[test]
fn occupancy_reports_crossings() {
    let mut o = Occupancy::new();
    assert!(!o.contains_player);
    assert_eq!(o.check_position(false), None);
    assert_eq!(o.check_position(true), Some(Crossing::Entered));
    assert_eq!(o.check_position(true), None);
    assert_eq!(o.check_position(false), Some(Crossing::Exited));
}

#[test]
fn sphere_ids_are_fresh() {
    let mut next: usize = 5;
    assert_eq!(allocate_id(&mut next), 5);
    assert_eq!(next, 6);
    let mut s = SphereRegistry::new();
    assert_eq!(s.add_sphere(), 0);
    assert_eq!(s.add_sphere(), 1);
    assert_eq!(s.bulk_add_spheres(3), vec![2, 3, 4]);
    assert_eq!(s.sphere_count(), 5);
    assert!(s.remove_sphere(1));
    assert!(!s.remove_sphere(1));
    assert_eq!(s.sphere_count(), 4);
    assert_eq!(s.add_sphere(), 5);
}

#[test]
fn sphere_updates() {
    let mut s = SphereRegistry::new();
    let a = s.add_sphere();
    assert_eq!(s.update_sphere(a, true), Some(Crossing::Entered));
    assert_eq!(s.update_sphere(a, true), None);
    assert_eq!(s.update_sphere(a, false), Some(Crossing::Exited));
    assert_eq!(s.update_sphere(99, true), None);
    assert!(s.remove_sphere(a));
    assert_eq!(s.update_sphere(a, true), None);
}

#[test]
fn objects_keep_names_and_tags() {
    let mut o = BaseObject::new("Crate".to_string());
    assert_eq!(o.get_name(), "Crate");
    assert_eq!(o.begin_play(), "Object 'Crate' began play");
    assert!(!o.has_tag("wood"));
    o.add_tag("wood".to_string());
    o.add_tag("heavy".to_string());
    assert!(o.has_tag("wood"));
    assert!(!o.has_tag("metal"));
    assert_eq!(o.get_tags(), &["wood".to_string(), "heavy".to_string()]);
    o.set_name("Box".to_string());
    assert_eq!(o.get_name(), "Box");
    assert_eq!(o.end_play(), "Object 'Box' ended play");
}

#[test]
fn default_server_config() {
    let c = ServerConfig::new();
    assert_eq!(c.players_per_pool, 5000);
    assert_eq!(c.num_thread_pools, 60);
    assert_eq!(ServerConfig::log_level(), "info");
}

#[test]
fn load_times_add_up_over_threads() {
    let loaded = vec!["a".to_string(), "b".to_string(), "c".to_string()];
    let times = vec![("a".to_string(), 5u128), ("c".to_string(), 7u128)];
    let mut totals: Vec<(String, u128)> = Vec::new();
    add_load_times(&mut totals, &loaded, &times);
    let total = |t: &Vec<(String, u128)>, n: &str| t.iter().find(|(k, _)| k == n).map(|(_, v)| *v);
    assert_eq!(total(&totals, "a"), Some(5));
    assert_eq!(total(&totals, "b"), None);
    assert_eq!(total(&totals, "c"), Some(7));
    add_load_times(&mut totals, &loaded, &times);
    assert_eq!(total(&totals, "a"), Some(10));
    assert_eq!(total(&totals, "c"), Some(14));
    assert_eq!(totals.len(), 2);
}

#[test]
fn clock_server_steps() {
    let mut t = TimeState::new(0);
    t.step(ClockStep::Pause);
    assert_eq!(t.request_time(), (6, 0));
    t.step(ClockStep::Tick);
    assert_eq!(t.request_time(), (6, 1));
    t.step(ClockStep::Sync(2 * 3600 + 5 * 60));
    assert_eq!(t.request_time(), (2, 5));
    t.set_time(23, 59);
    t.step(ClockStep::Tick);
    assert_eq!(t.request_time(), (0, 0));
}
