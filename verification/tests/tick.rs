use nwahttp::server_info::events::WebsocketEvent;
use nwahttp::server_info::logic::ServerInfo;
use nwahttp::server_info::samples::TickSample;
use nwahttp::{tick, TickCounter, LOW_FREQUENCY_INTERVAL, TICK_PERIOD};

#[test]
fn the_constants_of_the_cadence() {
    assert_eq!(TICK_PERIOD, 1000);
    assert_eq!(LOW_FREQUENCY_INTERVAL, 20);
}

#[test]
fn a_new_counter_is_at_zero() {
    let counter = TickCounter::new();
    assert_eq!(counter.get(), 0);
    assert!(!counter.next_is_low_frequency());
}

#[test]
fn the_counter_advances_by_one() {
    let mut counter = TickCounter::new();
    assert!(!counter.advance());
    assert_eq!(counter.get(), 1);
    assert!(!counter.advance());
    assert_eq!(counter.get(), 2);
}

#[test]
fn the_counter_wraps_after_a_thousand_ticks() {
    let mut counter = TickCounter::new();
    let mut i = 0;
    while i < 999 {
        counter.advance();
        i += 1;
    }
    assert_eq!(counter.get(), 999);
    counter.advance();
    assert_eq!(counter.get(), 0);
}

#[test]
fn the_counter_returns_to_any_value_after_a_period() {
    let mut counter = TickCounter::new();
    let mut i = 0;
    while i < 137 {
        counter.advance();
        i += 1;
    }
    assert_eq!(counter.get(), 137);
    let mut i = 0;
    while i < 1000 {
        counter.advance();
        assert!(counter.get() < 1000);
        i += 1;
    }
    assert_eq!(counter.get(), 137);
}

#[test]
fn every_twentieth_tick_is_a_low_frequency_tick() {
    let mut counter = TickCounter::new();
    let mut count: u64 = 0;
    let mut low_frequency_ticks = 0;
    while count < 3000 {
        let announced = counter.next_is_low_frequency();
        let low = counter.advance();
        count += 1;
        assert_eq!(low, announced);
        assert_eq!(low, count % 20 == 0);
        assert_eq!(counter.get(), count % 1000);
        if low {
            low_frequency_ticks += 1;
        }
    }
    assert_eq!(low_frequency_ticks, 150);
}

#[test]
fn the_thousandth_tick_is_a_low_frequency_tick() {
    let mut counter = TickCounter::new();
    let mut i = 0;
    while i < 999 {
        counter.advance();
        i += 1;
    }
    assert!(counter.next_is_low_frequency());
    assert!(counter.advance());
    assert_eq!(counter.get(), 0);
}

#[test]
fn a_tick_with_nobody_connected_broadcasts_nothing() {
    let mut counter = TickCounter::new();
    let mut info = ServerInfo::new();
    let samples: Vec<TickSample> = Vec::new();
    let mut i = 0;
    while i < 40 {
        let report = tick(&mut counter, &mut info, &samples);
        assert!(report.event.is_none());
        assert!(report.observations.is_empty());
        i += 1;
    }
    assert_eq!(counter.get(), 40);
}

#[test]
fn a_tick_counts_and_picks_the_event_by_the_cadence() {
    let mut counter = TickCounter::new();
    let mut info = ServerInfo::new();
    let sample = nwahttp::server_info::samples::PlayerSample {
        rot_x: 0,
        rot_z: 0,
        is_outside: false,
        cell: "Balmora".to_string(),
        pos_x: 0,
        pos_y: 0,
        pos_z: 0,
        health_base: 0,
        health_current: 0,
        fatigue_base: 0,
        fatigue_current: 0,
        magicka_base: 0,
        magicka_current: 0,
        level: 1,
        level_progress: 0,
    };
    let details =
        nwahttp::server_info::samples::DetailSample { attributes: vec![], skills: vec![] };
    let identity = nwahttp::server_info::samples::IdentitySample {
        name: "Fargoth".to_string(),
        race: String::new(),
        head: String::new(),
        hair: String::new(),
        major_skills: [0, 1],
        minor_skills: [2, 3, 4, 5, 6],
        class_specialization: 0,
        default_class: "Warrior".to_string(),
        class_name: String::new(),
        class_description: String::new(),
    };
    info.add_player(7, &sample, &identity, &details);
    let samples: Vec<TickSample> = Vec::new();
    let mut count = 0;
    while count < 45 {
        let report = tick(&mut counter, &mut info, &samples);
        count += 1;
        assert_eq!(counter.get(), count);
        match report.event {
            Some(WebsocketEvent::FullPlayer(_)) => assert!(count % 20 == 0),
            Some(WebsocketEvent::PlayerPosition(_)) => assert!(count % 20 != 0),
            None => panic!("a player is connected: an event was expected"),
        }
    }
}

#[test]
fn the_default_counter_is_at_zero() {
    let counter = TickCounter::default();
    assert_eq!(counter.get(), 0);
}
