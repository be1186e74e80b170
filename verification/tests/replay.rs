use liglicko2::encounter::{Outcome, RawEncounter, Speed};
use liglicko2::player::PlayerIds;
use liglicko2::replay::{
    percentile_index, percentile_index_or_last, sample, DeviationHistogram, Encounter, Wdl,
};

fn raw(white: &str, black: &str, result: &str) -> RawEncounter {
    RawEncounter::from_fields(
        white.to_owned(),
        black.to_owned(),
        result,
        "2024-01-31 23:59:59",
        "60+1",
    )
    .unwrap()
}

#[test]
fn an_encounter_numbers_white_before_black() {
    let mut players = PlayerIds::default();
    let game = Encounter::resolve(raw("anna", "boris", "0-1"), &mut players).unwrap();
    assert_eq!(players.len(), 2);
    assert_eq!(players.get("anna"), Some(game.white));
    assert_eq!(players.get("boris"), Some(game.black));
    assert_eq!(game.white_score, Outcome::Loss);
    assert_eq!(game.utc_date_time.as_seconds(), 1_706_745_599);
    assert_eq!(game.speed, Speed::Bullet);

    let mut numbered = PlayerIds::default();
    let first = numbered.get_or_insert("anna".to_owned());
    let second = numbered.get_or_insert("boris".to_owned());
    assert_eq!(game.white, first);
    assert_eq!(game.black, second);
}

#[test]
fn an_encounter_finds_known_players() {
    let mut players = PlayerIds::default();
    let boris = players.get_or_insert("boris".to_owned());
    let game = Encounter::resolve(raw("anna", "boris", "1/2-1/2"), &mut players).unwrap();
    assert_eq!(game.black, boris);
    assert_ne!(game.white, boris);
    assert_eq!(game.white_score, Outcome::Draw);
    assert_eq!(players.len(), 2);
}

#[test]
fn a_player_may_meet_themselves() {
    let mut players = PlayerIds::default();
    let game = Encounter::resolve(raw("anna", "anna", "1-0"), &mut players).unwrap();
    assert_eq!(game.white, game.black);
    assert_eq!(game.white_score, Outcome::Win);
    assert_eq!(players.len(), 1);
}

#[test]
fn a_game_without_result_still_registers_its_players() {
    let mut players = PlayerIds::default();
    assert!(Encounter::resolve(raw("anna", "boris", "*"), &mut players).is_none());
    assert_eq!(players.len(), 2);
    assert!(players.get("anna").is_some());
    assert!(players.get("boris").is_some());
}

#[test]
fn a_new_histogram_is_empty() {
    assert!(DeviationHistogram::default().buckets().is_empty());
}

#[test]
fn record_grows_the_histogram_and_counts() {
    let nothing = Wdl::default();
    assert_eq!(nothing, Wdl { wins: 0, draws: 0, losses: 0 });
    let mut histogram = DeviationHistogram::default();
    histogram.record(2, Outcome::Win);
    assert_eq!(histogram.buckets(), &[nothing, nothing, Wdl { wins: 1, draws: 0, losses: 0 }]);
    histogram.record(2, Outcome::Win);
    histogram.record(2, Outcome::Loss);
    histogram.record(0, Outcome::Draw);
    assert_eq!(
        histogram.buckets(),
        &[Wdl { wins: 0, draws: 1, losses: 0 }, nothing, Wdl { wins: 2, draws: 0, losses: 1 }]
    );
    histogram.record(3, Outcome::Loss);
    assert_eq!(histogram.buckets().len(), 4);
    assert_eq!(histogram.buckets()[3], Wdl { wins: 0, draws: 0, losses: 1 });
    assert_eq!(histogram.buckets()[2], Wdl { wins: 2, draws: 0, losses: 1 });
}

#[test]
fn sample_takes_every_value_of_a_small_table() {
    let table = [Some(1), None, Some(3), None, None, Some(6)];
    assert_eq!(sample(&table), [&1, &3, &6]);
    let empty: [Option<u8>; 0] = [];
    assert!(sample(&empty).is_empty());
    assert!(sample(&[None::<u8>, None]).is_empty());
}

#[test]
fn sample_takes_every_place_below_a_hundred_thousand() {
    let table: Vec<Option<usize>> = (0..99_999).map(Some).collect();
    let values = sample(&table);
    assert_eq!(values.len(), 99_999);
    assert!(values.iter().enumerate().all(|(place, value)| **value == place));
}

#[test]
fn sample_strides_over_a_large_table() {
    let table: Vec<Option<usize>> =
        (0..250_001).map(|place| if place % 6 == 0 { None } else { Some(place) }).collect();
    let expected: Vec<usize> = (0..250_001).step_by(3).filter(|place| place % 6 != 0).collect();
    let values: Vec<usize> = sample(&table).into_iter().copied().collect();
    assert_eq!(values, expected);

    let table: Vec<Option<usize>> = (0..100_000).map(Some).collect();
    let values = sample(&table);
    assert_eq!(values.len(), 50_000);
    assert_eq!(*values[1], 2);
    assert_eq!(*values[49_999], 99_998);
}

#[test]
fn percentile_index_is_the_hundredth_part() {
    assert_eq!(percentile_index(200, 1), Some(2));
    assert_eq!(percentile_index(200, 10), Some(20));
    assert_eq!(percentile_index(200, 50), Some(100));
    assert_eq!(percentile_index(200, 99), Some(198));
    assert_eq!(percentile_index(7, 50), Some(3));
    assert_eq!(percentile_index(7, 99), Some(6));
    assert_eq!(percentile_index(7, 0), Some(0));
    assert_eq!(percentile_index(1, 99), Some(0));
}

#[test]
fn percentile_index_has_no_place_beyond_the_values() {
    assert_eq!(percentile_index(0, 0), None);
    assert_eq!(percentile_index(0, 50), None);
    assert_eq!(percentile_index(7, 100), None);
    assert_eq!(percentile_index(7, 1000), None);
    assert_eq!(percentile_index(usize::MAX, usize::MAX), None);
    assert_eq!(percentile_index(usize::MAX, 100), None);
    assert_eq!(percentile_index(usize::MAX, 50), Some(usize::MAX / 2));
}

#[test]
fn percentile_index_or_last_ends_at_the_last_place() {
    assert_eq!(percentile_index_or_last(10, 0), Some(0));
    assert_eq!(percentile_index_or_last(10, 10), Some(1));
    assert_eq!(percentile_index_or_last(10, 90), Some(9));
    assert_eq!(percentile_index_or_last(10, 100), Some(9));
    assert_eq!(percentile_index_or_last(10, 250), Some(9));
    assert_eq!(percentile_index_or_last(1, 100), Some(0));
    assert_eq!(percentile_index_or_last(0, 0), None);
    assert_eq!(percentile_index_or_last(0, 100), None);
}
