use music_player::selection::{choose_next, choose_weighted};
use music_player::utils::{weighted_random_selection, RandomSource, SelectionError};

#[test]
fn draw_of_no_chance_never_hits_and_of_full_chance_always() {
    let mut random = RandomSource::seeded(1);
    for denominator in [1u32, 2, 7, u32::MAX] {
        for _ in 0..200 {
            assert!(!random.draw(0, denominator));
            assert!(random.draw(denominator, denominator));
        }
    }
}

#[test]
fn draw_of_an_even_chance_hits_about_half_the_time() {
    let mut random = RandomSource::seeded(2);
    let mut hits = 0;
    for _ in 0..10_000 {
        if random.draw(1, 2) {
            hits += 1;
        }
    }
    assert!(hits > 4_500 && hits < 5_500, "{}", hits);
}

#[test]
fn equal_seeds_give_equal_draws() {
    let mut one = RandomSource::seeded(99);
    let mut other = RandomSource::seeded(99);
    for _ in 0..100 {
        assert_eq!(one.draw(1, 3), other.draw(1, 3));
    }
}

#[test]
fn weighted_selection_only_takes_positive_weights() {
    let mut random = RandomSource::seeded(3);
    let weights = [0, 3, 0, 0, 1, 0];
    for _ in 0..2_000 {
        let index = weighted_random_selection(&weights, &mut random).unwrap();
        assert!(index == 1 || index == 4);
    }
}

#[test]
fn weighted_selection_takes_the_only_positive_weight() {
    let mut random = RandomSource::seeded(4);
    for _ in 0..200 {
        assert_eq!(weighted_random_selection(&[0, 0, 5], &mut random), Ok(2));
        assert_eq!(weighted_random_selection(&[1], &mut random), Ok(0));
        assert_eq!(weighted_random_selection(&[u32::MAX, 0], &mut random), Ok(0));
    }
}

#[test]
fn weighted_selection_fails_without_a_positive_weight() {
    let mut random = RandomSource::seeded(5);
    assert_eq!(weighted_random_selection(&[], &mut random), Err(SelectionError::NoEligibleTracks));
    assert_eq!(weighted_random_selection(&[0], &mut random), Err(SelectionError::NoEligibleTracks));
    assert_eq!(weighted_random_selection(&[0, 0, 0], &mut random), Err(SelectionError::NoEligibleTracks));
}

#[test]
fn weighted_selection_fails_where_the_weights_are_too_many() {
    let mut random = RandomSource::seeded(6);
    assert_eq!(weighted_random_selection(&[u32::MAX, 1], &mut random), Err(SelectionError::WeightOverflow));
    assert_eq!(weighted_random_selection(&[1, u32::MAX, 0], &mut random), Err(SelectionError::WeightOverflow));
}

#[test]
fn weighted_selection_follows_the_weights() {
    let mut random = RandomSource::seeded(7);
    let mut counts = [0u32; 3];
    for _ in 0..30_000 {
        counts[weighted_random_selection(&[1, 2, 3], &mut random).unwrap()] += 1;
    }
    assert!(counts[0] > 4_500 && counts[0] < 5_500, "{:?}", counts);
    assert!(counts[1] > 9_400 && counts[1] < 10_600, "{:?}", counts);
    assert!(counts[2] > 14_300 && counts[2] < 15_700, "{:?}", counts);
}

#[test]
fn choose_weighted_never_takes_an_excluded_track() {
    let mut random = RandomSource::seeded(8);
    let weights = [5, 1, 1];
    let starred = [true, false, false];
    let excluded = [true, false, true];
    for _ in 0..500 {
        assert_eq!(choose_weighted(&weights, &starred, &excluded, &mut random), Ok(1));
    }
}

#[test]
fn choose_weighted_fails_where_nothing_may_play() {
    let mut random = RandomSource::seeded(9);
    assert_eq!(
        choose_weighted(&[1, 1], &[false, true], &[true, true], &mut random),
        Err(SelectionError::NoEligibleTracks)
    );
    assert_eq!(
        choose_weighted(&[0, 0], &[false, true], &[false, false], &mut random),
        Err(SelectionError::NoEligibleTracks)
    );
    assert_eq!(choose_weighted(&[], &[], &[], &mut random), Err(SelectionError::NoEligibleTracks));
}

#[test]
fn choose_weighted_fails_where_a_star_doubles_past_the_limit() {
    let mut random = RandomSource::seeded(10);
    assert_eq!(
        choose_weighted(&[u32::MAX], &[true], &[false], &mut random),
        Err(SelectionError::WeightOverflow)
    );
    assert_eq!(
        choose_weighted(&[u32::MAX / 2 + 1, 0], &[true, false], &[false, false], &mut random),
        Err(SelectionError::WeightOverflow)
    );
    assert_eq!(choose_weighted(&[u32::MAX / 2], &[true], &[false], &mut random), Ok(0));
    assert_eq!(choose_weighted(&[u32::MAX], &[true], &[true], &mut random), Err(SelectionError::NoEligibleTracks));
}

#[test]
fn starred_track_is_drawn_about_twice_as_often() {
    let mut random = RandomSource::seeded(11);
    let mut starred_draws = 0u32;
    let mut plain_draws = 0u32;
    for _ in 0..10_000 {
        match choose_weighted(&[1, 1], &[true, false], &[false, false], &mut random).unwrap() {
            0 => starred_draws += 1,
            _ => plain_draws += 1,
        }
    }
    let ratio = starred_draws as f64 / plain_draws as f64;
    assert!(ratio > 1.8 && ratio < 2.2, "{}", ratio);
}

#[test]
fn choose_next_takes_the_following_track() {
    let none = [false, false, false];
    assert_eq!(choose_next(0, &none), Ok(1));
    assert_eq!(choose_next(1, &none), Ok(2));
}

#[test]
fn choose_next_wraps_to_the_first_track() {
    assert_eq!(choose_next(2, &[false, false, false]), Ok(0));
    assert_eq!(choose_next(0, &[false]), Ok(0));
    assert_eq!(choose_next(4, &[false, true, true, true, true]), Ok(0));
}

#[test]
fn choose_next_passes_over_excluded_tracks() {
    assert_eq!(choose_next(0, &[false, true, true, false]), Ok(3));
    assert_eq!(choose_next(3, &[true, true, false, false]), Ok(2));
    assert_eq!(choose_next(1, &[true, false, true]), Ok(1));
}

#[test]
fn choose_next_fails_where_every_track_is_excluded() {
    assert_eq!(choose_next(0, &[true, true]), Err(SelectionError::NoEligibleTracks));
    assert_eq!(choose_next(0, &[]), Err(SelectionError::NoEligibleTracks));
}

#[test]
fn choose_next_takes_any_index_as_the_current_one() {
    assert_eq!(choose_next(7, &[false, false, false]), Ok(2));
    assert_eq!(choose_next(usize::MAX, &[false, false, false]), Ok((usize::MAX % 3 + 1) % 3));
}
