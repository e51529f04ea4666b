use flashcards::chance::draw_jitter;
use flashcards::model::{Card, ExampleSentence, ReviewHistory, BASE_EASE, MAX_EASE};

fn card(front: &str, back: &str, ease: Option<u64>, next_review: Option<u64>) -> Card {
    Card {
        front: front.to_string(),
        back: back.to_string(),
        notes: Some("a note".to_string()),
        examples: Some(vec![ExampleSentence {
            sentence: "Der Hund schläft.".to_string(),
            translation: "The dog sleeps.".to_string(),
        }]),
        explanation: None,
        history: None,
        next_review,
        ease_factor: ease,
        reversible: true,
        file_path: None,
    }
}

#[test]
fn remembered_grows_ease_by_half() {
    let mut c = card("Hund", "dog", Some(86400), Some(0));
    let next = c.schedule(1000, true, 1);
    assert_eq!(c.ease_factor, Some(129600));
    assert_eq!(next, 130601);
    assert_eq!(c.next_review, Some(130601));
}

#[test]
fn forgotten_resets_ease() {
    let mut c = card("Hund", "dog", Some(86400), Some(0));
    let next = c.schedule(1000, false, 1);
    assert_eq!(c.ease_factor, Some(86400));
    assert_eq!(next, 1001);
    assert_eq!(c.next_review, Some(1001));
}

#[test]
fn forgotten_after_long_interval_goes_back_to_one_day() {
    let mut c = card("Katze", "cat", Some(40 * BASE_EASE), Some(5));
    let next = c.schedule(5000, false, 0);
    assert_eq!(c.ease_factor, Some(BASE_EASE));
    assert_eq!(next, 5000);
}

#[test]
fn remembered_ease_rounds_down() {
    let mut c = card("a", "b", Some(86401), None);
    c.schedule(0, true, 0);
    assert_eq!(c.ease_factor, Some(129601));
}

#[test]
fn remembered_ease_is_capped() {
    let mut c = card("a", "b", Some(MAX_EASE - 10), None);
    let next = c.schedule(100, true, 1);
    assert_eq!(c.ease_factor, Some(MAX_EASE));
    assert_eq!(next, 100 + MAX_EASE + 1);
    assert_eq!(MAX_EASE, 180 * 86400);
}

#[test]
fn remembered_huge_ease_is_capped() {
    let mut c = card("a", "b", Some(u64::MAX), None);
    c.schedule(7, true, 0);
    assert_eq!(c.ease_factor, Some(MAX_EASE));
}

#[test]
fn missing_ease_starts_from_one_day() {
    let mut c = card("a", "b", None, None);
    let next = c.schedule(1000, true, 0);
    assert_eq!(c.ease_factor, Some(129600));
    assert_eq!(next, 1000 + 129600);
}

#[test]
fn schedule_keeps_content() {
    let mut c = card("Hund", "dog", Some(86400), Some(0));
    c.reversible = false;
    c.schedule(1000, true, 1);
    assert_eq!(c.front, "Hund");
    assert_eq!(c.back, "dog");
    assert_eq!(c.notes.as_deref(), Some("a note"));
    assert_eq!(c.examples.as_ref().map(|e| e.len()), Some(1));
    assert!(!c.reversible);
}

#[test]
fn history_records_each_review() {
    let mut c = card("Hund", "dog", None, None);
    let reviews = [(10u64, true), (200_000, false), (300_000, true), (900_000, true)];
    for (t, r) in reviews.iter() {
        c.schedule(*t, *r, 1);
    }
    let h = c.history.as_ref().unwrap();
    assert_eq!(h.len(), reviews.len());
    for (i, (t, r)) in reviews.iter().enumerate() {
        assert_eq!(h[i].date, *t);
        assert_eq!(h[i].remembered, *r);
    }
}

#[test]
fn history_appends_to_existing() {
    let mut c = card("Hund", "dog", None, None);
    c.history = Some(vec![ReviewHistory { date: 3, remembered: false }]);
    c.schedule(50, true, 0);
    let h = c.history.as_ref().unwrap();
    assert_eq!(h.len(), 2);
    assert_eq!(h[0].date, 3);
    assert!(!h[0].remembered);
    assert_eq!(h[1].date, 50);
    assert!(h[1].remembered);
}

#[test]
fn calculate_next_review_uses_small_jitter() {
    let mut c = card("Hund", "dog", Some(86400), Some(0));
    let next = c.calculate_next_review(1000, true);
    assert!(next == 130600 || next == 130601);
    assert_eq!(c.next_review, Some(next));
    assert_eq!(c.ease_factor, Some(129600));
    let mut f = card("Hund", "dog", Some(86400), Some(0));
    let next = f.calculate_next_review(1000, false);
    assert!(next == 1000 || next == 1001);
    assert_eq!(f.history.as_ref().map(|h| h.len()), Some(1));
}

#[test]
fn jitter_is_zero_or_one_and_takes_both() {
    let mut seen = [false, false];
    for _ in 0..200 {
        let j = draw_jitter();
        assert!(j <= 1);
        seen[j as usize] = true;
    }
    assert!(seen[0] && seen[1]);
}

#[test]
fn initialize_fills_missing_fields() {
    let mut c = card("a", "b", None, None);
    c.initialize_review_data_at(5000);
    assert_eq!(c.next_review, Some(4999));
    assert_eq!(c.ease_factor, Some(BASE_EASE));
    assert_eq!(c.history.as_ref().map(|h| h.len()), Some(0));
}

#[test]
fn initialize_keeps_present_fields() {
    let mut c = card("a", "b", Some(300_000), Some(77));
    c.history = Some(vec![ReviewHistory { date: 1, remembered: true }]);
    c.initialize_review_data_at(5000);
    assert_eq!(c.next_review, Some(77));
    assert_eq!(c.ease_factor, Some(300_000));
    assert_eq!(c.history.as_ref().map(|h| h.len()), Some(1));
    c.initialize_review_data_at(9000);
    assert_eq!(c.next_review, Some(77));
}

#[test]
fn initialize_at_time_zero() {
    let mut c = card("a", "b", None, None);
    c.initialize_review_data_at(0);
    assert_eq!(c.next_review, Some(0));
}

#[test]
fn initialize_with_clock_makes_card_due() {
    let mut c = card("a", "b", None, None);
    c.initialize_review_data();
    let now = flashcards::current_unix_time();
    assert!(c.next_review.unwrap() < now);
    assert_eq!(c.ease_factor, Some(BASE_EASE));
    assert!(c.history.is_some());
}

#[test]
fn cards_are_reversible_by_default() {
    assert!(Card::default_reversible());
}
