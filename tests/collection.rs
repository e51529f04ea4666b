use flashcards::collection::Collection;
use flashcards::model::{Card, Deck};

fn card(front: &str, next_review: Option<u64>) -> Card {
    Card {
        front: front.to_string(),
        back: format!("{} back", front),
        notes: None,
        examples: None,
        explanation: None,
        history: Some(Vec::new()),
        next_review,
        ease_factor: Some(86400),
        reversible: true,
        file_path: None,
    }
}

fn deck(name: &str, cards: Vec<Card>, subdecks: Vec<Deck>) -> Deck {
    Deck { name: name.to_string(), cards, subdecks }
}

fn sample() -> Vec<Deck> {
    vec![
        deck(
            "german",
            vec![card("g1", Some(10)), card("g2", Some(500))],
            vec![
                deck(
                    "german/verbs",
                    vec![card("v1", None)],
                    vec![deck("german/verbs/irregular", vec![card("i1", Some(99))], vec![])],
                ),
                deck("german/nouns", vec![card("n1", Some(100))], vec![]),
            ],
        ),
        deck("french", vec![card("f1", Some(1))], vec![]),
    ]
}

#[test]
fn traversal_visits_own_cards_before_subdecks() {
    let c = Collection::from_decks(sample());
    assert_eq!(c.len(), 6);
    let fronts: Vec<&str> = (0..c.len()).map(|h| c.card(h).front.as_str()).collect();
    assert_eq!(fronts, vec!["g1", "g2", "v1", "i1", "n1", "f1"]);
}

#[test]
fn traversal_labels_with_immediate_deck() {
    let c = Collection::from_decks(sample());
    let labels: Vec<&str> = (0..c.len()).map(|h| c.label(h).as_str()).collect();
    assert_eq!(
        labels,
        vec!["german", "german", "german/verbs", "german/verbs/irregular", "german/nouns", "french"]
    );
}

#[test]
fn due_cards_are_exactly_the_past_ones() {
    let c = Collection::from_decks(sample());
    assert_eq!(c.due_cards(100), vec![0, 2, 3, 5]);
    assert_eq!(c.due_cards(0), vec![2]);
    assert_eq!(c.due_cards(1000), vec![0, 1, 2, 3, 4, 5]);
}

#[test]
fn card_due_exactly_now_is_not_due() {
    let c = Collection::from_decks(vec![deck("d", vec![card("a", Some(50))], vec![])]);
    assert_eq!(c.due_cards(50), Vec::<usize>::new());
    assert_eq!(c.due_cards(51), vec![0]);
    assert!(!c.is_due(0, 50));
    assert!(c.is_due(0, 51));
}

#[test]
fn empty_collection_has_nothing_due() {
    let c = Collection::from_decks(vec![]);
    assert_eq!(c.len(), 0);
    assert!(c.due_cards(u64::MAX).is_empty());
    let c = Collection::from_decks(vec![deck("empty", vec![], vec![deck("empty/sub", vec![], vec![])])]);
    assert_eq!(c.len(), 0);
}

#[test]
fn identical_cards_keep_separate_handles() {
    let mut c = Collection::from_decks(vec![deck("d", vec![card("same", Some(1)), card("same", Some(1))], vec![])]);
    c.schedule(1, 10, true, 0);
    assert_eq!(c.card(0).next_review, Some(1));
    assert_eq!(c.card(1).next_review, Some(10 + 129600));
    assert_eq!(c.due_cards(10), vec![0]);
}
