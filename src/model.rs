use crate::chance::draw_jitter;
use crate::clock::current_unix_time;
use vstd::prelude::*;

verus! {

/// Lets std's `PathBuf` stand in a card, as a value that is only carried.
#[verifier::external_type_specification]
#[verifier::external_body]
pub struct ExPathBuf(std::path::PathBuf);

/// The interval given to a new or forgotten card: one day, in seconds.
pub const BASE_EASE: u64 = 86400;

/// The longest interval a card can reach: 180 days, in seconds.
pub const MAX_EASE: u64 = 180 * BASE_EASE;

/// A named node of the deck tree: its own cards, then its subdecks, in order.
/// The name is the deck's path below the collection's root, `/`-separated.
pub struct Deck {
    pub name: String,
    pub cards: Vec<Card>,
    pub subdecks: Vec<Deck>,
}

/// One review item.
pub struct Card {
    pub front: String,
    pub back: String,
    pub notes: Option<String>,
    pub examples: Option<Vec<ExampleSentence>>,
    pub explanation: Option<String>,
    pub history: Option<Vec<ReviewHistory>>,
    /// Seconds since the epoch; a card without a value is due.
    pub next_review: Option<u64>,
    /// The current interval in seconds.
    pub ease_factor: Option<u64>,
    /// Whether the card may be shown back side first.
    pub reversible: bool,
    /// The record the card was read from; only the storage layer uses it.
    pub file_path: Option<std::path::PathBuf>,
}

/// A sentence that uses the card's word, with its translation.
pub struct ExampleSentence {
    pub sentence: String,
    pub translation: String,
}

/// One past review: when it happened and whether the card was remembered.
pub struct ReviewHistory {
    pub date: u64,
    pub remembered: bool,
}

/// The reviews a card has had, oldest first; none where the list is absent.
pub open spec fn history_of(c: Card) -> Seq<ReviewHistory> {
    match c.history {
        Some(h) => h@,
        None => Seq::empty(),
    }
}

/// The interval a card's scheduling starts from: its ease, or one day.
pub open spec fn ease_or_base(ease: Option<u64>) -> int {
    match ease {
        Some(e) => e as int,
        None => BASE_EASE as int,
    }
}

/// The interval after a review: on success one and a half times the old one,
/// rounded down and capped at `MAX_EASE`; on failure one day.
pub open spec fn ease_after(ease: Option<u64>, remembered: bool) -> int {
    if remembered {
        let grown = ease_or_base(ease) * 3 / 2;
        if grown < MAX_EASE {
            grown
        } else {
            MAX_EASE as int
        }
    } else {
        BASE_EASE as int
    }
}

/// The next review time after a review at `now`: the new interval plus the
/// jitter on success, the jitter alone on failure.
pub open spec fn review_after(ease: Option<u64>, now: u64, remembered: bool, jitter: u64) -> int {
    if remembered {
        now + ease_after(ease, remembered) + jitter
    } else {
        now + jitter
    }
}

/// One second before `now`, the time a fresh card is given so that it is due
/// at once; `0` at the epoch itself.
pub open spec fn just_before(now: u64) -> u64 {
    if now > 0 {
        (now - 1) as u64
    } else {
        0
    }
}

/// An interval between one day and `MAX_EASE`.
pub open spec fn ease_in_range(ease: int) -> bool {
    BASE_EASE <= ease <= MAX_EASE
}

/// Everything but the scheduling fields and the history is the same.
pub open spec fn same_content(a: Card, b: Card) -> bool {
    &&& a.front == b.front
    &&& a.back == b.back
    &&& a.notes == b.notes
    &&& a.examples == b.examples
    &&& a.explanation == b.explanation
    &&& a.reversible == b.reversible
    &&& a.file_path == b.file_path
}

/// A review at `now` with the given jitter can be scheduled without the next
/// review time leaving the range of `u64`, whatever the card's interval.
pub open spec fn schedulable_at(now: u64, jitter: u64) -> bool {
    now as int + MAX_EASE as int + jitter as int <= u64::MAX as int
}

/// `after` is `before` rescheduled after a review at `now`: the new interval,
/// the new next review time, and the review appended to the history.
pub open spec fn rescheduled(
    before: Card,
    after: Card,
    now: u64,
    remembered: bool,
    jitter: u64,
) -> bool {
    &&& after.ease_factor == Some(ease_after(before.ease_factor, remembered) as u64)
    &&& after.next_review.is_some()
    &&& after.next_review.unwrap() == review_after(before.ease_factor, now, remembered, jitter)
    &&& after.history.is_some()
    &&& history_of(after) == history_of(before).push(ReviewHistory { date: now, remembered })
    &&& same_content(after, before)
}

impl Card {
    /// Cards may be reversed unless their record says otherwise.
    pub fn default_reversible() -> (r: bool)
        ensures
            r,
    {
        true
    }

    /// Reschedules the card after a review at `now`, adds the review to its
    /// history, and returns the new next review time.
    pub fn schedule(&mut self, now: u64, remembered: bool, jitter: u64) -> (r: u64)
        requires
            schedulable_at(now, jitter),
        ensures
            rescheduled(*old(self), *final(self), now, remembered, jitter),
            r == review_after(old(self).ease_factor, now, remembered, jitter),
            remembered ==> r >= now + final(self).ease_factor.unwrap(),
            !remembered ==> final(self).ease_factor == Some(BASE_EASE) && r >= now,
            ease_in_range(ease_or_base(old(self).ease_factor)) ==> ease_in_range(
                final(self).ease_factor.unwrap() as int,
            ),
    {
        let ghost before = *self;
        let ease = if remembered {
            let base = match self.ease_factor {
                Some(e) => e,
                None => BASE_EASE,
            };
            if base >= MAX_EASE {
                MAX_EASE
            } else {
                let grown = base + base / 2;
                assert(grown == base * 3 / 2);
                if grown < MAX_EASE {
                    grown
                } else {
                    MAX_EASE
                }
            }
        } else {
            BASE_EASE
        };
        self.ease_factor = Some(ease);
        let next = if remembered {
            now + ease + jitter
        } else {
            now + jitter
        };
        self.next_review = Some(next);
        let entry = ReviewHistory { date: now, remembered };
        match &mut self.history {
            Some(h) => h.push(entry),
            None => {
                self.history = Some(vec![entry]);
            },
        }
        assert(history_of(*self) =~= history_of(before).push(ReviewHistory { date: now, remembered }));
        next
    }

    /// Reschedules the card after a review at `current_time` with a jitter
    /// drawn by `draw_jitter`, and returns the new next review time.
    pub fn calculate_next_review(&mut self, current_time: u64, remembered: bool) -> (r: u64)
        requires
            schedulable_at(current_time, 1),
        ensures
            rescheduled(*old(self), *final(self), current_time, remembered, 0)
                || rescheduled(*old(self), *final(self), current_time, remembered, 1),
            final(self).next_review == Some(r),
    {
        let jitter = draw_jitter();
        self.schedule(current_time, remembered, jitter)
    }

    /// Fills in the scheduling fields that a freshly read card lacks: due one
    /// second before `now`, an interval of one day, an empty history. Fields
    /// that are present stay as they are.
    pub fn initialize_review_data_at(&mut self, now: u64)
        ensures
            final(self).next_review == (match old(self).next_review {
                Some(t) => Some(t),
                None => Some(just_before(now)),
            }),
            final(self).ease_factor == (match old(self).ease_factor {
                Some(e) => Some(e),
                None => Some(BASE_EASE),
            }),
            final(self).history.is_some(),
            history_of(*final(self)) == history_of(*old(self)),
            old(self).history.is_some() ==> final(self).history == old(self).history,
            same_content(*final(self), *old(self)),
    {
        if self.next_review.is_none() {
            self.next_review = Some(if now > 0 { now - 1 } else { 0 });
        }
        if self.ease_factor.is_none() {
            self.ease_factor = Some(BASE_EASE);
        }
        if self.history.is_none() {
            self.history = Some(Vec::new());
        }
    }

    /// Fills in the scheduling fields that a freshly read card lacks, making
    /// it due at once (see `initialize_review_data_at`), with the clock's time.
    pub fn initialize_review_data(&mut self)
        ensures
            final(self).next_review.is_some(),
            old(self).next_review.is_some() ==> final(self).next_review == old(self).next_review,
            old(self).next_review.is_none() ==> exists|now: u64|
                final(self).next_review == Some(#[trigger] just_before(now)),
            final(self).ease_factor == (match old(self).ease_factor {
                Some(e) => Some(e),
                None => Some(BASE_EASE),
            }),
            final(self).history.is_some(),
            history_of(*final(self)) == history_of(*old(self)),
            old(self).history.is_some() ==> final(self).history == old(self).history,
            same_content(*final(self), *old(self)),
    {
        let now = current_unix_time();
        self.initialize_review_data_at(now);
    }
}

/// The history of the `n`-th card of a chain of reviews holds, after what it
/// held at the start, one entry for each of the first `n` reviews.
proof fn lemma_history_prefix(
    cards: Seq<Card>,
    times: Seq<u64>,
    outcomes: Seq<bool>,
    jitters: Seq<u64>,
    n: int,
)
    requires
        cards.len() == times.len() + 1,
        outcomes.len() == times.len(),
        jitters.len() == times.len(),
        0 <= n <= times.len(),
        forall|i: int|
            0 <= i < times.len() ==> #[trigger] rescheduled(
                cards[i],
                cards[i + 1],
                times[i],
                outcomes[i],
                jitters[i],
            ),
    ensures
        history_of(cards[n]).len() == history_of(cards[0]).len() + n,
        forall|i: int|
            0 <= i < history_of(cards[0]).len() ==> history_of(cards[n])[i] == history_of(
                cards[0],
            )[i],
        forall|i: int|
            0 <= i < n ==> history_of(cards[n])[history_of(cards[0]).len() + i] == (ReviewHistory {
                date: times[i],
                remembered: outcomes[i],
            }),
    decreases n,
{
    if n > 0 {
        let k = n - 1;
        lemma_history_prefix(cards, times, outcomes, jitters, k);
        assert(rescheduled(cards[k], cards[k + 1], times[k], outcomes[k], jitters[k]));
    }
}

/// Reviewing a card with no history `N` times, one review after another,
/// leaves `N` history entries, the `i`-th carrying the time and the outcome of
/// the `i`-th review.
pub proof fn lemma_history_records_reviews(
    cards: Seq<Card>,
    times: Seq<u64>,
    outcomes: Seq<bool>,
    jitters: Seq<u64>,
)
    requires
        cards.len() == times.len() + 1,
        outcomes.len() == times.len(),
        jitters.len() == times.len(),
        history_of(cards[0]).len() == 0,
        forall|i: int|
            0 <= i < times.len() ==> #[trigger] rescheduled(
                cards[i],
                cards[i + 1],
                times[i],
                outcomes[i],
                jitters[i],
            ),
    ensures
        history_of(cards.last()).len() == times.len(),
        forall|i: int|
            0 <= i < times.len() ==> #[trigger] history_of(cards.last())[i] == (ReviewHistory {
                date: times[i],
                remembered: outcomes[i],
            }),
{
    lemma_history_prefix(cards, times, outcomes, jitters, times.len() as int);
}

/// After a remembered review the interval is one and a half times the old one
/// (one day where there was none), rounded down and capped at `MAX_EASE`, and
/// the next review lies at least that interval after the review.
pub proof fn lemma_remembered_review(before: Card, after: Card, now: u64, jitter: u64)
    requires
        rescheduled(before, after, now, true, jitter),
    ensures
        after.ease_factor.unwrap() == if ease_or_base(before.ease_factor) * 3 / 2 < MAX_EASE {
            ease_or_base(before.ease_factor) * 3 / 2
        } else {
            MAX_EASE as int
        },
        after.next_review.unwrap() >= now + after.ease_factor.unwrap(),
{
}

/// After a forgotten review the interval is exactly one day, and the next
/// review lies at or after the review.
pub proof fn lemma_forgotten_review(before: Card, after: Card, now: u64, jitter: u64)
    requires
        rescheduled(before, after, now, false, jitter),
    ensures
        after.ease_factor == Some(BASE_EASE),
        after.next_review.unwrap() >= now,
{
}

} // verus!
