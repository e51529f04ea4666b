use crate::chance::{coin, draw_jitter};
use crate::clock::current_unix_time;
use crate::collection::{is_due, is_due_queue, tree_cards, tree_labels, Collection};
use crate::model::{rescheduled, schedulable_at, Card, Deck, MAX_EASE};
use vstd::prelude::*;

verus! {

/// What the current card shows: the prompt side only, or both sides with the
/// notes, examples and explanation.
#[derive(Clone, Copy, PartialEq, Eq, Structural, Debug)]
pub enum CardState {
    Hint,
    Full,
}

/// Why a session could not start.
#[derive(Clone, Copy, PartialEq, Eq, Structural, Debug)]
pub enum SessionError {
    /// No card was due when the session started.
    NothingDue,
}

/// One review session: the card store, the queue of due cards, the current
/// card (the head of the queue), what it shows and which side is the prompt,
/// and the tally of outcomes.
///
/// A review counts its outcome and reschedules the card in memory before the
/// caller saves the card's record; a caller whose save fails ends the session
/// without reporting the tally, so a count is never shown for a review that
/// was not stored.
pub struct App {
    collection: Collection,
    state: CardState,
    remembered_count: u32,
    forgotten_count: u32,
    reversed: bool,
    allow_reversed: bool,
    due_cards: Vec<usize>,
    refreshed_at: u64,
    current_card: Option<usize>,
}

/// The abstract state of a session.
pub struct SessionView {
    /// The cards, by handle.
    pub cards: Seq<Card>,
    /// The name of each card's deck, by handle.
    pub labels: Seq<String>,
    /// The handles of the due cards, as last computed.
    pub queue: Seq<usize>,
    /// The time at which the queue was last computed.
    pub refreshed_at: u64,
    /// The card under review; none once the session is complete.
    pub current: Option<usize>,
    pub state: CardState,
    pub remembered: nat,
    pub forgotten: nat,
    /// The back of the current card is the prompt.
    pub reversed: bool,
    /// The session lets reversible cards be shown back side first.
    pub allow_reversed: bool,
}

/// The prompt is the back side only where the card allows it, the session
/// allows it, and the coin said so.
pub open spec fn orientation(card: Card, allow_reversed: bool, flip: bool) -> bool {
    card.reversible && allow_reversed && flip
}

impl SessionView {
    /// Each card has a deck name, the queue lists the cards due at the time it
    /// was computed, the current card is its head, and only a current card can
    /// be reversed.
    pub open spec fn wf(self) -> bool {
        &&& self.labels.len() == self.cards.len()
        &&& is_due_queue(self.cards, self.refreshed_at, self.queue)
        &&& self.current == if self.queue.len() > 0 {
            Some(self.queue[0])
        } else {
            None::<usize>
        }
        &&& self.reversed ==> self.current.is_some()
    }

    /// The queue was computed at `now` and its head, if any, is the current
    /// card, concealed, with its orientation chosen from `flip`.
    pub open spec fn presents(self, now: u64, flip: bool) -> bool {
        &&& self.refreshed_at == now
        &&& self.state == CardState::Hint
        &&& self.reversed == (self.current.is_some() && orientation(
            self.cards[self.current.unwrap() as int],
            self.allow_reversed,
            flip,
        ))
    }

    /// `after` is `self` once its current card `h` has been reviewed at `now`:
    /// the outcome counted, the card rescheduled with `jitter`, no other card
    /// changed, the queue recomputed at `now`, and its head presented.
    pub open spec fn advanced(
        self,
        after: SessionView,
        h: usize,
        remembered: bool,
        now: u64,
        jitter: u64,
        flip: bool,
    ) -> bool {
        &&& after.remembered == self.remembered + if remembered { 1nat } else { 0 }
        &&& after.forgotten == self.forgotten + if remembered { 0nat } else { 1 }
        &&& after.allow_reversed == self.allow_reversed
        &&& after.labels == self.labels
        &&& after.cards.len() == self.cards.len()
        &&& rescheduled(self.cards[h as int], after.cards[h as int], now, remembered, jitter)
        &&& forall|j: int| 0 <= j < self.cards.len() && j != h ==> after.cards[j] == self.cards[j]
        &&& after.presents(now, flip)
    }

    /// `after` and `r` are what recording an outcome at `now` gives: where
    /// there is a current card and its next review time fits, the card is
    /// reviewed (see `advanced`) and its handle returned; otherwise nothing
    /// changes and nothing is returned.
    pub open spec fn reviewed(
        self,
        after: SessionView,
        r: Option<usize>,
        remembered: bool,
        now: u64,
        jitter: u64,
        flip: bool,
    ) -> bool {
        if self.current.is_some() && schedulable_at(now, jitter) {
            &&& r == self.current
            &&& self.advanced(after, self.current.unwrap(), remembered, now, jitter, flip)
        } else {
            &&& r.is_none()
            &&& after == self
        }
    }
}

/// `r` is what starting a session over the cards of `decks` at `now` gives:
/// a session exactly where some card is due, whose queue was computed at `now`
/// and whose head is presented with its orientation chosen from `flip`;
/// otherwise `NothingDue`.
pub open spec fn started(
    decks: Seq<Deck>,
    allow_reversed: bool,
    now: u64,
    flip: bool,
    r: Result<App, SessionError>,
) -> bool {
    &&& r.is_ok() <==> exists|h: int|
        0 <= h < tree_cards(decks).len() && #[trigger] is_due(tree_cards(decks)[h], now)
    &&& match r {
        Ok(app) => {
            &&& app@.wf()
            &&& app@.cards == tree_cards(decks)
            &&& app@.labels == tree_labels(decks)
            &&& app@.allow_reversed == allow_reversed
            &&& app@.remembered == 0
            &&& app@.forgotten == 0
            &&& app@.presents(now, flip)
            &&& app@.current.is_some()
        },
        Err(e) => e == SessionError::NothingDue,
    }
}

impl View for App {
    type V = SessionView;

    closed spec fn view(&self) -> SessionView {
        SessionView {
            cards: self.collection.cards(),
            labels: self.collection.labels(),
            queue: self.due_cards@,
            refreshed_at: self.refreshed_at,
            current: self.current_card,
            state: self.state,
            remembered: self.remembered_count as nat,
            forgotten: self.forgotten_count as nat,
            reversed: self.reversed,
            allow_reversed: self.allow_reversed,
        }
    }
}

impl App {
    fn refresh_due_cards(&mut self, now: u64)
        requires
            old(self).collection.wf(),
        ensures
            final(self)@ == (SessionView {
                queue: final(self)@.queue,
                refreshed_at: now,
                ..old(self)@
            }),
            is_due_queue(final(self)@.cards, now, final(self)@.queue),
    {
        self.due_cards = self.collection.due_cards(now);
        self.refreshed_at = now;
    }

    /// Makes the head of the queue the current card, concealed, with its
    /// orientation chosen from `flip`; with an empty queue there is none.
    fn next_card(&mut self, flip: bool)
        requires
            old(self).collection.wf(),
            is_due_queue(old(self)@.cards, old(self)@.refreshed_at, old(self)@.queue),
        ensures
            final(self)@.wf(),
            final(self)@.presents(old(self)@.refreshed_at, flip),
            final(self)@ == (SessionView {
                current: final(self)@.current,
                state: final(self)@.state,
                reversed: final(self)@.reversed,
                ..old(self)@
            }),
    {
        self.state = CardState::Hint;
        if self.due_cards.len() > 0 {
            let h = self.due_cards[0];
            self.current_card = Some(h);
            self.reversed = self.collection.card(h).reversible && self.allow_reversed && flip;
        } else {
            self.current_card = None;
            self.reversed = false;
        }
    }

    /// Starts a session over the cards of `decks` at `now`: the due queue is
    /// computed and its head becomes the current card, with the back side as
    /// the prompt where the card and `allow_reversed` allow it and `flip` is
    /// set. Fails with `NothingDue`, before anything is shown, where no card is
    /// due.
    pub fn start(decks: Vec<Deck>, allow_reversed: bool, now: u64, flip: bool) -> (r: Result<
        App,
        SessionError,
    >)
        ensures
            started(decks@, allow_reversed, now, flip, r),
    {
        let collection = Collection::from_decks(decks);
        let mut app = App {
            collection,
            state: CardState::Hint,
            remembered_count: 0,
            forgotten_count: 0,
            reversed: false,
            allow_reversed,
            due_cards: Vec::new(),
            refreshed_at: now,
            current_card: None,
        };
        app.refresh_due_cards(now);
        if app.due_cards.len() == 0 {
            assert forall|h: int| 0 <= h < tree_cards(decks@).len() implies !#[trigger] is_due(
                tree_cards(decks@)[h],
                now,
            ) by {
                if is_due(tree_cards(decks@)[h], now) {
                    assert(app.due_cards@.contains(h as usize));
                }
            }
            return Err(SessionError::NothingDue);
        }
        app.next_card(flip);
        let h = app.due_cards[0];
        assert(is_due(tree_cards(decks@)[h as int], now));
        Ok(app)
    }

    /// Starts a session over the cards of `decks` at the clock's time, with a
    /// coin deciding the first card's orientation (see `start`).
    pub fn new(decks: Vec<Deck>, allow_reversed: bool) -> (r: Result<App, SessionError>)
        ensures
            exists|now: u64, flip: bool| #[trigger] started(decks@, allow_reversed, now, flip, r),
            (exists|h: int|
                0 <= h < tree_cards(decks@).len() && #[trigger] tree_cards(
                    decks@,
                )[h].next_review.is_none()) ==> r.is_ok(),
    {
        let ghost cards = tree_cards(decks@);
        let now = current_unix_time();
        let flip = coin();
        let r = App::start(decks, allow_reversed, now, flip);
        assert forall|h: int| 0 <= h < cards.len() && #[trigger] cards[h].next_review.is_none() implies r.is_ok() by {
            assert(is_due(cards[h], now));
        }
        r
    }

    /// Records the outcome of the current card's review at `now`: counts it,
    /// reschedules the card with `jitter`, recomputes the due queue at `now`
    /// and presents its head, with its orientation chosen from `flip`. Returns
    /// the handle of the reviewed card, whose record the caller is to save.
    /// Nothing changes where the session is complete (it has no current card),
    /// or where `now` is so late that the next review time would not fit.
    pub fn review_card(&mut self, remembered: bool, now: u64, jitter: u64, flip: bool) -> (r:
        Option<usize>)
        requires
            old(self)@.wf(),
            old(self)@.current.is_some() && remembered ==> old(self)@.remembered < u32::MAX,
            old(self)@.current.is_some() && !remembered ==> old(self)@.forgotten < u32::MAX,
        ensures
            final(self)@.wf(),
            old(self)@.reviewed(final(self)@, r, remembered, now, jitter, flip),
    {
        let h = match self.current_card {
            Some(h) => h,
            None => {
                return None;
            },
        };
        if jitter > u64::MAX - MAX_EASE || now > u64::MAX - MAX_EASE - jitter {
            return None;
        }
        if remembered {
            self.remembered_count = self.remembered_count + 1;
        } else {
            self.forgotten_count = self.forgotten_count + 1;
        }
        self.collection.schedule(h, now, remembered, jitter);
        self.refresh_due_cards(now);
        self.next_card(flip);
        Some(h)
    }

    /// Records the outcome of the current card's review (see `review_card`)
    /// at the clock's time, with a drawn jitter and a coin for the next card's
    /// orientation.
    pub fn advance(&mut self, remembered: bool) -> (r: Option<usize>)
        requires
            old(self)@.wf(),
            old(self)@.current.is_some() && remembered ==> old(self)@.remembered < u32::MAX,
            old(self)@.current.is_some() && !remembered ==> old(self)@.forgotten < u32::MAX,
        ensures
            final(self)@.wf(),
            old(self)@.current.is_none() ==> r.is_none(),
            exists|now: u64, jitter: u64, flip: bool|
                jitter <= 1 && #[trigger] old(self)@.reviewed(
                    final(self)@,
                    r,
                    remembered,
                    now,
                    jitter,
                    flip,
                ),
    {
        let now = current_unix_time();
        let jitter = draw_jitter();
        let flip = coin();
        self.review_card(remembered, now, jitter, flip)
    }

    /// Switches between showing the prompt only and showing the whole card.
    pub fn toggle_state(&mut self)
        ensures
            final(self)@ == (SessionView {
                state: match old(self)@.state {
                    CardState::Hint => CardState::Full,
                    CardState::Full => CardState::Hint,
                },
                ..old(self)@
            }),
    {
        self.state = match self.state {
            CardState::Hint => CardState::Full,
            CardState::Full => CardState::Hint,
        };
    }

    /// What the current card shows.
    pub fn state(&self) -> (r: CardState)
        ensures
            r == self@.state,
    {
        self.state
    }

    /// The number of cards remembered in this session.
    pub fn remembered_count(&self) -> (r: u32)
        ensures
            r == self@.remembered,
    {
        self.remembered_count
    }

    /// The number of cards forgotten in this session.
    pub fn forgotten_count(&self) -> (r: u32)
        ensures
            r == self@.forgotten,
    {
        self.forgotten_count
    }

    /// Whether the back of the current card is the prompt.
    pub fn reversed(&self) -> (r: bool)
        ensures
            r == self@.reversed,
    {
        self.reversed
    }

    /// The number of cards in the due queue.
    pub fn due_cards_count(&self) -> (r: usize)
        ensures
            r == self@.queue.len(),
    {
        self.due_cards.len()
    }

    /// Whether the queue ran empty: no card is under review.
    pub fn is_complete(&self) -> (r: bool)
        ensures
            r == self@.current.is_none(),
    {
        self.current_card.is_none()
    }

    /// The handle of the card under review.
    pub fn current_handle(&self) -> (r: Option<usize>)
        ensures
            r == self@.current,
    {
        self.current_card
    }

    /// The card under review.
    pub fn current_card(&self) -> (r: Option<&Card>)
        requires
            self@.wf(),
        ensures
            r.is_some() == self@.current.is_some(),
            r.is_some() ==> *r.unwrap() == self@.cards[self@.current.unwrap() as int],
    {
        match self.current_card {
            Some(h) => Some(self.collection.card(h)),
            None => None,
        }
    }

    /// The name of the deck that holds the card under review.
    pub fn current_deck_name(&self) -> (r: Option<&String>)
        requires
            self@.wf(),
        ensures
            r.is_some() == self@.current.is_some(),
            r.is_some() ==> *r.unwrap() == self@.labels[self@.current.unwrap() as int],
    {
        match self.current_card {
            Some(h) => Some(self.collection.label(h)),
            None => None,
        }
    }

    /// The session's cards, by handle.
    pub fn collection(&self) -> (r: &Collection)
        ensures
            r.cards() == self@.cards,
            r.labels() == self@.labels,
    {
        &self.collection
    }
}

/// A session whose only card due at `now` is the current one: once that card
/// is reviewed at `now`, its next review lies at `now` or later, so no card is
/// due, the queue is empty and the session is complete, and a fresh session's
/// counters hold the one outcome.
pub proof fn lemma_single_due_card_completes(
    before: SessionView,
    after: SessionView,
    h: usize,
    remembered: bool,
    now: u64,
    jitter: u64,
    flip: bool,
)
    requires
        before.wf(),
        after.wf(),
        before.current == Some(h),
        forall|j: int|
            0 <= j < before.cards.len() && j != h ==> !#[trigger] is_due(before.cards[j], now),
        before.remembered == 0,
        before.forgotten == 0,
        before.advanced(after, h, remembered, now, jitter, flip),
    ensures
        forall|j: int| 0 <= j < after.cards.len() ==> !#[trigger] is_due(after.cards[j], now),
        after.queue.len() == 0,
        after.current.is_none(),
        after.remembered == if remembered { 1nat } else { 0 },
        after.forgotten == if remembered { 0nat } else { 1 },
{
    assert(h < before.cards.len());
    assert forall|j: int| 0 <= j < after.cards.len() implies !#[trigger] is_due(after.cards[j], now) by {
        if j != h {
            assert(!is_due(before.cards[j], now));
        }
    }
    if after.queue.len() > 0 {
        assert(is_due(after.cards[after.queue[0] as int], now));
    }
}

} // verus!
