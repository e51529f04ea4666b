use crate::model::{schedulable_at, rescheduled, Card, Deck};
use vstd::prelude::*;

verus! {

/// The cards of a sequence of decks in traversal order: each deck's own cards,
/// then those of its subdecks, depth first, decks in their stored order.
pub open spec fn tree_cards(ds: Seq<Deck>) -> Seq<Card>
    decreases ds,
{
    if ds.len() == 0 {
        Seq::empty()
    } else {
        ds[0].cards@ + tree_cards(ds[0].subdecks@) + tree_cards(ds.subrange(1, ds.len() as int))
    }
}

/// For each card of `tree_cards(ds)`, the name of the deck that holds it.
pub open spec fn tree_labels(ds: Seq<Deck>) -> Seq<String>
    decreases ds,
{
    if ds.len() == 0 {
        Seq::empty()
    } else {
        Seq::new(ds[0].cards@.len(), |i: int| ds[0].name) + tree_labels(ds[0].subdecks@)
            + tree_labels(ds.subrange(1, ds.len() as int))
    }
}

/// A card is due at `now` when its next review time has passed, or when it
/// has none.
pub open spec fn is_due(c: Card, now: u64) -> bool {
    match c.next_review {
        Some(t) => t < now,
        None => true,
    }
}

/// `q` holds the positions of exactly the cards that are due at `now`, each
/// once, in increasing order.
pub open spec fn is_due_queue(cards: Seq<Card>, now: u64, q: Seq<usize>) -> bool {
    &&& forall|k: int| 0 <= k < q.len() ==> #[trigger] q[k] < cards.len() && is_due(cards[q[k] as int], now)
    &&& forall|k: int, l: int| 0 <= k < l < q.len() ==> #[trigger] q[k] < #[trigger] q[l]
    &&& forall|h: int| 0 <= h < cards.len() && #[trigger] is_due(cards[h], now) ==> q.contains(h as usize)
}

/// All cards of a deck tree in one store, each with the name of the deck that
/// holds it. A card's handle is its position in traversal order; it stays the
/// same for the life of the store.
pub struct Collection {
    cards: Vec<Card>,
    labels: Vec<String>,
}

proof fn lemma_tree_lengths(ds: Seq<Deck>)
    ensures
        tree_cards(ds).len() == tree_labels(ds).len(),
    decreases ds,
{
    if ds.len() > 0 {
        lemma_tree_lengths(ds[0].subdecks@);
        lemma_tree_lengths(ds.subrange(1, ds.len() as int));
    }
}

fn gather(ds: Vec<Deck>, cards: &mut Vec<Card>, labels: &mut Vec<String>)
    ensures
        final(cards)@ == old(cards)@ + tree_cards(ds@),
        final(labels)@ == old(labels)@ + tree_labels(ds@),
    decreases ds,
{
    let ghost all = ds@;
    let ghost cards0 = old(cards)@;
    let ghost labels0 = old(labels)@;
    let ghost mut j: int = 0;
    let mut rest = ds;
    while rest.len() > 0
        invariant
            0 <= j <= all.len(),
            rest@ == all.subrange(j, all.len() as int),
            all == ds@,
            cards@ + tree_cards(rest@) == cards0 + tree_cards(all),
            labels@ + tree_labels(rest@) == labels0 + tree_labels(all),
        decreases rest.len(),
    {
        let ghost before = rest@;
        let d = rest.remove(0);
        assert(rest@ == before.subrange(1, before.len() as int));
        assert(d == all[j]);
        proof {
            j = j + 1;
        }
        let Deck { name, cards: mut own, subdecks } = d;
        let ghost own0 = own@;
        let ghost labels1 = labels@;
        let mut i: usize = 0;
        while i < own.len()
            invariant
                i <= own.len(),
                own@ == own0,
                labels@ == labels1 + Seq::new(i as nat, |k: int| name),
            decreases own.len() - i,
        {
            labels.push(name.clone());
            assert(labels@ =~= labels1 + Seq::new((i + 1) as nat, |k: int| name));
            i = i + 1;
        }
        cards.append(&mut own);
        assert(decreases_to!(ds => ds@));
        assert(decreases_to!(ds@ => all[j - 1]));
        assert(decreases_to!(all[j - 1] => all[j - 1].subdecks));
        gather(subdecks, cards, labels);
        assert(cards@ + tree_cards(rest@) =~= cards0 + tree_cards(all));
        assert(labels@ + tree_labels(rest@) =~= labels0 + tree_labels(all));
    }
    assert(cards@ =~= cards0 + tree_cards(all));
    assert(labels@ =~= labels0 + tree_labels(all));
}

impl Collection {
    /// The cards, by handle.
    pub closed spec fn cards(&self) -> Seq<Card> {
        self.cards@
    }

    /// The name of each card's deck, by handle.
    pub closed spec fn labels(&self) -> Seq<String> {
        self.labels@
    }

    /// Each card has a deck name.
    pub open spec fn wf(&self) -> bool {
        self.cards().len() == self.labels().len()
    }

    /// Takes the cards out of a deck tree, in traversal order.
    pub fn from_decks(decks: Vec<Deck>) -> (r: Self)
        ensures
            r.wf(),
            r.cards() == tree_cards(decks@),
            r.labels() == tree_labels(decks@),
    {
        let mut cards: Vec<Card> = Vec::new();
        let mut labels: Vec<String> = Vec::new();
        gather(decks, &mut cards, &mut labels);
        proof {
            lemma_tree_lengths(decks@);
        }
        assert(cards@ =~= tree_cards(decks@));
        assert(labels@ =~= tree_labels(decks@));
        Collection { cards, labels }
    }

    /// The number of cards.
    pub fn len(&self) -> (r: usize)
        ensures
            r == self.cards().len(),
    {
        self.cards.len()
    }

    /// The card with handle `h`.
    pub fn card(&self, h: usize) -> (r: &Card)
        requires
            h < self.cards().len(),
        ensures
            *r == self.cards()[h as int],
    {
        &self.cards[h]
    }

    /// The name of the deck that holds the card with handle `h`.
    pub fn label(&self, h: usize) -> (r: &String)
        requires
            self.wf(),
            h < self.cards().len(),
        ensures
            *r == self.labels()[h as int],
    {
        &self.labels[h]
    }

    /// Whether the card with handle `h` is due at `now`.
    pub fn is_due(&self, h: usize, now: u64) -> (r: bool)
        requires
            h < self.cards().len(),
        ensures
            r == is_due(self.cards()[h as int], now),
    {
        match self.cards[h].next_review {
            Some(t) => t < now,
            None => true,
        }
    }

    /// The handles of the cards that are due at `now`, in traversal order.
    pub fn due_cards(&self, now: u64) -> (r: Vec<usize>)
        ensures
            is_due_queue(self.cards(), now, r@),
    {
        let mut q: Vec<usize> = Vec::new();
        let mut i: usize = 0;
        while i < self.cards.len()
            invariant
                i <= self.cards@.len(),
                forall|k: int| 0 <= k < q@.len() ==> #[trigger] q@[k] < i && is_due(self.cards@[q@[k] as int], now),
                forall|k: int, l: int| 0 <= k < l < q@.len() ==> #[trigger] q@[k] < #[trigger] q@[l],
                forall|h: int| 0 <= h < i && #[trigger] is_due(self.cards@[h], now) ==> q@.contains(h as usize),
            decreases self.cards@.len() - i,
        {
            let ghost q0 = q@;
            let due = self.is_due(i, now);
            if due {
                q.push(i);
                assert(q@[q@.len() - 1] == i);
            }
            assert forall|h: int| 0 <= h <= i && #[trigger] is_due(self.cards@[h], now) implies q@.contains(h as usize) by {
                if h < i {
                    let k = choose|k: int| 0 <= k < q0.len() && q0[k] == h as usize;
                    assert(q@[k] == h as usize);
                } else {
                    assert(q@[q@.len() - 1] == i);
                }
            }
            i = i + 1;
        }
        q
    }

    /// Reschedules the card with handle `h` after a review at `now` (see
    /// `Card::schedule`) and returns its new next review time. No other card
    /// changes.
    pub fn schedule(&mut self, h: usize, now: u64, remembered: bool, jitter: u64) -> (r: u64)
        requires
            old(self).wf(),
            h < old(self).cards().len(),
            schedulable_at(now, jitter),
        ensures
            final(self).wf(),
            final(self).labels() == old(self).labels(),
            final(self).cards().len() == old(self).cards().len(),
            rescheduled(old(self).cards()[h as int], final(self).cards()[h as int], now, remembered, jitter),
            final(self).cards()[h as int].next_review == Some(r),
            forall|j: int| 0 <= j < old(self).cards().len() && j != h ==> final(self).cards()[j] == old(self).cards()[j],
    {
        self.cards[h].schedule(now, remembered, jitter)
    }
}

} // verus!
