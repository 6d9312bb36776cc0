//! The vote tally that the bot keeps between commands.

use vstd::prelude::*;
use vstd::string::StringExecFns;
use crate::decimal::{decimal, decimal_string};
use crate::text::str_eq;

verus! {

/// One choice and the votes it has.
pub struct VoteEntry {
    pub choice: String,
    pub count: u32,
}

/// The bot's shared state: the votes cast so far, by choice, in the order in
/// which each choice got its first vote.
pub struct Data {
    pub votes: Vec<VoteEntry>,
}

/// The number of votes that the first entry for `choice`, from index `from`
/// on, holds; 0 where there is none.
pub open spec fn count_from(votes: Seq<VoteEntry>, choice: Seq<char>, from: int) -> nat
    decreases votes.len() - from,
{
    if from < 0 || from >= votes.len() {
        0
    } else if votes[from].choice@ == choice {
        votes[from].count as nat
    } else {
        count_from(votes, choice, from + 1)
    }
}

/// The entries of a tally as pairs of choice and votes.
pub open spec fn tally(votes: Seq<VoteEntry>) -> Seq<(Seq<char>, nat)> {
    Seq::new(votes.len(), |i: int| (votes[i].choice@, votes[i].count as nat))
}

/// A tally after one more vote for `choice`, looking for its entry from
/// index `from` on: the first entry for the choice holds one vote more, and
/// a choice without an entry gets one at the end, with one vote.
pub open spec fn voted(entries: Seq<(Seq<char>, nat)>, choice: Seq<char>, from: int) -> Seq<
    (Seq<char>, nat),
>
    decreases entries.len() - from,
{
    if from < 0 || from >= entries.len() {
        entries.push((choice, 1nat))
    } else if entries[from].0 == choice {
        entries.update(from, (choice, entries[from].1 + 1))
    } else {
        voted(entries, choice, from + 1)
    }
}

/// The message after a vote.
pub open spec fn vote_message(choice: Seq<char>, count: nat) -> Seq<char> {
    "Successfully voted for "@ + choice + ". "@ + choice + " now has "@ + decimal(count)
        + " votes!"@
}

/// The answer to a question about one choice.
pub open spec fn choice_report(choice: Seq<char>, count: nat) -> Seq<char> {
    if count == 0 {
        "Nobody has voted for "@ + choice + " yet"@
    } else {
        decimal(count) + " people have voted for "@ + choice
    }
}

/// One line for each of the first `upto` entries.
pub open spec fn listing(votes: Seq<VoteEntry>, upto: int) -> Seq<char>
    decreases upto,
{
    if upto <= 0 {
        Seq::empty()
    } else {
        listing(votes, upto - 1) + votes[upto - 1].choice@ + ": "@ + decimal(
            votes[upto - 1].count as nat,
        ) + " votes\n"@
    }
}

/// The answer to a question about all choices.
pub open spec fn full_report(votes: Seq<VoteEntry>) -> Seq<char> {
    if listing(votes, votes.len() as int).len() == 0 {
        "Nobody has voted for anything yet :("@
    } else {
        listing(votes, votes.len() as int)
    }
}

impl Data {
    /// No choice has two entries.
    pub open spec fn wf(&self) -> bool {
        forall|i: int, j: int|
            0 <= i < j < self.votes@.len() ==> self.votes@[i].choice@ != self.votes@[j].choice@
    }

    /// The votes that `choice` has.
    pub open spec fn count(&self, choice: Seq<char>) -> nat {
        count_from(self.votes@, choice, 0)
    }

    /// A tally without votes.
    pub fn new() -> (r: Data)
        ensures
            r.wf(),
            r.votes@.len() == 0,
            forall|choice: Seq<char>| r.count(choice) == 0,
    {
        Data { votes: Vec::new() }
    }

    fn position(&self, choice: &str) -> (r: Option<usize>)
        ensures
            match r {
                Some(i) => i < self.votes@.len() && self.votes@[i as int].choice@ == choice@
                    && self.count(choice@) == self.votes@[i as int].count && forall|j: int|
                    0 <= j < i ==> self.votes@[j].choice@ != choice@,
                None => self.count(choice@) == 0 && forall|j: int|
                    0 <= j < self.votes@.len() ==> self.votes@[j].choice@ != choice@,
            },
    {
        let mut i: usize = 0;
        while i < self.votes.len()
            invariant
                i <= self.votes@.len(),
                self.count(choice@) == count_from(self.votes@, choice@, i as int),
                forall|j: int| 0 <= j < i ==> self.votes@[j].choice@ != choice@,
            decreases self.votes@.len() - i,
        {
            if str_eq(self.votes[i].choice.as_str(), choice) {
                return Some(i);
            }
            i += 1;
        }
        None
    }

    /// The votes that `choice` has.
    pub fn votes_for(&self, choice: &str) -> (r: u32)
        ensures
            r == self.count(choice@),
    {
        match self.position(choice) {
            Some(i) => self.votes[i].count,
            None => 0,
        }
    }

    /// Casts one vote for `choice` and returns the votes it now has. Where
    /// the choice already holds as many votes as can be counted, nothing
    /// changes and `None` is returned.
    pub fn vote(&mut self, choice: &str) -> (r: Option<u32>)
        ensures
            old(self).wf() ==> final(self).wf(),
            match r {
                Some(n) => {
                    &&& tally(final(self).votes@) == voted(tally(old(self).votes@), choice@, 0)
                    &&& n == old(self).count(choice@) + 1
                    &&& final(self).count(choice@) == n
                    &&& forall|other: Seq<char>|
                        other != choice@ ==> final(self).count(other) == old(self).count(other)
                },
                None => old(self).count(choice@) == u32::MAX && final(self).votes@ == old(
                    self,
                ).votes@,
            },
    {
        match self.position(choice) {
            Some(i) => {
                let current = self.votes[i].count;
                if current == u32::MAX {
                    return None;
                }
                let ghost before = self.votes@;
                let entry = VoteEntry { choice: String::from_str(choice), count: current + 1 };
                self.votes.set(i, entry);
                proof {
                    let after = self.votes@;
                    assert forall|other: Seq<char>| other != choice@ implies count_from(
                        after,
                        other,
                        0,
                    ) == count_from(before, other, 0) by {
                        lemma_count_same_choices(before, after, other, i as int, 0);
                    }
                    lemma_count_at_first(after, choice@, i as int, 0);
                    lemma_voted_skips(tally(before), choice@, i as int, 0);
                    assert(tally(after) =~= tally(before).update(
                        i as int,
                        (choice@, (current + 1) as nat),
                    ));
                }
                Some(current + 1)
            },
            None => {
                let ghost before = self.votes@;
                self.votes.push(VoteEntry { choice: String::from_str(choice), count: 1 });
                proof {
                    let after = self.votes@;
                    assert forall|other: Seq<char>| other != choice@ implies count_from(
                        after,
                        other,
                        0,
                    ) == count_from(before, other, 0) by {
                        lemma_count_push(before, after, other, 0);
                    }
                    lemma_count_at_first(after, choice@, before.len() as int, 0);
                    lemma_voted_skips(tally(before), choice@, before.len() as int, 0);
                    assert(tally(after) =~= tally(before).push((choice@, 1nat)));
                }
                Some(1)
            },
        }
    }

    /// The answer to `getvotes`: about one choice where one is named, else
    /// about every choice that has an entry.
    pub fn getvotes(&self, choice: Option<&str>) -> (r: String)
        ensures
            r@ == match choice {
                Some(c) => choice_report(c@, self.count(c@)),
                None => full_report(self.votes@),
            },
    {
        match choice {
            Some(c) => {
                let n = self.votes_for(c);
                if n == 0 {
                    let mut out = String::from_str("Nobody has voted for ");
                    out.append(c);
                    out.append(" yet");
                    out
                } else {
                    let mut out = decimal_string(n as u64);
                    out.append(" people have voted for ");
                    out.append(c);
                    out
                }
            },
            None => {
                let mut out = String::new();
                let mut i: usize = 0;
                while i < self.votes.len()
                    invariant
                        i <= self.votes@.len(),
                        out@ == listing(self.votes@, i as int),
                    decreases self.votes@.len() - i,
                {
                    out.append(self.votes[i].choice.as_str());
                    out.append(": ");
                    out.append(decimal_string(self.votes[i].count as u64).as_str());
                    out.append(" votes\n");
                    i += 1;
                }
                if out.as_str().unicode_len() == 0 {
                    String::from_str("Nobody has voted for anything yet :(")
                } else {
                    out
                }
            },
        }
    }
}

/// The message that confirms a vote for `choice`, which now has `count`
/// votes.
pub fn vote_reply(choice: &str, count: u32) -> (r: String)
    ensures
        r@ == vote_message(choice@, count as nat),
{
    let mut out = String::from_str("Successfully voted for ");
    out.append(choice);
    out.append(". ");
    out.append(choice);
    out.append(" now has ");
    out.append(decimal_string(count as u64).as_str());
    out.append(" votes!");
    out
}

/// Entries that differ from `before` only in the count at index `i` count
/// the same for every other choice.
proof fn lemma_count_same_choices(
    before: Seq<VoteEntry>,
    after: Seq<VoteEntry>,
    other: Seq<char>,
    i: int,
    from: int,
)
    requires
        0 <= i < before.len(),
        0 <= from,
        after.len() == before.len(),
        forall|k: int| 0 <= k < before.len() && k != i ==> after[k] == before[k],
        after[i].choice@ == before[i].choice@,
        before[i].choice@ != other,
    ensures
        count_from(after, other, from) == count_from(before, other, from),
    decreases before.len() - from,
{
    if from < before.len() {
        lemma_count_same_choices(before, after, other, i, from + 1);
    }
}

/// Appending an entry for one choice leaves the count of every other choice.
proof fn lemma_count_push(before: Seq<VoteEntry>, after: Seq<VoteEntry>, other: Seq<char>, from: int)
    requires
        0 <= from,
        after.len() == before.len() + 1,
        forall|k: int| 0 <= k < before.len() ==> after[k] == before[k],
        after[before.len() as int].choice@ != other,
    ensures
        count_from(after, other, from) == count_from(before, other, from),
    decreases after.len() - from,
{
    if from < after.len() {
        lemma_count_push(before, after, other, from + 1);
    }
}

/// Where the first entry for `choice` at or after `from` stands at index
/// `i`, the count is the one held there.
proof fn lemma_count_at_first(votes: Seq<VoteEntry>, choice: Seq<char>, i: int, from: int)
    requires
        0 <= from <= i < votes.len(),
        votes[i].choice@ == choice,
        forall|k: int| from <= k < i ==> votes[k].choice@ != choice,
    ensures
        count_from(votes, choice, from) == votes[i].count,
    decreases i - from,
{
    if from < i {
        lemma_count_at_first(votes, choice, i, from + 1);
    }
}

/// Entries for other choices are passed over when the entry of a choice is
/// looked for.
proof fn lemma_voted_skips(entries: Seq<(Seq<char>, nat)>, choice: Seq<char>, i: int, from: int)
    requires
        0 <= from <= i <= entries.len(),
        forall|k: int| from <= k < i ==> entries[k].0 != choice,
    ensures
        voted(entries, choice, from) == voted(entries, choice, i),
    decreases i - from,
{
    if from < i {
        lemma_voted_skips(entries, choice, i, from + 1);
    }
}

} // verus!
