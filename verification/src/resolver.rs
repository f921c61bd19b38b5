//! The ordered-fallback resolver: candidates for one logical fetch are
//! tried strictly in order, the first success short-circuits, and when all
//! fail their labelled messages are aggregated in candidate order.

use vstd::prelude::*;

verus! {

use crate::error::SportError;

/// One labelled entry of the aggregated failure, `label: message`.
pub open spec fn entry_text(labels: Seq<Seq<char>>, errors: Seq<Seq<char>>, i: int) -> Seq<char> {
    labels[i] + ": "@ + errors[i]
}

/// The aggregated text of the entries from index `i` on, joined by `", "`.
pub open spec fn aggregate_from(labels: Seq<Seq<char>>, errors: Seq<Seq<char>>, i: int) -> Seq<
    char,
>
    decreases labels.len() - i,
{
    if i < 0 || i >= labels.len() {
        Seq::empty()
    } else if i == labels.len() - 1 {
        entry_text(labels, errors, i)
    } else {
        entry_text(labels, errors, i) + ", "@ + aggregate_from(labels, errors, i + 1)
    }
}

/// The aggregated failure text: every candidate's label and message, in
/// candidate order.
pub open spec fn aggregate_message(labels: Seq<Seq<char>>, errors: Seq<Seq<char>>) -> Seq<char> {
    aggregate_from(labels, errors, 0)
}

/// Where candidate `k`'s message starts, measured within the aggregate of
/// the entries from `i` on.
pub open spec fn rel_msg_offset(labels: Seq<Seq<char>>, errors: Seq<Seq<char>>, i: int, k: int) -> int
    decreases k - i,
{
    if k <= i {
        labels[i].len() as int + 2
    } else {
        entry_text(labels, errors, i).len() as int + 2 + rel_msg_offset(labels, errors, i + 1, k)
    }
}

/// Where candidate `k`'s message starts within the whole aggregate.
pub open spec fn msg_offset(labels: Seq<Seq<char>>, errors: Seq<Seq<char>>, k: int) -> int {
    rel_msg_offset(labels, errors, 0, k)
}

proof fn lemma_msg_in_aggregate_from(
    labels: Seq<Seq<char>>,
    errors: Seq<Seq<char>>,
    i: int,
    k: int,
)
    requires
        labels.len() == errors.len(),
        0 <= i <= k < labels.len(),
    ensures
        ({
            let s = aggregate_from(labels, errors, i);
            let pos = rel_msg_offset(labels, errors, i, k);
            &&& 0 <= pos
            &&& pos + errors[k].len() <= s.len()
            &&& s.subrange(pos, pos + errors[k].len()) == errors[k]
        }),
    decreases k - i,
{
    reveal_strlit(": ");
    reveal_strlit(", ");
    let s = aggregate_from(labels, errors, i);
    let pos = rel_msg_offset(labels, errors, i, k);
    if k == i {
        let entry = entry_text(labels, errors, i);
        assert(pos == labels[i].len() + 2);
        if i == labels.len() - 1 {
            assert(s == entry);
            assert(s.subrange(pos, pos + errors[k].len()) =~= errors[k]);
        } else {
            assert(s == entry + ", "@ + aggregate_from(labels, errors, i + 1));
            assert(s.subrange(pos, pos + errors[k].len()) =~= errors[k]);
        }
    } else {
        let entry = entry_text(labels, errors, i);
        assert(i < labels.len() - 1);
        assert(s == entry + ", "@ + aggregate_from(labels, errors, i + 1));
        lemma_msg_in_aggregate_from(labels, errors, i + 1, k);
        let rest = aggregate_from(labels, errors, i + 1);
        let rpos = rel_msg_offset(labels, errors, i + 1, k);
        assert(pos == entry.len() + 2 + rpos);
        assert(rest.subrange(rpos, rpos + errors[k].len()) == errors[k]);
        assert(s.subrange(pos, pos + errors[k].len()) =~= rest.subrange(
            rpos,
            rpos + errors[k].len(),
        ));
    }
}

proof fn lemma_rel_msg_offset_mono(labels: Seq<Seq<char>>, errors: Seq<Seq<char>>, i: int, k: int)
    requires
        labels.len() == errors.len(),
        0 <= i <= k,
        k + 1 < labels.len(),
    ensures
        rel_msg_offset(labels, errors, i, k) < rel_msg_offset(labels, errors, i, k + 1),
    decreases k - i,
{
    reveal_strlit(": ");
    if k == i {
        assert(rel_msg_offset(labels, errors, i, k) == labels[i].len() + 2);
        assert(rel_msg_offset(labels, errors, i, k + 1) == entry_text(labels, errors, i).len() + 2
            + rel_msg_offset(labels, errors, i + 1, k + 1));
        assert(rel_msg_offset(labels, errors, i + 1, k + 1) >= 0) by {
            lemma_rel_msg_offset_nonneg(labels, errors, i + 1, k + 1);
        }
    } else {
        lemma_rel_msg_offset_mono(labels, errors, i + 1, k);
    }
}

proof fn lemma_rel_msg_offset_nonneg(labels: Seq<Seq<char>>, errors: Seq<Seq<char>>, i: int, k: int)
    requires
        0 <= i <= k,
    ensures
        rel_msg_offset(labels, errors, i, k) >= 0,
    decreases k - i,
{
    if k > i {
        lemma_rel_msg_offset_nonneg(labels, errors, i + 1, k);
    }
}

/// Law of the aggregated failure: every candidate's message stands inside
/// the aggregate, at its computed offset, and the offsets grow with the
/// candidate index — the messages appear in candidate order.
pub proof fn lemma_aggregate_keeps_messages(
    labels: Seq<Seq<char>>,
    errors: Seq<Seq<char>>,
    k: int,
)
    requires
        labels.len() == errors.len(),
        0 <= k < labels.len(),
    ensures
        ({
            let s = aggregate_message(labels, errors);
            let pos = msg_offset(labels, errors, k);
            &&& 0 <= pos
            &&& pos + errors[k].len() <= s.len()
            &&& s.subrange(pos, pos + errors[k].len()) == errors[k]
            &&& k + 1 < labels.len() ==> pos < msg_offset(labels, errors, k + 1)
        }),
{
    lemma_msg_in_aggregate_from(labels, errors, 0, k);
    if k + 1 < labels.len() {
        lemma_rel_msg_offset_mono(labels, errors, 0, k);
    }
}

fn aggregate_exec(labels: &Vec<String>, errors: &Vec<String>, i: usize) -> (r: String)
    requires
        labels@.len() == errors@.len(),
        i <= labels@.len(),
    ensures
        r@ == aggregate_from(labels.deep_view(), errors.deep_view(), i as int),
    decreases labels@.len() - i,
{
    if i >= labels.len() {
        String::new()
    } else {
        let mut out = labels[i].clone();
        out.append(": ");
        out.append(errors[i].as_str());
        proof {
            assert(labels.deep_view()[i as int] == labels@[i as int]@);
            assert(errors.deep_view()[i as int] == errors@[i as int]@);
        }
        if i + 1 < labels.len() {
            out.append(", ");
            let rest = aggregate_exec(labels, errors, i + 1);
            out.append(rest.as_str());
        }
        out
    }
}

/// An ordered list of fallback candidates for one logical fetch. The caller
/// tries the candidate `next_index` names, records its failure or success,
/// and closes the resolver when nothing is left to try: the first success
/// wins, and after it no further candidate is ever offered.
pub struct FallbackResolver<T> {
    labels: Vec<String>,
    errors: Vec<String>,
    outcome: Option<T>,
}

impl<T> FallbackResolver<T> {
    /// The candidate labels, in priority order.
    pub closed spec fn spec_labels(&self) -> Seq<Seq<char>> {
        self.labels.deep_view()
    }

    /// The failure messages recorded so far, one per tried-and-failed
    /// candidate, in order.
    pub closed spec fn spec_errors(&self) -> Seq<Seq<char>> {
        self.errors.deep_view()
    }

    /// Whether a candidate has succeeded.
    pub closed spec fn has_outcome(&self) -> bool {
        self.outcome is Some
    }

    /// The successful value, if any.
    pub closed spec fn spec_outcome(&self) -> Option<T> {
        self.outcome
    }

    /// Failures never outnumber candidates, and a success froze the list.
    pub open spec fn wf(&self) -> bool {
        &&& self.spec_errors().len() <= self.spec_labels().len()
        &&& (self.has_outcome() ==> self.spec_errors().len() < self.spec_labels().len())
    }

    /// Nothing is left to decide: a success, or every candidate failed.
    pub open spec fn settled(&self) -> bool {
        self.has_outcome() || self.spec_errors().len() == self.spec_labels().len()
    }

    /// Starts a resolver over the given candidate labels.
    pub fn new(labels: Vec<String>) -> (r: FallbackResolver<T>)
        ensures
            r.wf(),
            r.spec_labels() == labels.deep_view(),
            r.spec_errors().len() == 0,
            !r.has_outcome(),
    {
        let r = FallbackResolver { labels, errors: Vec::new(), outcome: None };
        proof {
            assert(r.errors.deep_view() =~= Seq::<Seq<char>>::empty());
        }
        r
    }

    /// Which candidate to try next: the first untried one, and none at all
    /// once a candidate has succeeded or every candidate has failed.
    pub fn next_index(&self) -> (r: Option<usize>)
        requires
            self.wf(),
        ensures
            r matches Some(i) ==> !self.settled() && i == self.spec_errors().len(),
            (r is None) == self.settled(),
            self.has_outcome() ==> r is None,
    {
        if self.outcome.is_some() {
            None
        } else if self.errors.len() < self.labels.len() {
            Some(self.errors.len())
        } else {
            None
        }
    }

    /// Records the current candidate's failure and moves past it.
    pub fn record_failure(&mut self, message: String)
        requires
            old(self).wf(),
            !old(self).settled(),
        ensures
            final(self).wf(),
            final(self).spec_labels() == old(self).spec_labels(),
            final(self).spec_errors() == old(self).spec_errors().push(message@),
            final(self).spec_errors().len() == old(self).spec_errors().len() + 1,
            final(self).spec_errors().drop_last() == old(self).spec_errors(),
            final(self).spec_errors().last() == message@,
            final(self).spec_outcome() == old(self).spec_outcome(),
            !final(self).has_outcome(),
    {
        self.errors.push(message);
        proof {
            assert(self.errors.deep_view() =~= old(self).errors.deep_view().push(message@));
            assert(self.errors.deep_view().drop_last() =~= old(self).errors.deep_view());
        }
    }

    /// Records the current candidate's success; no later candidate will be
    /// offered after this.
    pub fn record_success(&mut self, value: T)
        requires
            old(self).wf(),
            !old(self).settled(),
        ensures
            final(self).wf(),
            final(self).spec_labels() == old(self).spec_labels(),
            final(self).spec_errors() == old(self).spec_errors(),
            final(self).has_outcome(),
            final(self).spec_outcome() == Some(value),
            final(self).settled(),
    {
        self.outcome = Some(value);
    }

    /// Closes the resolver: the successful value when one candidate
    /// delivered, else one aggregated error whose message carries the given
    /// context followed by every candidate's label and failure message in
    /// candidate order.
    pub fn finish(self, context: &str) -> (r: Result<T, SportError>)
        requires
            self.wf(),
            self.settled(),
        ensures
            self.has_outcome() ==> (r matches Ok(v) && self.spec_outcome() == Some(v)),
            !self.has_outcome() ==> (r matches Err(e) && e matches SportError::FetchError(m) && m@
                == context@ + aggregate_message(self.spec_labels(), self.spec_errors())),
    {
        match self.outcome {
            Some(v) => Ok(v),
            None => {
                let mut msg = context.to_owned();
                let body = aggregate_exec(&self.labels, &self.errors, 0);
                msg.append(body.as_str());
                Err(SportError::FetchError(msg))
            },
        }
    }
}

} // verus!
