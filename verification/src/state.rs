use vstd::prelude::*;

verus! {

/// The singleton configuration: the validated administrator address, set
/// once at contract initialization and never mutated thereafter.
#[derive(Clone, Debug, PartialEq, Eq)]
pub struct Config {
    pub admin_address: String,
}

/// A poll. The question text doubles as the store key; each successful
/// vote increments exactly one of the two counters by exactly one.
#[derive(Clone, Debug, PartialEq, Eq)]
pub struct Poll {
    pub question: String,
    pub yes_votes: u64,
    pub no_votes: u64,
}

/// Mathematical model of a poll. The counters are unbounded here; the
/// executable counters are machine words.
#[verifier::ext_equal]
pub ghost struct PollView {
    pub question: Seq<char>,
    pub yes_votes: nat,
    pub no_votes: nat,
}

impl View for Poll {
    type V = PollView;

    open spec fn view(&self) -> PollView {
        PollView {
            question: self.question@,
            yes_votes: self.yes_votes as nat,
            no_votes: self.no_votes as nat,
        }
    }
}

/// Mathematical model of the whole persistent state: the optional
/// configuration singleton and the poll store in insertion order.
#[verifier::ext_equal]
pub ghost struct StateView {
    pub config: Option<Seq<char>>,
    pub polls: Seq<PollView>,
}

/// No two stored polls share a question: the key is unique across the
/// store.
pub open spec fn unique_questions(polls: Seq<PollView>) -> bool {
    forall|i: int, j: int|
        0 <= i < j < polls.len() ==> polls[i].question != polls[j].question
}

/// Whether some stored poll has question `q`.
pub open spec fn has_poll(polls: Seq<PollView>, q: Seq<char>) -> bool {
    exists|i: int| 0 <= i < polls.len() && polls[i].question == q
}

/// The index of the stored poll with question `q` (meaningful only when
/// `has_poll` holds).
pub open spec fn poll_index(polls: Seq<PollView>, q: Seq<char>) -> int {
    choose|i: int| 0 <= i < polls.len() && polls[i].question == q
}

/// The stored poll with question `q` (meaningful only when `has_poll`
/// holds).
pub open spec fn poll_for(polls: Seq<PollView>, q: Seq<char>) -> PollView {
    polls[poll_index(polls, q)]
}

/// What a read of question `q` observes: the stored poll, or absence.
/// Absence is a normal outcome of a read, not an error.
pub open spec fn lookup(polls: Seq<PollView>, q: Seq<char>) -> Option<PollView> {
    if has_poll(polls, q) {
        Some(poll_for(polls, q))
    } else {
        None
    }
}

/// The choice string that counts toward the yes counter.
pub open spec fn yes_choice() -> Seq<char> {
    "yes"@
}

/// The choice string that counts toward the no counter.
pub open spec fn no_choice() -> Seq<char> {
    "no"@
}

/// The recognized vote choices.
pub open spec fn is_valid_choice(c: Seq<char>) -> bool {
    c == yes_choice() || c == no_choice()
}

/// One step of the per-key poll state machine: a valid choice increments
/// exactly the matching counter by one; anything else leaves the poll as
/// it is.
pub open spec fn apply_choice(p: PollView, c: Seq<char>) -> PollView {
    if c == yes_choice() {
        PollView { question: p.question, yes_votes: p.yes_votes + 1, no_votes: p.no_votes }
    } else if c == no_choice() {
        PollView { question: p.question, yes_votes: p.yes_votes, no_votes: p.no_votes + 1 }
    } else {
        p
    }
}

/// When `q` names a stored poll and `c` is a valid choice, the counter
/// that `c` selects has room for one more vote in a machine word.
pub open spec fn vote_count_fits(polls: Seq<PollView>, q: Seq<char>, c: Seq<char>) -> bool {
    (has_poll(polls, q) && is_valid_choice(c)) ==> {
        if c == yes_choice() {
            poll_for(polls, q).yes_votes < u64::MAX
        } else {
            poll_for(polls, q).no_votes < u64::MAX
        }
    }
}

/// A whole sequence of vote choices applied to one poll, in order.
pub open spec fn apply_choices(p: PollView, cs: Seq<Seq<char>>) -> PollView
    decreases cs.len(),
{
    if cs.len() == 0 {
        p
    } else {
        apply_choices(apply_choice(p, cs[0]), cs.drop_first())
    }
}

/// How many entries of `cs` are exactly the choice `c`.
pub open spec fn count_matching(cs: Seq<Seq<char>>, c: Seq<char>) -> nat
    decreases cs.len(),
{
    if cs.len() == 0 {
        0
    } else {
        (if cs[0] == c {
            1nat
        } else {
            0nat
        }) + count_matching(cs.drop_first(), c)
    }
}

/// With unique questions, any index whose poll has question `q` is the
/// index that `poll_index` denotes.
pub proof fn lemma_poll_index_unique(polls: Seq<PollView>, q: Seq<char>, i: int)
    requires
        unique_questions(polls),
        0 <= i < polls.len(),
        polls[i].question == q,
    ensures
        has_poll(polls, q),
        poll_index(polls, q) == i,
        poll_for(polls, q) == polls[i],
{
    assert(has_poll(polls, q));
    let j = poll_index(polls, q);
    assert(0 <= j < polls.len() && polls[j].question == q);
    if i < j {
        assert(polls[i].question != polls[j].question);
    } else if j < i {
        assert(polls[j].question != polls[i].question);
    }
}

/// Appending a poll whose question is absent keeps the questions unique.
pub proof fn lemma_push_preserves_unique(polls: Seq<PollView>, p: PollView)
    requires
        unique_questions(polls),
        !has_poll(polls, p.question),
    ensures
        unique_questions(polls.push(p)),
{
    let pushed = polls.push(p);
    assert forall|i: int, j: int|
        0 <= i < j < pushed.len() implies pushed[i].question != pushed[j].question by {
        if j < polls.len() {
            assert(polls[i].question != polls[j].question);
        } else {
            assert(pushed[j] == p);
            assert(pushed[i] == polls[i]);
            if polls[i].question == p.question {
                assert(has_poll(polls, p.question));
            }
        }
    }
}

/// Updating a poll in place with an unchanged question keeps the
/// questions unique.
pub proof fn lemma_update_preserves_unique(polls: Seq<PollView>, i: int, p: PollView)
    requires
        unique_questions(polls),
        0 <= i < polls.len(),
        p.question == polls[i].question,
    ensures
        unique_questions(polls.update(i, p)),
{
    let updated = polls.update(i, p);
    assert forall|a: int, b: int|
        0 <= a < b < updated.len() implies updated[a].question != updated[b].question by {
        assert(polls[a].question != polls[b].question);
    }
}

/// The persistent contract state, handed into every handler call: the
/// configuration singleton and the keyed poll store.
pub struct ContractState {
    config: Option<Config>,
    polls: Vec<Poll>,
}

impl View for ContractState {
    type V = StateView;

    closed spec fn view(&self) -> StateView {
        StateView {
            config: match self.config {
                Some(c) => Some(c.admin_address@),
                None => None,
            },
            polls: self.polls@.map_values(|p: Poll| p@),
        }
    }
}

impl ContractState {
    /// The store's standing invariant: poll questions are unique keys.
    pub open spec fn wf(&self) -> bool {
        unique_questions(self@.polls)
    }

    /// A fresh, pre-initialization state: no configuration, no polls.
    pub fn new() -> (s: ContractState)
        ensures
            s@.config is None,
            s@.polls == Seq::<PollView>::empty(),
            s.wf(),
    {
        let s = ContractState { config: None, polls: Vec::new() };
        proof {
            assert(s@.polls =~= Seq::<PollView>::empty());
        }
        s
    }

    /// Rebuilds a state handle from persisted values, as a storage
    /// adapter hands them in. A poll list whose questions collide is
    /// rejected: a correct store never yields one.
    pub fn from_parts(config: Option<Config>, polls: Vec<Poll>) -> (r: Option<ContractState>)
        ensures
            match r {
                Some(s) => {
                    &&& s.wf()
                    &&& s@.polls == polls@.map_values(|p: Poll| p@)
                    &&& s@.config == match config {
                        Some(c) => Some(c.admin_address@),
                        None => None::<Seq<char>>,
                    }
                },
                None => !unique_questions(polls@.map_values(|p: Poll| p@)),
            },
    {
        let ghost polls_v = polls@.map_values(|p: Poll| p@);
        let n = polls.len();
        let mut i: usize = 0;
        while i < n
            invariant
                n == polls.len(),
                polls_v == polls@.map_values(|p: Poll| p@),
                i <= n,
                forall|a: int, b: int|
                    0 <= a < b < i ==> polls_v[a].question != polls_v[b].question,
            decreases n - i,
        {
            let mut j: usize = 0;
            while j < i
                invariant
                    i < n,
                    n == polls.len(),
                    polls_v == polls@.map_values(|p: Poll| p@),
                    j <= i,
                    forall|a: int| 0 <= a < j ==> polls_v[a].question != polls_v[i as int].question,
                decreases i - j,
            {
                if polls[j].question == polls[i].question {
                    proof {
                        assert(polls_v[j as int].question == polls_v[i as int].question);
                        assert(!unique_questions(polls_v));
                    }
                    return None;
                }
                j += 1;
            }
            i += 1;
        }
        let s = ContractState { config, polls };
        proof {
            assert(s@.polls =~= polls_v);
        }
        Some(s)
    }

    /// Stores the configuration singleton, leaving the polls untouched.
    pub(crate) fn set_config(&mut self, admin_address: String)
        ensures
            final(self)@.config == Some(admin_address@),
            final(self)@.polls == old(self)@.polls,
    {
        self.config = Some(Config { admin_address });
    }

    /// The stored administrator address, if the state is initialized.
    pub(crate) fn config_admin(&self) -> (r: Option<&String>)
        ensures
            match r {
                Some(a) => self@.config == Some(a@),
                None => self@.config is None,
            },
    {
        match &self.config {
            Some(c) => Some(&c.admin_address),
            None => None,
        }
    }

    /// Linear search for the poll stored under `question`.
    pub(crate) fn find_index(&self, question: &String) -> (r: Option<usize>)
        ensures
            match r {
                Some(i) => 0 <= i < self@.polls.len() && self@.polls[i as int].question
                    == question@,
                None => !has_poll(self@.polls, question@),
            },
    {
        let n = self.polls.len();
        let mut i: usize = 0;
        while i < n
            invariant
                n == self.polls.len(),
                i <= n,
                forall|j: int| 0 <= j < i ==> self@.polls[j].question != question@,
            decreases n - i,
        {
            if self.polls[i].question == *question {
                return Some(i);
            }
            i += 1;
        }
        None
    }

    /// The poll stored at index `i`.
    pub(crate) fn poll_at(&self, i: usize) -> (p: &Poll)
        requires
            i < self@.polls.len(),
        ensures
            p@ == self@.polls[i as int],
    {
        &self.polls[i]
    }

    /// Appends a poll to the store, leaving the configuration untouched.
    pub(crate) fn push_poll(&mut self, poll: Poll)
        ensures
            final(self)@.polls == old(self)@.polls.push(poll@),
            final(self)@.config == old(self)@.config,
    {
        self.polls.push(poll);
        proof {
            assert(self@.polls =~= old(self)@.polls.push(poll@));
        }
    }

    /// Replaces the poll stored at index `i`, leaving the configuration
    /// untouched.
    pub(crate) fn set_poll(&mut self, i: usize, poll: Poll)
        requires
            i < old(self)@.polls.len(),
        ensures
            final(self)@.polls == old(self)@.polls.update(i as int, poll@),
            final(self)@.config == old(self)@.config,
    {
        let ghost old_polls = self.polls@;
        self.polls.remove(i);
        self.polls.insert(i, poll);
        proof {
            vstd::seq_lib::lemma_update_is_remove_insert(old_polls, i as int, poll);
            assert(self@.polls =~= old(self)@.polls.update(i as int, poll@));
        }
    }
}

} // verus!
