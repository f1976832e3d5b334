use vstd::prelude::*;
use std::collections::HashMap;
use crate::errors::QuizError;
use crate::judge::{judge, judge_spec, opt_string_view};

verus! {

/// The current question with its accepted answer.  A round is either
/// fully absent or fully populated: there is no partial round.
pub struct Round {
    pub question: String,
    pub reference_answer: String,
}

/// What a submitted answer earned.
#[derive(Clone, Copy, Debug, PartialEq, Eq, Structural)]
pub enum Verdict {
    /// First correct answer of the round: the sender is the winner.
    Won,
    /// Judged incorrect; the text is recorded for audit.
    Lost,
    /// No round is open, or the round already has its winner.
    Rejected,
}

/// The mathematical state of the round machine.
pub struct RoundModel {
    /// The active question and its reference answer, if a round stands.
    pub round: Option<(Seq<char>, Seq<char>)>,
    /// The identity label of the first correct responder, once one won.
    pub winner: Option<Seq<char>>,
    /// Latest incorrect text per chat identity, for audit only.
    pub pending: Map<i64, Seq<char>>,
}

impl RoundModel {
    /// The machine is idle: no round stands.
    pub open spec fn is_idle(self) -> bool {
        self.round is None
    }

    /// A round stands and has no winner yet: answers are judged.
    pub open spec fn is_open(self) -> bool {
        self.round is Some && self.winner is None
    }

    /// A round stands and its winner is decided.
    pub open spec fn is_won(self) -> bool {
        self.round is Some && self.winner is Some
    }

    /// A winner exists only inside a round, and a standing round carries
    /// a non-empty question and reference answer.
    pub open spec fn wf(self) -> bool {
        &&& (self.winner is Some ==> self.round is Some)
        &&& (self.round matches Some(p) ==> p.0.len() > 0 && p.1.len() > 0)
    }
}

/// The state before any round was started.
pub open spec fn initial_model() -> RoundModel {
    RoundModel { round: None, winner: None, pending: Map::empty() }
}

/// What starting a round does: it is refused while any round stands —
/// active or won — and otherwise opens the round with a cleared winner
/// and cleared pending answers.
pub open spec fn start_step(m: RoundModel, q: Seq<char>, a: Seq<char>) -> (RoundModel, Result<
    (),
    QuizError,
>) {
    if m.round is Some {
        (m, Err(QuizError::RoundAlreadyActive))
    } else {
        (RoundModel { round: Some((q, a)), winner: None, pending: Map::empty() }, Ok(()))
    }
}

/// What the administrative reset does: back to idle; the audit record
/// survives until the next round actually starts.
pub open spec fn reset_step(m: RoundModel) -> RoundModel {
    RoundModel { round: None, winner: None, pending: m.pending }
}

/// The compare-and-set at the heart of winner arbitration: an answer
/// whose judgment arrives after the round closed is rejected, however it
/// was judged; the first correct answer against an open round wins and
/// closes the round; an incorrect one is recorded and loses.
pub open spec fn commit_step(
    m: RoundModel,
    identity: Seq<char>,
    chat: i64,
    text: Seq<char>,
    correct: bool,
) -> (RoundModel, Verdict) {
    if m.round is None || m.winner is Some {
        (m, Verdict::Rejected)
    } else if correct {
        (RoundModel { winner: Some(identity), ..m }, Verdict::Won)
    } else {
        (RoundModel { pending: m.pending.insert(chat, text), ..m }, Verdict::Lost)
    }
}

/// The view of a pending-answer table.
pub open spec fn pending_view(m: Map<i64, String>) -> Map<i64, Seq<char>> {
    Map::new(|k: i64| m.dom().contains(k), |k: i64| m[k]@)
}

proof fn lemma_pending_view_insert(m: Map<i64, String>, k: i64, v: String)
    ensures
        pending_view(m.insert(k, v)) == pending_view(m).insert(k, v@),
{
    assert(pending_view(m.insert(k, v)) =~= pending_view(m).insert(k, v@));
}

proof fn lemma_pending_view_empty()
    ensures
        pending_view(Map::<i64, String>::empty()) == Map::<i64, Seq<char>>::empty(),
{
    assert(pending_view(Map::<i64, String>::empty()) =~= Map::<i64, Seq<char>>::empty());
}

/// The round state machine: owns the current round's lifecycle and the
/// single winner-arbitration decision point.
pub struct RoundState {
    round: Option<Round>,
    winner: Option<String>,
    pending: HashMap<i64, String>,
}

impl RoundState {
    /// The machine's mathematical state.
    pub closed spec fn model(&self) -> RoundModel {
        RoundModel {
            round: (match self.round {
                None => None,
                Some(r) => Some((r.question@, r.reference_answer@)),
            }),
            winner: (match self.winner {
                None => None,
                Some(w) => Some(w@),
            }),
            pending: pending_view(self.pending@),
        }
    }

    pub fn new() -> (r: RoundState)
        ensures
            r.model() == initial_model(),
            r.model().wf(),
    {
        let r = RoundState { round: None, winner: None, pending: HashMap::new() };
        proof {
            lemma_pending_view_empty();
        }
        r
    }

    /// Start a round with the question and its reference answer, both
    /// non-empty.  Fails with `RoundAlreadyActive` — and changes nothing
    /// — exactly when a round stands, whether it is still open or
    /// already won: a won round must be reset before the next start.
    pub fn start_round(&mut self, question: String, reference_answer: String) -> (r: Result<
        (),
        QuizError,
    >)
        requires
            question@.len() > 0,
            reference_answer@.len() > 0,
            old(self).model().wf(),
        ensures
            final(self).model().wf(),
            ({
                let (m2, rr) = start_step(old(self).model(), question@, reference_answer@);
                final(self).model() == m2 && r == rr
            }),
            r is Err <==> !old(self).model().is_idle(),
    {
        if self.round.is_some() {
            Err(QuizError::RoundAlreadyActive)
        } else {
            self.round = Some(Round { question, reference_answer });
            self.winner = None;
            self.pending = HashMap::new();
            proof {
                lemma_pending_view_empty();
            }
            Ok(())
        }
    }

    /// Administrative reset to idle, clearing the round and its winner.
    pub fn reset(&mut self)
        ensures
            final(self).model() == reset_step(old(self).model()),
            final(self).model().wf(),
    {
        self.round = None;
        self.winner = None;
    }

    /// Snapshot for answering: the question and reference answer, when
    /// the round is open.  Taken before judgment so that no lock need be
    /// held across the external call; when the round is closed the
    /// submission is rejected here, before any judgment is spent.
    pub fn begin_answer(&self) -> (r: Result<(String, String), QuizError>)
        ensures
            self.model().is_open() ==> (r matches Ok(p) && self.model().round == Some(
                (p.0@, p.1@),
            )),
            !self.model().is_open() ==> r == Err::<(String, String), QuizError>(
                QuizError::RoundNotActive,
            ),
    {
        if self.winner.is_some() {
            return Err(QuizError::RoundNotActive);
        }
        match &self.round {
            None => Err(QuizError::RoundNotActive),
            Some(r) => Ok((r.question.clone(), r.reference_answer.clone())),
        }
    }

    /// The current question, for status queries.
    pub fn current_question(&self) -> (r: Option<String>)
        ensures
            (match self.model().round {
                Some(p) => r matches Some(q) && q@ == p.0,
                None => r is None,
            }),
    {
        match &self.round {
            None => None,
            Some(r) => Some(r.question.clone()),
        }
    }

    /// The winner's identity label, once one stands.
    pub fn winner_label(&self) -> (r: Option<String>)
        ensures
            (match self.model().winner {
                Some(w) => r matches Some(l) && l@ == w,
                None => r is None,
            }),
    {
        match &self.winner {
            None => None,
            Some(w) => Some(w.clone()),
        }
    }

    /// The latest incorrect text a chat identity submitted this round,
    /// for audit.
    pub fn pending_text(&self, chat: i64) -> (r: Option<String>)
        ensures
            (match r {
                Some(t) => self.model().pending.dom().contains(chat) && self.model().pending[chat]
                    == t@,
                None => !self.model().pending.dom().contains(chat),
            }),
    {
        match self.pending.get(&chat) {
            None => None,
            Some(t) => Some(t.clone()),
        }
    }

    /// The compare-and-set commit of a judged answer; see `commit_step`.
    /// This is the sole writer of the winner field, and it writes only
    /// when no winner stands, so the first correct commit wins whatever
    /// order the judgments finished in.
    pub fn commit_answer(&mut self, identity: String, chat: i64, text: String, correct: bool) -> (r:
        Verdict)
        requires
            old(self).model().wf(),
        ensures
            final(self).model().wf(),
            ({
                let (m2, v) = commit_step(old(self).model(), identity@, chat, text@, correct);
                final(self).model() == m2 && r == v
            }),
    {
        if self.winner.is_some() {
            return Verdict::Rejected;
        }
        if self.round.is_none() {
            return Verdict::Rejected;
        }
        if correct {
            self.winner = Some(identity);
            Verdict::Won
        } else {
            let ghost pre = self.pending@;
            self.pending.insert(chat, text);
            proof {
                lemma_pending_view_insert(pre, chat, text);
            }
            Verdict::Lost
        }
    }

    /// Submit an answer in one call: judge it against the open round's
    /// reference answer — with the external reply when one is in hand,
    /// else by the case-insensitive fallback — then commit.  Returns the
    /// verdict and the judge's feedback; a closed round rejects the
    /// submission without judging it.
    pub fn submit_answer(
        &mut self,
        identity: String,
        chat: i64,
        text: String,
        reply: Option<&String>,
    ) -> (r: (Verdict, String))
        requires
            old(self).model().wf(),
        ensures
            final(self).model().wf(),
            !old(self).model().is_open() ==> final(self).model() == old(self).model() && r.0
                == Verdict::Rejected && r.1@ == Seq::<char>::empty(),
            old(self).model().is_open() ==> ({
                let reference = old(self).model().round->Some_0.1;
                let (correct, feedback) = judge_spec(reference, text@, opt_string_view(reply));
                let (m2, v) = commit_step(old(self).model(), identity@, chat, text@, correct);
                final(self).model() == m2 && r.0 == v && r.1@ == feedback
            }),
    {
        let snapshot = self.begin_answer();
        match snapshot {
            Err(_) => (Verdict::Rejected, String::new()),
            Ok(pair) => {
                let (correct, feedback) = judge(pair.1.as_str(), text.as_str(), reply);
                let v = self.commit_answer(identity, chat, text, correct);
                (v, feedback)
            },
        }
    }
}

// ---------------------------------------------------------------------------
// Laws of winner arbitration
// ---------------------------------------------------------------------------

/// One submitted answer as its judgment arrived at the commit point.
pub struct AnswerEvent {
    pub identity: Seq<char>,
    pub chat: i64,
    pub text: Seq<char>,
    pub correct: bool,
}

/// Fold of `commit_step` over a sequence of judged answers, yielding the
/// final state and the verdict each submission observed.
pub open spec fn run_answers(m: RoundModel, evs: Seq<AnswerEvent>) -> (RoundModel, Seq<Verdict>)
    decreases evs.len(),
{
    if evs.len() == 0 {
        (m, Seq::empty())
    } else {
        let (m1, v) = commit_step(m, evs[0].identity, evs[0].chat, evs[0].text, evs[0].correct);
        let (m2, vs) = run_answers(m1, evs.drop_first());
        (m2, seq![v] + vs)
    }
}

/// How many of the verdicts are `Won`.
pub open spec fn count_won(vs: Seq<Verdict>) -> int
    decreases vs.len(),
{
    if vs.len() == 0 {
        0
    } else {
        (if vs[0] is Won {
            1int
        } else {
            0int
        }) + count_won(vs.drop_first())
    }
}

/// Once the round is closed — won, or not standing at all — every
/// further submission is rejected and the state no longer moves.
pub proof fn lemma_closed_round_rejects_all(m: RoundModel, evs: Seq<AnswerEvent>)
    requires
        m.winner is Some || m.round is None,
    ensures
        run_answers(m, evs).0 == m,
        run_answers(m, evs).1.len() == evs.len(),
        forall|i: int| 0 <= i < evs.len() ==> run_answers(m, evs).1[i] == Verdict::Rejected,
        count_won(run_answers(m, evs).1) == 0,
    decreases evs.len(),
{
    if evs.len() > 0 {
        lemma_closed_round_rejects_all(m, evs.drop_first());
        let vs = run_answers(m, evs).1;
        assert(vs == seq![Verdict::Rejected] + run_answers(m, evs.drop_first()).1);
        assert(vs.drop_first() =~= run_answers(m, evs.drop_first()).1);
        assert(vs[0] == Verdict::Rejected);
    }
}

/// However the judgments of any sequence of submissions came out, at
/// most one of them observes `Won`.
pub proof fn lemma_at_most_one_winner(m: RoundModel, evs: Seq<AnswerEvent>)
    ensures
        run_answers(m, evs).1.len() == evs.len(),
        count_won(run_answers(m, evs).1) <= 1,
    decreases evs.len(),
{
    if evs.len() > 0 {
        let (m1, v) = commit_step(m, evs[0].identity, evs[0].chat, evs[0].text, evs[0].correct);
        let vs = run_answers(m, evs).1;
        assert(vs.drop_first() =~= run_answers(m1, evs.drop_first()).1);
        if m.round is None || m.winner is Some {
            lemma_closed_round_rejects_all(m, evs);
        } else if evs[0].correct {
            lemma_closed_round_rejects_all(m1, evs.drop_first());
        } else {
            lemma_at_most_one_winner(m1, evs.drop_first());
        }
    }
}

/// First correct answer wins: against an open round, with every
/// submission judged correct, the first observes `Won` and every other
/// observes `Rejected` — exactly one winner.
pub proof fn lemma_first_correct_wins(m: RoundModel, evs: Seq<AnswerEvent>)
    requires
        m.is_open(),
        evs.len() > 0,
        forall|i: int| 0 <= i < evs.len() ==> evs[i].correct,
    ensures
        run_answers(m, evs).1.len() == evs.len(),
        run_answers(m, evs).1[0] == Verdict::Won,
        forall|i: int| 1 <= i < evs.len() ==> run_answers(m, evs).1[i] == Verdict::Rejected,
        count_won(run_answers(m, evs).1) == 1,
{
    let (m1, v) = commit_step(m, evs[0].identity, evs[0].chat, evs[0].text, evs[0].correct);
    let vs = run_answers(m, evs).1;
    lemma_closed_round_rejects_all(m1, evs.drop_first());
    assert(vs.drop_first() =~= run_answers(m1, evs.drop_first()).1);
    assert(vs[0] == Verdict::Won);
    assert forall|i: int| 1 <= i < evs.len() implies vs[i] == Verdict::Rejected by {
        assert(vs[i] == vs.drop_first()[i - 1]);
    }
}

/// Round-to-round isolation: whatever state the machine stood in, after
/// a reset a start succeeds, and the new round shows no winner and no
/// pending answers from before.
pub proof fn lemma_round_isolation(m: RoundModel, q: Seq<char>, a: Seq<char>)
    ensures
        ({
            let m1 = reset_step(m);
            let (m2, r) = start_step(m1, q, a);
            r == Ok::<(), QuizError>(()) && m2.winner is None && m2.pending == Map::<
                i64,
                Seq<char>,
            >::empty() && m2.round == Some((q, a))
        }),
{
}

} // verus!
