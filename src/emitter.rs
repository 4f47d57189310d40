//! Decisions of the emission loop. The loop blocks for one change token,
//! drains the tokens that queued up meanwhile without blocking, and only
//! then writes one update line, so that a burst of changes gives one line.
//! The caller owns the channel and the output; this machine tells it what
//! to do after each receive.

use vstd::prelude::*;

verus! {

/// What a receive on the change channel gave.
#[derive(Clone, Copy, Debug, PartialEq, Eq, Structural)]
pub enum Received {
    /// A change token.
    Token,
    /// No token was queued (only a non-blocking receive sees this).
    Empty,
    /// Every sender is gone and no token is queued.
    Disconnected,
}

/// Where the loop stands.
#[derive(Clone, Copy, Debug, PartialEq, Eq, Structural)]
pub enum Phase {
    /// Waiting for the first token of a batch.
    Waiting,
    /// A batch has begun; draining what else is queued.
    Draining,
    /// The channel is gone for good.
    Stopped,
}

/// What the loop does next.
#[derive(Clone, Copy, Debug, PartialEq, Eq, Structural)]
pub enum Action {
    /// Block until a token comes.
    Wait,
    /// Take one more token without blocking.
    Poll,
    /// Write one update line from a fresh snapshot, then block again.
    Emit,
    /// End the loop.
    Stop,
}

/// One transition: the next phase and the action it asks for.
pub open spec fn step(p: Phase, r: Received) -> (Phase, Action) {
    match p {
        Phase::Waiting => match r {
            Received::Token => (Phase::Draining, Action::Poll),
            Received::Empty => (Phase::Waiting, Action::Wait),
            Received::Disconnected => (Phase::Stopped, Action::Stop),
        },
        Phase::Draining => match r {
            Received::Token => (Phase::Draining, Action::Poll),
            _ => (Phase::Waiting, Action::Emit),
        },
        Phase::Stopped => (Phase::Stopped, Action::Stop),
    }
}

/// The phase after a sequence of receives.
pub open spec fn phase_after(p: Phase, rs: Seq<Received>) -> Phase
    decreases rs.len(),
{
    if rs.len() == 0 {
        p
    } else {
        step(phase_after(p, rs.drop_last()), rs.last()).0
    }
}

/// The actions asked for along a sequence of receives, one per receive.
pub open spec fn actions(p: Phase, rs: Seq<Received>) -> Seq<Action>
    decreases rs.len(),
{
    if rs.len() == 0 {
        Seq::empty()
    } else {
        actions(p, rs.drop_last()).push(step(phase_after(p, rs.drop_last()), rs.last()).1)
    }
}

/// The emission loop's state.
pub struct Emitter {
    pub phase: Phase,
}

impl Emitter {
    /// A loop that has written its header and waits for the first token.
    pub fn new() -> (r: Emitter)
        ensures
            r.phase == Phase::Waiting,
    {
        Emitter { phase: Phase::Waiting }
    }

    /// Takes the outcome of the last receive and says what to do next.
    pub fn on_receive(&mut self, r: Received) -> (a: Action)
        ensures
            (final(self).phase, a) == step(old(self).phase, r),
    {
        match self.phase {
            Phase::Waiting => match r {
                Received::Token => {
                    self.phase = Phase::Draining;
                    Action::Poll
                },
                Received::Empty => Action::Wait,
                Received::Disconnected => {
                    self.phase = Phase::Stopped;
                    Action::Stop
                },
            },
            Phase::Draining => match r {
                Received::Token => Action::Poll,
                _ => {
                    self.phase = Phase::Waiting;
                    Action::Emit
                },
            },
            Phase::Stopped => Action::Stop,
        }
    }
}

/// The action at position `i` is the step from the phase reached before it.
pub proof fn lemma_action_at(p: Phase, rs: Seq<Received>, i: int)
    requires
        0 <= i < rs.len(),
    ensures
        actions(p, rs).len() == rs.len(),
        actions(p, rs)[i] == step(phase_after(p, rs.take(i)), rs[i]).1,
    decreases rs.len(),
{
    lemma_actions_len(p, rs);
    if i == rs.len() - 1 {
        assert(rs.take(i) =~= rs.drop_last());
    } else {
        lemma_action_at(p, rs.drop_last(), i);
        assert(rs.drop_last().take(i) =~= rs.take(i));
    }
}

/// There is one action per receive.
pub proof fn lemma_actions_len(p: Phase, rs: Seq<Received>)
    ensures
        actions(p, rs).len() == rs.len(),
    decreases rs.len(),
{
    if rs.len() > 0 {
        lemma_actions_len(p, rs.drop_last());
    }
}

/// A batch of `k >= 1` queued tokens, drained until the queue is seen
/// empty, gives exactly one update line, written after the last token was
/// taken; the loop then waits again.
pub proof fn batch_emits_once(k: nat)
    requires
        k >= 1,
    ensures
        ({
            let rs = Seq::new(k, |i: int| Received::Token).push(Received::Empty);
            &&& actions(Phase::Waiting, rs) == Seq::new(k, |i: int| Action::Poll).push(Action::Emit)
            &&& phase_after(Phase::Waiting, rs) == Phase::Waiting
        }),
{
    let tokens = Seq::new(k, |i: int| Received::Token);
    lemma_tokens(k);
    let rs = tokens.push(Received::Empty);
    assert(rs.drop_last() =~= tokens);
    assert(actions(Phase::Waiting, rs) =~= Seq::new(k, |i: int| Action::Poll).push(Action::Emit));
}

/// From the waiting phase, `n >= 1` tokens lead to draining, with one poll
/// each.
proof fn lemma_tokens(n: nat)
    requires
        n >= 1,
    ensures
        phase_after(Phase::Waiting, Seq::new(n, |i: int| Received::Token)) == Phase::Draining,
        actions(Phase::Waiting, Seq::new(n, |i: int| Received::Token)) == Seq::new(
            n,
            |i: int| Action::Poll,
        ),
    decreases n,
{
    let rs = Seq::new(n, |i: int| Received::Token);
    if n == 1 {
        assert(rs.drop_last() =~= Seq::<Received>::empty());
        assert(rs.last() == Received::Token);
        assert(phase_after(Phase::Waiting, rs.drop_last()) == Phase::Waiting);
        assert(actions(Phase::Waiting, rs.drop_last()) =~= Seq::<Action>::empty());
        assert(actions(Phase::Waiting, rs) =~= Seq::new(n, |i: int| Action::Poll));
    } else {
        lemma_tokens((n - 1) as nat);
        assert(rs.drop_last() =~= Seq::new((n - 1) as nat, |i: int| Received::Token));
        assert(rs.last() == Received::Token);
        assert(actions(Phase::Waiting, rs) == Seq::new((n - 1) as nat, |i: int| Action::Poll).push(
            Action::Poll,
        ));
        assert(actions(Phase::Waiting, rs) =~= Seq::new(n, |i: int| Action::Poll));
    }
}

/// Every update line is written at the moment a receive found no token
/// left, right after a token was taken: the snapshot it shows is taken
/// after the mutation behind every token taken so far.
pub proof fn emit_follows_drained_batch(rs: Seq<Received>, i: int)
    requires
        0 <= i < rs.len(),
        actions(Phase::Waiting, rs)[i] == Action::Emit,
    ensures
        rs[i] != Received::Token,
        i > 0,
        rs[i - 1] == Received::Token,
{
    lemma_action_at(Phase::Waiting, rs, i);
    let pre = rs.take(i);
    if pre.len() == 0 {
        assert(phase_after(Phase::Waiting, pre) == Phase::Waiting);
    } else {
        assert(pre.last() == rs[i - 1]);
    }
}

/// Without a token, the loop writes no update line: after the header the
/// output stays as it is until the first change is signalled.
pub proof fn no_emit_without_token(rs: Seq<Received>)
    requires
        forall|j: int| 0 <= j < rs.len() ==> rs[j] != Received::Token,
    ensures
        phase_after(Phase::Waiting, rs) != Phase::Draining,
        forall|j: int| 0 <= j < rs.len() ==> actions(Phase::Waiting, rs)[j] != Action::Emit,
    decreases rs.len(),
{
    if rs.len() > 0 {
        no_emit_without_token(rs.drop_last());
        assert forall|j: int| 0 <= j < rs.len() implies actions(Phase::Waiting, rs)[j]
            != Action::Emit by {
            lemma_actions_len(Phase::Waiting, rs.drop_last());
            if j < rs.len() - 1 {
                assert(actions(Phase::Waiting, rs)[j] == actions(Phase::Waiting, rs.drop_last())[j]);
            }
        }
    }
}

} // verus!
