//! Decisions of the window-focus watcher: subscribe to window events,
//! publish the title on a focus or title change, and reconnect for ever
//! when the subscription fails or the stream ends.

use vstd::prelude::*;

verus! {

/// Seconds to wait before subscribing again after a failed subscription.
pub const RETRY_SECS: u64 = 2;

/// Seconds to wait before subscribing again after the stream ended.
pub const RESUBSCRIBE_SECS: u64 = 1;

/// The kind of change a window event reports.
#[derive(Clone, Copy, Debug, PartialEq, Eq, Structural)]
pub enum ChangeKind {
    Focus,
    Title,
    Other,
}

/// What the watcher's caller observed.
pub enum FocusEvent {
    /// Opening the event subscription failed.
    SubscribeFailed,
    /// The subscription is open.
    Subscribed,
    /// A window event, with the changed window's name if it has one.
    Window { change: ChangeKind, name: Option<String> },
    /// An event that is not about windows.
    Unrelated,
    /// Reading the next event failed, or the stream ended.
    StreamEnded,
}

/// Where the watcher stands.
#[derive(Clone, Copy, Debug, PartialEq, Eq, Structural)]
pub enum FocusPhase {
    Connecting,
    Streaming,
}

/// What the caller does next.
#[derive(Clone, Copy, Debug, PartialEq, Eq, Structural)]
pub enum FocusAction {
    /// Open the event subscription.
    Subscribe,
    /// Sleep this many seconds, then open the event subscription.
    Sleep(u64),
    /// Read the next event.
    Read,
    /// Store the event's title in the record, signal a change, then read
    /// the next event.
    Publish,
}

/// One transition: the next phase and the action it asks for.
pub open spec fn focus_step(p: FocusPhase, e: FocusEvent) -> (FocusPhase, FocusAction) {
    match p {
        FocusPhase::Connecting => match e {
            FocusEvent::SubscribeFailed => (FocusPhase::Connecting, FocusAction::Sleep(RETRY_SECS)),
            FocusEvent::Subscribed => (FocusPhase::Streaming, FocusAction::Read),
            _ => (FocusPhase::Connecting, FocusAction::Subscribe),
        },
        FocusPhase::Streaming => match e {
            FocusEvent::Window { change, .. } => if change == ChangeKind::Other {
                (FocusPhase::Streaming, FocusAction::Read)
            } else {
                (FocusPhase::Streaming, FocusAction::Publish)
            },
            FocusEvent::StreamEnded => (
                FocusPhase::Connecting,
                FocusAction::Sleep(RESUBSCRIBE_SECS),
            ),
            _ => (FocusPhase::Streaming, FocusAction::Read),
        },
    }
}

/// The phase after a sequence of events.
pub open spec fn focus_phase_after(p: FocusPhase, es: Seq<FocusEvent>) -> FocusPhase
    decreases es.len(),
{
    if es.len() == 0 {
        p
    } else {
        focus_step(focus_phase_after(p, es.drop_last()), es.last()).0
    }
}

/// The actions asked for along a sequence of events, one per event.
pub open spec fn focus_actions(p: FocusPhase, es: Seq<FocusEvent>) -> Seq<FocusAction>
    decreases es.len(),
{
    if es.len() == 0 {
        Seq::empty()
    } else {
        focus_actions(p, es.drop_last()).push(
            focus_step(focus_phase_after(p, es.drop_last()), es.last()).1,
        )
    }
}

/// The title shown for a window: its name, or nothing if it has none.
pub open spec fn title_view(name: Option<String>) -> Seq<char> {
    match name {
        Some(s) => s@,
        None => Seq::empty(),
    }
}

/// The title shown for a window with the given name.
pub fn title_of(name: Option<String>) -> (r: String)
    ensures
        r@ == title_view(name),
{
    match name {
        Some(s) => s,
        None => String::new(),
    }
}

/// The watcher's state.
pub struct FocusWatcher {
    pub phase: FocusPhase,
}

impl FocusWatcher {
    /// A watcher about to open its first subscription.
    pub fn new() -> (r: FocusWatcher)
        ensures
            r.phase == FocusPhase::Connecting,
    {
        FocusWatcher { phase: FocusPhase::Connecting }
    }

    /// Takes what the caller observed and says what to do next.
    pub fn on_event(&mut self, e: &FocusEvent) -> (a: FocusAction)
        ensures
            (final(self).phase, a) == focus_step(old(self).phase, *e),
    {
        match self.phase {
            FocusPhase::Connecting => match e {
                FocusEvent::SubscribeFailed => FocusAction::Sleep(RETRY_SECS),
                FocusEvent::Subscribed => {
                    self.phase = FocusPhase::Streaming;
                    FocusAction::Read
                },
                _ => FocusAction::Subscribe,
            },
            FocusPhase::Streaming => match e {
                FocusEvent::Window { change, name: _ } => match change {
                    ChangeKind::Other => FocusAction::Read,
                    _ => FocusAction::Publish,
                },
                FocusEvent::StreamEnded => {
                    self.phase = FocusPhase::Connecting;
                    FocusAction::Sleep(RESUBSCRIBE_SECS)
                },
                _ => FocusAction::Read,
            },
        }
    }
}

/// From connecting, `n` failed subscriptions lead to `n` retries, one
/// sleep of two seconds each, and the watcher stays connecting.
proof fn lemma_failures(n: nat)
    ensures
        focus_phase_after(FocusPhase::Connecting, Seq::new(n, |i: int| FocusEvent::SubscribeFailed))
            == FocusPhase::Connecting,
        focus_actions(FocusPhase::Connecting, Seq::new(n, |i: int| FocusEvent::SubscribeFailed))
            == Seq::new(n, |i: int| FocusAction::Sleep(RETRY_SECS)),
    decreases n,
{
    let es = Seq::new(n, |i: int| FocusEvent::SubscribeFailed);
    if n == 0 {
        assert(focus_actions(FocusPhase::Connecting, es) =~= Seq::new(
            n,
            |i: int| FocusAction::Sleep(RETRY_SECS),
        ));
    } else {
        lemma_failures((n - 1) as nat);
        assert(es.drop_last() =~= Seq::new((n - 1) as nat, |i: int| FocusEvent::SubscribeFailed));
        assert(es.last() == FocusEvent::SubscribeFailed);
        assert(focus_actions(FocusPhase::Connecting, es) == Seq::new(
            (n - 1) as nat,
            |i: int| FocusAction::Sleep(RETRY_SECS),
        ).push(FocusAction::Sleep(RETRY_SECS)));
        assert(focus_actions(FocusPhase::Connecting, es) =~= Seq::new(
            n,
            |i: int| FocusAction::Sleep(RETRY_SECS),
        ));
    }
}

/// A subscription that fails `n` times before it succeeds is retried `n`
/// times, each retry after a sleep of two seconds, and then streams; the
/// watcher never gives up.
pub proof fn reconnects_after_failures(n: nat)
    ensures
        ({
            let es = Seq::new(n, |i: int| FocusEvent::SubscribeFailed).push(FocusEvent::Subscribed);
            &&& focus_actions(FocusPhase::Connecting, es) == Seq::new(
                n,
                |i: int| FocusAction::Sleep(RETRY_SECS),
            ).push(FocusAction::Read)
            &&& focus_phase_after(FocusPhase::Connecting, es) == FocusPhase::Streaming
        }),
{
    lemma_failures(n);
    let fails = Seq::new(n, |i: int| FocusEvent::SubscribeFailed);
    let es = fails.push(FocusEvent::Subscribed);
    assert(es.drop_last() =~= fails);
}

} // verus!
