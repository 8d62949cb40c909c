use vstd::prelude::*;
use crate::config::Config;
use crate::desktop::DesktopNotifier;
use crate::notifier::{ChannelError, Notifier};
use crate::webhook::WebhookNotifier;

verus! {

/// How many channels a configuration enables: one for each of the desktop
/// and webhook blocks that is present. The push block enables none.
pub open spec fn enabled_count(config: Config) -> nat {
    (if config.notifiers.desktop is Some { 1nat } else { 0nat }) + (
    if config.notifiers.webhook is Some { 1nat } else { 0nat })
}

/// `chs` are the channels that a configuration enables, in declaration
/// order: the desktop channel first, then the webhook channel with the
/// configured URL and secret.
pub open spec fn configured(config: Config, chs: Seq<Notifier>) -> bool {
    &&& chs.len() == enabled_count(config)
    &&& config.notifiers.desktop is Some ==> chs[0] is Desktop
    &&& config.notifiers.webhook matches Some(c) ==> {
        &&& chs.last() is Webhook
        &&& chs.last()->Webhook_0.spec_url() == c.url@
        &&& chs.last()->Webhook_0.spec_secret() == c.secret@
    }
}

/// Holds the active channels and fans a message out to them.
pub struct NotifierManager {
    notifiers: Vec<Notifier>,
}

impl View for NotifierManager {
    type V = Seq<Notifier>;

    closed spec fn view(&self) -> Seq<Notifier> {
        self.notifiers@
    }
}

/// Progress of one dispatch: how many channels were invoked, and the failure
/// that stopped it, if any.
pub struct DispatchState {
    pub next: nat,
    pub failed: Option<ChannelError>,
}

/// The state before any channel is invoked.
pub open spec fn initial() -> DispatchState {
    DispatchState { next: 0, failed: None }
}

/// The channel to invoke next among `n`, if the dispatch goes on.
pub open spec fn pending(n: nat, s: DispatchState) -> Option<nat> {
    if s.failed is None && s.next < n {
        Some(s.next)
    } else {
        None
    }
}

/// The state after the pending channel answered with `outcome`.
pub open spec fn after(s: DispatchState, outcome: Result<(), ChannelError>) -> DispatchState {
    DispatchState {
        next: s.next + 1,
        failed: match outcome {
            Ok(_) => None,
            Err(e) => Some(e),
        },
    }
}

/// What the dispatch returns: the failure that stopped it, or success.
pub open spec fn result_of(s: DispatchState) -> Result<(), ChannelError> {
    match s.failed {
        Some(e) => Err(e),
        None => Ok(()),
    }
}

/// The state reached when the invoked channels answered with `outcomes`, in order.
pub open spec fn replay(outcomes: Seq<Result<(), ChannelError>>) -> DispatchState
    decreases outcomes.len(),
{
    if outcomes.len() == 0 {
        initial()
    } else {
        after(replay(outcomes.drop_last()), outcomes.last())
    }
}

/// A dispatch of one message over a manager's channels, one channel at a
/// time. The caller asks for the pending channel, invokes it, and records
/// its outcome, until no channel is pending; then `finish` gives the result.
pub struct SendAll {
    next: usize,
    failed: Option<ChannelError>,
}

impl View for SendAll {
    type V = DispatchState;

    closed spec fn view(&self) -> DispatchState {
        DispatchState { next: self.next as nat, failed: self.failed }
    }
}

impl NotifierManager {
    pub fn new() -> (r: NotifierManager)
        ensures
            r@ == Seq::<Notifier>::empty(),
    {
        NotifierManager { notifiers: Vec::new() }
    }

    /// Appends a channel; no deduplication.
    pub fn add_notifier(&mut self, notifier: Notifier)
        ensures
            final(self)@ == old(self)@.push(notifier),
    {
        self.notifiers.push(notifier);
    }

    /// The manager holding exactly the channels that the settings enable.
    pub fn from_config(config: Config) -> (r: NotifierManager)
        ensures
            configured(config, r@),
    {
        let mut m = NotifierManager::new();
        if config.notifiers.desktop.is_some() {
            m.add_notifier(Notifier::Desktop(DesktopNotifier));
        }
        match config.notifiers.webhook {
            Some(c) => {
                m.add_notifier(Notifier::Webhook(WebhookNotifier::new(c.url, c.secret)));
            },
            None => {},
        }
        m
    }

    pub fn len(&self) -> (r: usize)
        ensures
            r == self@.len(),
    {
        self.notifiers.len()
    }

    pub fn notifier(&self, index: usize) -> (r: &Notifier)
        requires
            index < self@.len(),
        ensures
            *r == self@[index as int],
    {
        &self.notifiers[index]
    }

    /// Starts the dispatch of a message: no channel invoked yet.
    pub fn send_all(&self) -> (r: SendAll)
        ensures
            r@ == initial(),
    {
        SendAll { next: 0, failed: None }
    }
}

impl SendAll {
    /// The index of the channel to invoke next, or `None` once every channel
    /// succeeded or one failed.
    pub fn pending(&self, manager: &NotifierManager) -> (r: Option<usize>)
        ensures
            r matches Some(i) ==> pending(manager@.len(), self@) == Some(i as nat),
            r is None ==> pending(manager@.len(), self@) is None,
    {
        if self.failed.is_none() && self.next < manager.len() {
            Some(self.next)
        } else {
            None
        }
    }

    /// Records what the pending channel answered.
    pub fn record(&mut self, manager: &NotifierManager, outcome: Result<(), ChannelError>)
        requires
            pending(manager@.len(), old(self)@) is Some,
        ensures
            final(self)@ == after(old(self)@, outcome),
    {
        let n: usize = manager.len();
        assert(self.next < n);
        self.next = self.next + 1;
        match outcome {
            Ok(()) => {
                self.failed = None;
            },
            Err(e) => {
                self.failed = Some(e);
            },
        }
    }

    /// The result of the dispatch: the failure that stopped it, or success.
    pub fn finish(self) -> (r: Result<(), ChannelError>)
        ensures
            r == result_of(self@),
    {
        match self.failed {
            Some(e) => Err(e),
            None => Ok(()),
        }
    }
}

/// Outcomes that are all successes.
pub open spec fn all_succeeded(outcomes: Seq<Result<(), ChannelError>>) -> bool {
    forall|i: int| 0 <= i < outcomes.len() ==> (#[trigger] outcomes[i]) is Ok
}

proof fn lemma_replay_successes(outcomes: Seq<Result<(), ChannelError>>)
    requires
        all_succeeded(outcomes),
    ensures
        replay(outcomes) == (DispatchState { next: outcomes.len(), failed: None }),
    decreases outcomes.len(),
{
    if outcomes.len() > 0 {
        let rest = outcomes.drop_last();
        assert forall|i: int| 0 <= i < rest.len() implies (#[trigger] rest[i]) is Ok by {
            assert(rest[i] == outcomes[i]);
        }
        lemma_replay_successes(rest);
        assert(outcomes.last() == outcomes[outcomes.len() - 1]);
    }
}

/// While every invoked channel succeeds, the channels are invoked one at a
/// time in the manager's order, each once: after `j` successes the channel at
/// index `j` is the pending one. Once all `n` have succeeded none is pending
/// and the dispatch succeeds.
pub proof fn lemma_dispatch_in_order(n: nat, outcomes: Seq<Result<(), ChannelError>>)
    requires
        outcomes.len() <= n,
        all_succeeded(outcomes),
    ensures
        forall|j: int|
            0 <= j < outcomes.len() ==> pending(n, #[trigger] replay(outcomes.take(j))) == Some(
                j as nat,
            ),
        replay(outcomes) == (DispatchState { next: outcomes.len(), failed: None }),
        outcomes.len() == n ==> pending(n, replay(outcomes)) is None && result_of(
            replay(outcomes),
        ) is Ok,
{
    assert forall|j: int| 0 <= j < outcomes.len() implies pending(
        n,
        #[trigger] replay(outcomes.take(j)),
    ) == Some(j as nat) by {
        let pre = outcomes.take(j);
        assert forall|i: int| 0 <= i < pre.len() implies (#[trigger] pre[i]) is Ok by {
            assert(pre[i] == outcomes[i]);
        }
        lemma_replay_successes(pre);
    }
    lemma_replay_successes(outcomes);
}

/// A failure stops the dispatch: when the channel at index `k` fails with `e`
/// after the `k` before it succeeded, no channel after it is ever pending, so
/// none is invoked, and the dispatch returns `e`.
pub proof fn lemma_short_circuit(
    n: nat,
    outcomes: Seq<Result<(), ChannelError>>,
    e: ChannelError,
)
    requires
        outcomes.len() < n,
        all_succeeded(outcomes),
    ensures
        pending(n, replay(outcomes)) == Some(outcomes.len()),
        pending(n, replay(outcomes.push(Err(e)))) is None,
        result_of(replay(outcomes.push(Err(e)))) == Err::<(), ChannelError>(e),
{
    lemma_replay_successes(outcomes);
    let all = outcomes.push(Err(e));
    assert(all.drop_last() =~= outcomes);
}

/// For every choice of enabled channels: the channels that a configuration
/// enables number one per enabled block, and a dispatch in which each of
/// them succeeds invokes exactly those channels, the desktop one before the
/// webhook one, each once, and then succeeds.
pub proof fn lemma_configured_dispatch(
    config: Config,
    chs: Seq<Notifier>,
    outcomes: Seq<Result<(), ChannelError>>,
)
    requires
        configured(config, chs),
        outcomes.len() == chs.len(),
        all_succeeded(outcomes),
    ensures
        chs.len() == enabled_count(config),
        config.notifiers.desktop is Some && config.notifiers.webhook is Some ==> chs[0] is Desktop
            && chs[1] is Webhook,
        forall|j: int|
            0 <= j < chs.len() ==> pending(chs.len(), #[trigger] replay(outcomes.take(j)))
                == Some(j as nat),
        pending(chs.len(), replay(outcomes)) is None,
        result_of(replay(outcomes)) is Ok,
{
    lemma_dispatch_in_order(chs.len(), outcomes);
}

} // verus!
