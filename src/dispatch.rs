use vstd::prelude::*;

use crate::data::{InternalMessage, MessageView, StreamData};
use crate::recorder::{output_path, recording_path};

verus! {

/// Delay between two consecutive subscription calls, in milliseconds.
pub const SUBSCRIPTION_SPACING_MS: u64 = 400;

/// The two notification types subscribed to for every broadcaster.
#[derive(Debug, Clone, Copy, PartialEq, Eq, Structural)]
pub enum SubscriptionKind {
    StreamOnline,
    StreamOffline,
}

/// One step that the dispatch loop asks its surroundings to perform.
#[derive(Debug, Clone)]
pub enum Action {
    /// Create a subscription of `kind` for `broadcaster_id` on `session`.
    Subscribe { session: String, broadcaster_id: String, kind: SubscriptionKind },
    /// Wait before the next call.
    Pause { millis: u64 },
    /// Send a normal-closure frame to the connection being retired.
    CloseRetired,
    /// Wait until the read loop of the retired connection has ended.
    AwaitRetired,
    /// Make the pending connection the active one.
    AdoptPending,
    /// Open a replacement connection to `url` and keep it as pending.
    OpenReplacement { url: String },
    /// Launch the recorder for `channel`, writing to `path`.
    StartRecording { channel: String, path: String },
}

pub ghost enum ActionView {
    Subscribe { session: Seq<char>, broadcaster_id: Seq<char>, kind: SubscriptionKind },
    Pause { millis: u64 },
    CloseRetired,
    AwaitRetired,
    AdoptPending,
    OpenReplacement { url: Seq<char> },
    StartRecording { channel: Seq<char>, path: Seq<char> },
}

impl View for Action {
    type V = ActionView;

    open spec fn view(&self) -> ActionView {
        match self {
            Action::Subscribe { session, broadcaster_id, kind } => ActionView::Subscribe {
                session: session@,
                broadcaster_id: broadcaster_id@,
                kind: *kind,
            },
            Action::Pause { millis } => ActionView::Pause { millis: *millis },
            Action::CloseRetired => ActionView::CloseRetired,
            Action::AwaitRetired => ActionView::AwaitRetired,
            Action::AdoptPending => ActionView::AdoptPending,
            Action::OpenReplacement { url } => ActionView::OpenReplacement { url: url@ },
            Action::StartRecording { channel, path } => ActionView::StartRecording {
                channel: channel@,
                path: path@,
            },
        }
    }
}

/// A recorder launched by the dispatch loop. Nothing here stops it.
#[derive(Debug, Clone)]
pub struct Recording {
    pub channel: String,
    pub path: String,
}

impl View for Recording {
    type V = (Seq<char>, Seq<char>);

    open spec fn view(&self) -> (Seq<char>, Seq<char>) {
        (self.channel@, self.path@)
    }
}

/// The sequential consumer of internal events.
pub struct Dispatcher {
    broadcaster_ids: Vec<String>,
    output_root: String,
    pending: bool,
    recordings: Vec<Recording>,
}

pub ghost struct DispatchState {
    /// User ids of the watched broadcasters, in configured order.
    pub broadcaster_ids: Seq<Seq<char>>,
    /// Directory under which recordings are written.
    pub output_root: Seq<char>,
    /// Whether a replacement connection is open and waits for its welcome.
    pub pending: bool,
    /// Every recording launched so far, as (channel, path).
    pub recordings: Seq<(Seq<char>, Seq<char>)>,
}

impl View for Dispatcher {
    type V = DispatchState;

    closed spec fn view(&self) -> DispatchState {
        DispatchState {
            broadcaster_ids: self.broadcaster_ids@.map_values(|s: String| s@),
            output_root: self.output_root@,
            pending: self.pending,
            recordings: self.recordings@.map_values(|r: Recording| r@),
        }
    }
}

/// The four calls issued for one broadcaster: online, pause, offline, pause.
pub open spec fn subscription_block(session: Seq<char>, id: Seq<char>) -> Seq<ActionView> {
    seq![
        ActionView::Subscribe { session, broadcaster_id: id, kind: SubscriptionKind::StreamOnline },
        ActionView::Pause { millis: SUBSCRIPTION_SPACING_MS },
        ActionView::Subscribe { session, broadcaster_id: id, kind: SubscriptionKind::StreamOffline },
        ActionView::Pause { millis: SUBSCRIPTION_SPACING_MS },
    ]
}

/// The subscription calls for a new session: one block per broadcaster, in
/// the order given.
pub open spec fn subscription_plan(session: Seq<char>, ids: Seq<Seq<char>>) -> Seq<ActionView>
    decreases ids.len(),
{
    if ids.len() == 0 {
        seq![]
    } else {
        subscription_plan(session, ids.drop_last()) + subscription_block(session, ids.last())
    }
}

/// Retiring the active connection once its replacement is welcomed.
pub open spec fn handoff_actions() -> Seq<ActionView> {
    seq![ActionView::CloseRetired, ActionView::AwaitRetired, ActionView::AdoptPending]
}

/// The next state and the actions for one event; `stamp` is the time of
/// arrival as it names a recording.
pub open spec fn step(s: DispatchState, m: MessageView, stamp: Seq<char>) -> (
    DispatchState,
    Seq<ActionView>,
) {
    match m {
        MessageView::Init { session } => {
            if s.pending {
                (DispatchState { pending: false, ..s }, handoff_actions())
            } else {
                (s, subscription_plan(session, s.broadcaster_ids))
            }
        },
        MessageView::StreamLive { channel } => {
            let path = recording_path(s.output_root, channel, stamp);
            (
                DispatchState { recordings: s.recordings.push((channel, path)), ..s },
                seq![ActionView::StartRecording { channel, path }],
            )
        },
        MessageView::Reconnect { session, url } => (
            DispatchState { pending: true, ..s },
            seq![ActionView::OpenReplacement { url }],
        ),
        _ => (s, seq![]),
    }
}

/// The final state and all actions for a sequence of (event, stamp) pairs
/// handled in order.
pub open spec fn run(s: DispatchState, events: Seq<(MessageView, Seq<char>)>) -> (
    DispatchState,
    Seq<ActionView>,
)
    decreases events.len(),
{
    if events.len() == 0 {
        (s, seq![])
    } else {
        let prev = run(s, events.drop_last());
        let next = step(prev.0, events.last().0, events.last().1);
        (next.0, prev.1 + next.1)
    }
}

impl Dispatcher {
    /// A dispatcher for the broadcasters with the given user ids, in the
    /// order given, recording under `output_root`.
    pub fn new(broadcaster_ids: Vec<String>, output_root: String) -> (d: Self)
        ensures
            d@ == (DispatchState {
                broadcaster_ids: broadcaster_ids@.map_values(|s: String| s@),
                output_root: output_root@,
                pending: false,
                recordings: seq![],
            }),
    {
        let d = Dispatcher { broadcaster_ids, output_root, pending: false, recordings: Vec::new() };
        assert(d@.recordings =~= seq![]);
        d
    }

    /// Whether a replacement connection waits for its welcome.
    pub fn has_pending(&self) -> (r: bool)
        ensures
            r == self@.pending,
    {
        self.pending
    }

    /// The recordings launched so far, oldest first.
    pub fn recordings(&self) -> (r: &Vec<Recording>)
        ensures
            r@.map_values(|x: Recording| x@) == self@.recordings,
    {
        &self.recordings
    }

    fn subscriptions(&self, session: &String) -> (r: Vec<Action>)
        ensures
            r@.map_values(|a: Action| a@) == subscription_plan(session@, self@.broadcaster_ids),
    {
        let ghost ids = self@.broadcaster_ids;
        let mut r: Vec<Action> = Vec::new();
        let mut i: usize = 0;
        while i < self.broadcaster_ids.len()
            invariant
                i <= ids.len(),
                ids == self@.broadcaster_ids,
                r@.map_values(|a: Action| a@) == subscription_plan(session@, ids.take(i as int)),
            decreases ids.len() - i,
        {
            let ghost before = r@.map_values(|a: Action| a@);
            let id = &self.broadcaster_ids[i];
            r.push(
                Action::Subscribe {
                    session: session.clone(),
                    broadcaster_id: id.clone(),
                    kind: SubscriptionKind::StreamOnline,
                },
            );
            r.push(Action::Pause { millis: SUBSCRIPTION_SPACING_MS });
            r.push(
                Action::Subscribe {
                    session: session.clone(),
                    broadcaster_id: id.clone(),
                    kind: SubscriptionKind::StreamOffline,
                },
            );
            r.push(Action::Pause { millis: SUBSCRIPTION_SPACING_MS });
            proof {
                assert(ids.take(i + 1).drop_last() =~= ids.take(i as int));
                assert(ids.take(i + 1).last() == ids[i as int]);
                assert(r@.map_values(|a: Action| a@) =~= before + subscription_block(
                    session@,
                    ids[i as int],
                ));
            }
            i = i + 1;
        }
        assert(ids.take(i as int) =~= ids);
        r
    }

    /// Handles one event that arrived at the time written as `stamp`.
    pub fn handle(&mut self, message: &InternalMessage, stamp: &str) -> (actions: Vec<Action>)
        ensures
            (final(self)@, actions@.map_values(|a: Action| a@)) == step(
                old(self)@,
                message@,
                stamp@,
            ),
    {
        let mut actions: Vec<Action> = Vec::new();
        match message {
            InternalMessage::Init { session } => {
                if self.pending {
                    self.pending = false;
                    actions.push(Action::CloseRetired);
                    actions.push(Action::AwaitRetired);
                    actions.push(Action::AdoptPending);
                    assert(actions@.map_values(|a: Action| a@) =~= handoff_actions());
                } else {
                    actions = self.subscriptions(session);
                }
            },
            InternalMessage::StreamLive { channel } => {
                let path = output_path(self.output_root.as_str(), channel.as_str(), stamp);
                self.recordings.push(Recording { channel: channel.clone(), path: path.clone() });
                actions.push(Action::StartRecording { channel: channel.clone(), path });
                assert(self@.recordings =~= old(self)@.recordings.push(
                    (channel@, recording_path(old(self)@.output_root, channel@, stamp@)),
                ));
            },
            InternalMessage::Reconnect { session, url } => {
                self.pending = true;
                actions.push(Action::OpenReplacement { url: url.clone() });
            },
            _ => {},
        }
        assert(actions@.map_values(|a: Action| a@) =~= step(old(self)@, message@, stamp@).1);
        actions
    }
}


/// The four calls that start at position `4 * i` of a subscription plan.
pub open spec fn block_at(plan: Seq<ActionView>, i: int) -> Seq<ActionView> {
    plan.subrange(4 * i, 4 * i + 4)
}

/// The (event, stamp) pairs of a batch, as values.
pub open spec fn events_view(events: Seq<(InternalMessage, String)>) -> Seq<(MessageView, Seq<char>)> {
    events.map_values(|e: (InternalMessage, String)| (e.0@, e.1@))
}

/// No event of the sequence is a welcome.
pub open spec fn no_init(events: Seq<(MessageView, Seq<char>)>) -> bool {
    forall|i: int| 0 <= i < events.len() ==> !(#[trigger] events[i].0 is Init)
}

proof fn lemma_plan_blocks(session: Seq<char>, ids: Seq<Seq<char>>)
    ensures
        subscription_plan(session, ids).len() == 4 * ids.len(),
        forall|i: int|
            0 <= i < ids.len() ==> #[trigger] block_at(subscription_plan(session, ids), i)
                == subscription_block(session, ids[i]),
    decreases ids.len(),
{
    if ids.len() > 0 {
        let prefix = ids.drop_last();
        lemma_plan_blocks(session, prefix);
        let a = subscription_plan(session, prefix);
        let b = subscription_block(session, ids.last());
        assert forall|i: int| 0 <= i < ids.len() implies #[trigger] block_at(a + b, i)
            == subscription_block(session, ids[i]) by {
            if i < ids.len() - 1 {
                assert(block_at(a + b, i) =~= block_at(a, i));
                assert(prefix[i] == ids[i]);
            } else {
                assert(block_at(a + b, i) =~= b);
            }
        }
    }
}

/// A welcome with no replacement pending issues, for N broadcasters, N blocks
/// of calls, one per broadcaster in configured order, each made of an online
/// subscription, a 400 ms pause, an offline subscription and a 400 ms pause:
/// 2N subscriptions in all, with a pause between any two consecutive ones.
/// The state is left as it was.
pub proof fn lemma_init_subscribes_each_broadcaster(
    s: DispatchState,
    session: Seq<char>,
    stamp: Seq<char>,
)
    requires
        !s.pending,
    ensures
        step(s, MessageView::Init { session }, stamp).0 == s,
        step(s, MessageView::Init { session }, stamp).1.len() == 4 * s.broadcaster_ids.len(),
        forall|i: int|
            0 <= i < s.broadcaster_ids.len() ==> #[trigger] block_at(
                step(s, MessageView::Init { session }, stamp).1,
                i,
            ) == subscription_block(session, s.broadcaster_ids[i]),
{
    lemma_plan_blocks(session, s.broadcaster_ids);
}

proof fn lemma_pending_without_init(s: DispatchState, events: Seq<(MessageView, Seq<char>)>)
    requires
        s.pending,
        no_init(events),
    ensures
        run(s, events).0.pending,
        !run(s, events).1.contains(ActionView::CloseRetired),
    decreases events.len(),
{
    if events.len() > 0 {
        let prefix = events.drop_last();
        assert forall|i: int| 0 <= i < prefix.len() implies !(#[trigger] prefix[i].0 is Init) by {
            assert(prefix[i] == events[i]);
        }
        lemma_pending_without_init(s, prefix);
        let prev = run(s, prefix);
        let next = step(prev.0, events.last().0, events.last().1);
        assert(!(events[events.len() - 1].0 is Init));
        assert forall|j: int| 0 <= j < (prev.1 + next.1).len() implies (prev.1 + next.1)[j]
            != ActionView::CloseRetired by {
            if j < prev.1.len() {
                assert(prev.1[j] != ActionView::CloseRetired);
            }
        }
    }
}

/// A reconnect request opens a replacement and closes nothing. Any events
/// after it other than a welcome close nothing either and keep the
/// replacement pending. The next welcome then, and only then, sends the
/// normal-closure frame to the old connection, awaits its end and adopts the
/// replacement, in that order.
pub proof fn lemma_reconnect_handoff(
    s: DispatchState,
    old_session: Seq<char>,
    url: Seq<char>,
    stamp0: Seq<char>,
    middle: Seq<(MessageView, Seq<char>)>,
    new_session: Seq<char>,
    stamp: Seq<char>,
)
    requires
        no_init(middle),
    ensures
        step(s, MessageView::Reconnect { session: old_session, url }, stamp0).1 == seq![
            ActionView::OpenReplacement { url },
        ],
        !run(step(s, MessageView::Reconnect { session: old_session, url }, stamp0).0, middle).1.contains(
            ActionView::CloseRetired,
        ),
        step(
            run(step(s, MessageView::Reconnect { session: old_session, url }, stamp0).0, middle).0,
            MessageView::Init { session: new_session },
            stamp,
        ).1 == handoff_actions(),
{
    let r = step(s, MessageView::Reconnect { session: old_session, url }, stamp0);
    lemma_pending_without_init(r.0, middle);
}

/// Decisions depend only on the watched broadcasters, the output directory,
/// whether a replacement is pending, and the events with their stamps:
/// replaying the same events in the same order from two states that agree on
/// those gives the same actions, whatever recordings either launched before,
/// and again two states that agree on them.
pub proof fn lemma_replay_same_actions(
    s1: DispatchState,
    s2: DispatchState,
    events: Seq<(MessageView, Seq<char>)>,
)
    requires
        s1.broadcaster_ids == s2.broadcaster_ids,
        s1.output_root == s2.output_root,
        s1.pending == s2.pending,
    ensures
        run(s1, events).1 == run(s2, events).1,
        run(s1, events).0.broadcaster_ids == run(s2, events).0.broadcaster_ids,
        run(s1, events).0.output_root == run(s2, events).0.output_root,
        run(s1, events).0.pending == run(s2, events).0.pending,
    decreases events.len(),
{
    if events.len() > 0 {
        lemma_replay_same_actions(s1, s2, events.drop_last());
    }
}

/// An offline notification changes nothing and asks for nothing: in
/// particular no recording is stopped or forgotten.
pub proof fn lemma_stop_keeps_recordings(s: DispatchState, channel: Seq<char>, stamp: Seq<char>)
    ensures
        step(s, MessageView::StreamStop { channel }, stamp).0 == s,
        step(s, MessageView::StreamStop { channel }, stamp).1 == Seq::<ActionView>::empty(),
{
}

impl Dispatcher {
    /// Handles a batch of (event, stamp) pairs in order and returns all their
    /// actions in order.
    pub fn handle_all(&mut self, events: &Vec<(InternalMessage, String)>) -> (actions: Vec<Action>)
        ensures
            (final(self)@, actions@.map_values(|a: Action| a@)) == run(old(self)@, events_view(events@)),
    {
        let ghost evs = events_view(events@);
        let mut actions: Vec<Action> = Vec::new();
        let mut i: usize = 0;
        while i < events.len()
            invariant
                i <= events.len(),
                evs == events_view(events@),
                (self@, actions@.map_values(|a: Action| a@)) == run(old(self)@, evs.take(i as int)),
            decreases events.len() - i,
        {
            let ghost before = actions@.map_values(|a: Action| a@);
            let mut more = self.handle(&events[i].0, events[i].1.as_str());
            let ghost added = more@.map_values(|a: Action| a@);
            actions.append(&mut more);
            proof {
                assert(evs.take(i + 1).drop_last() =~= evs.take(i as int));
                assert(evs.take(i + 1).last() == evs[i as int]);
                assert(actions@.map_values(|a: Action| a@) =~= before + added);
            }
            i = i + 1;
        }
        assert(evs.take(i as int) =~= evs);
        actions
    }
}

/// A stream of a status answer as (type, login).
pub open spec fn stream_view(s: StreamData) -> (Seq<char>, Seq<char>) {
    (s.stream_type@, s.user_login@)
}

/// The events synthesized at startup: one `StreamLive` per stream whose type
/// is `live`, in the order of the answer.
pub open spec fn priming_spec(streams: Seq<(Seq<char>, Seq<char>)>) -> Seq<MessageView>
    decreases streams.len(),
{
    if streams.len() == 0 {
        seq![]
    } else {
        let prev = priming_spec(streams.drop_last());
        if streams.last().0 == "live"@ {
            prev.push(MessageView::StreamLive { channel: streams.last().1 })
        } else {
            prev
        }
    }
}

/// The `StreamLive` events for the streams that are already live, so that
/// no recording is missed for a stream that started before the watcher.
pub fn priming_events(streams: &Vec<StreamData>) -> (r: Vec<InternalMessage>)
    ensures
        r@.map_values(|m: InternalMessage| m@) == priming_spec(
            streams@.map_values(|s: StreamData| stream_view(s)),
        ),
{
    let ghost all = streams@.map_values(|s: StreamData| stream_view(s));
    let live = String::from_str("live");
    let mut r: Vec<InternalMessage> = Vec::new();
    let mut i: usize = 0;
    while i < streams.len()
        invariant
            i <= streams.len(),
            all == streams@.map_values(|s: StreamData| stream_view(s)),
            live@ == "live"@,
            r@.map_values(|m: InternalMessage| m@) == priming_spec(all.take(i as int)),
        decreases streams.len() - i,
    {
        let ghost before = r@;
        assert(all.take(i + 1).drop_last() =~= all.take(i as int));
        assert(all.take(i + 1).last() == stream_view(streams@[i as int]));
        if streams[i].stream_type == live {
            r.push(InternalMessage::StreamLive { channel: streams[i].user_login.clone() });
            assert(r@.map_values(|m: InternalMessage| m@) =~= before.map_values(
                |m: InternalMessage| m@,
            ).push(MessageView::StreamLive { channel: streams@[i as int].user_login@ }));
        }
        i = i + 1;
    }
    assert(all.take(i as int) =~= all);
    r
}

} // verus!
