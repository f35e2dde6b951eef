//! The subscriptions and the time of the last run, and how both change.

use vstd::prelude::*;
use vstd::string::*;
use crate::clock::{whole_seconds, Timestamp};
use crate::feed::Podcast;
use crate::storage::{save_ops, save_steps, op_views, FileOp};

verus! {

/// A state older than this many seconds has its feeds fetched again.
pub const REFRESH_AFTER_SECONDS: i64 = 86_400;

/// One subscribed feed. Within a `State` a subscription is known by its title.
#[derive(Clone, Debug, PartialEq, Eq)]
pub struct Subscription {
    pub title: String,
    pub url: String,
    pub num_episodes: usize,
}

/// What a `Subscription` holds, as plain values.
pub struct SubscriptionView {
    pub title: Seq<char>,
    pub url: Seq<char>,
    pub num_episodes: nat,
}

/// What persists between runs: when the state was last loaded, and the
/// subscriptions in the order in which they were made.
#[derive(Clone, Debug, PartialEq, Eq)]
pub struct State {
    pub last_run_time: Timestamp,
    pub subs: Vec<Subscription>,
}

/// What a `State` holds, as plain values.
pub struct StateView {
    pub last_run_time: Timestamp,
    pub subs: Seq<SubscriptionView>,
}

impl View for Subscription {
    type V = SubscriptionView;

    open spec fn view(&self) -> SubscriptionView {
        SubscriptionView {
            title: self.title@,
            url: self.url@,
            num_episodes: self.num_episodes as nat,
        }
    }
}

/// The views of a sequence of subscriptions.
pub open spec fn subscription_views(subs: Seq<Subscription>) -> Seq<SubscriptionView> {
    Seq::new(subs.len(), |i: int| subs[i]@)
}

impl View for State {
    type V = StateView;

    open spec fn view(&self) -> StateView {
        StateView { last_run_time: self.last_run_time, subs: subscription_views(self.subs@) }
    }
}

/// Whether one of `subs` has the title `title`.
pub open spec fn has_title(subs: Seq<SubscriptionView>, title: Seq<char>) -> bool {
    exists|i: int| 0 <= i < subs.len() && #[trigger] subs[i].title == title
}

/// Whether `subs[i]` is the first of `subs` with the title `title`.
pub open spec fn first_titled(subs: Seq<SubscriptionView>, title: Seq<char>, i: int) -> bool {
    &&& 0 <= i < subs.len()
    &&& subs[i].title == title
    &&& forall|j: int| 0 <= j < i ==> (#[trigger] subs[j]).title != title
}

/// Whether no two of `subs` share a title.
pub open spec fn unique_titles(subs: Seq<SubscriptionView>) -> bool {
    forall|i: int, j: int|
        0 <= i < j < subs.len() ==> #[trigger] subs[i].title != #[trigger] subs[j].title
}

/// The subscriptions after subscribing to a feed: unchanged where the feed's
/// title is among them, else with the feed added at the end.
pub open spec fn subscribed(
    subs: Seq<SubscriptionView>,
    title: Seq<char>,
    url: Seq<char>,
    num_episodes: nat,
) -> Seq<SubscriptionView> {
    if has_title(subs, title) {
        subs
    } else {
        subs.push(SubscriptionView { title, url, num_episodes })
    }
}

/// Whether a state last loaded at `last` is stale at `now`: more than a day
/// of whole seconds lies between them.
pub open spec fn refresh_due(last: Timestamp, now: Timestamp) -> bool {
    whole_seconds(now.instant() - last.instant()) > REFRESH_AFTER_SECONDS
}

/// The state that a load at `now` gives: the stored subscriptions, or none
/// where nothing was stored, and `now` as the time of the last run.
pub open spec fn loaded(stored: Option<StateView>, now: Timestamp) -> StateView {
    StateView {
        last_run_time: now,
        subs: match stored {
            Some(state) => state.subs,
            None => Seq::empty(),
        },
    }
}

impl State {
    /// No two subscriptions share a title.
    pub open spec fn wf(&self) -> bool {
        unique_titles(self@.subs)
    }

    /// Loads the state at the time `now`. `stored` is what the state file
    /// held, `None` where there is no such file. The second result says
    /// whether every subscription is to be fetched again before the state is
    /// used: a stored state asks for it when it is stale.
    pub fn new(stored: Option<State>, now: Timestamp) -> (r: (State, bool))
        requires
            now.wf(),
            stored matches Some(state) ==> state.last_run_time.wf(),
        ensures
            r.0@ == loaded(
                match stored {
                    Some(state) => Some(state@),
                    None => None,
                },
                now,
            ),
            r.1 == (stored matches Some(state) && refresh_due(state.last_run_time, now)),
            stored matches Some(state) && state.wf() ==> r.0.wf(),
            stored is None ==> r.0.wf(),
    {
        match stored {
            Some(state) => {
                let refresh = state.last_run_time.seconds_until(&now) > REFRESH_AFTER_SECONDS;
                (State { last_run_time: now, subs: state.subs }, refresh)
            },
            None => {
                let fresh = State { last_run_time: now, subs: Vec::new() };
                assert(fresh@.subs =~= Seq::<SubscriptionView>::empty());
                (fresh, false)
            },
        }
    }

    /// Whether a subscription with this title is held.
    pub fn is_subscribed(&self, title: &str) -> (found: bool)
        ensures
            found == has_title(self@.subs, title@),
    {
        let wanted: String = title.to_owned();
        let mut i: usize = 0;
        while i < self.subs.len()
            invariant
                i <= self.subs.len(),
                wanted@ == title@,
                forall|k: int| 0 <= k < i ==> (#[trigger] self@.subs[k]).title != title@,
            decreases self.subs.len() - i,
        {
            if self.subs[i].title == wanted {
                assert(self@.subs[i as int].title == title@);
                return true;
            }
            i = i + 1;
        }
        false
    }

    /// The URL of the first subscription with this title.
    pub fn url_of(&self, title: &str) -> (r: Option<String>)
        ensures
            match r {
                Some(url) => exists|i: int|
                    #[trigger] first_titled(self@.subs, title@, i) && self@.subs[i].url == url@,
                None => !has_title(self@.subs, title@),
            },
    {
        let wanted: String = title.to_owned();
        let mut i: usize = 0;
        while i < self.subs.len()
            invariant
                i <= self.subs.len(),
                wanted@ == title@,
                forall|k: int| 0 <= k < i ==> (#[trigger] self@.subs[k]).title != title@,
            decreases self.subs.len() - i,
        {
            if self.subs[i].title == wanted {
                let url = self.subs[i].url.clone();
                assert(first_titled(self@.subs, title@, i as int));
                assert(self@.subs[i as int].url == url@);
                return Some(url);
            }
            i = i + 1;
        }
        None
    }

    /// Subscribes to the feed fetched from `url`: adds it at the end, with
    /// the number of episodes it has now, unless its title is subscribed to
    /// already. Says whether it was added.
    pub fn subscribe(&mut self, url: &str, podcast: &Podcast) -> (added: bool)
        ensures
            final(self)@.last_run_time == old(self)@.last_run_time,
            final(self)@.subs == subscribed(
                old(self)@.subs,
                podcast@.title,
                url@,
                podcast@.episodes.len(),
            ),
            added == !has_title(old(self)@.subs, podcast@.title),
            old(self).wf() ==> final(self).wf(),
    {
        if self.is_subscribed(podcast.title.as_str()) {
            false
        } else {
            let ghost before = self@.subs;
            self.subs.push(
                Subscription {
                    title: podcast.title.clone(),
                    url: url.to_owned(),
                    num_episodes: podcast.episodes.len(),
                },
            );
            assert(self@.subs =~= before.push(
                SubscriptionView {
                    title: podcast@.title,
                    url: url@,
                    num_episodes: podcast@.episodes.len(),
                },
            ));
            true
        }
    }

    /// A copy of the subscriptions, in their order.
    pub fn subscriptions(&self) -> (r: Vec<Subscription>)
        ensures
            subscription_views(r@) == self@.subs,
    {
        let mut result: Vec<Subscription> = Vec::new();
        let mut i: usize = 0;
        while i < self.subs.len()
            invariant
                i <= self.subs.len(),
                result.len() == i,
                forall|k: int| 0 <= k < i ==> result[k]@ == self.subs[k]@,
            decreases self.subs.len() - i,
        {
            let sub = &self.subs[i];
            result.push(
                Subscription {
                    title: sub.title.clone(),
                    url: sub.url.clone(),
                    num_episodes: sub.num_episodes,
                },
            );
            i = i + 1;
        }
        assert(subscription_views(result@) =~= self@.subs);
        result
    }

    /// The steps that make a serialized state the content of the state file:
    /// it is written to the temporary file, which is then renamed over the
    /// state file.
    pub fn save(serialized: String) -> (ops: Vec<FileOp>)
        ensures
            op_views(ops@) == save_ops(serialized@),
    {
        save_steps(serialized)
    }

    /// The message for a state file whose content cannot be read as a state.
    pub fn parse_error(path: &str, reason: &str) -> (message: String)
        ensures
            message@ == "Could not parse: "@ + path@ + "\nReason: "@ + reason@,
    {
        let mut message: String = "Could not parse: ".to_owned();
        message.append(path);
        message.append("\nReason: ");
        message.append(reason);
        message
    }
}

/// Subscribing keeps titles unique, and subscribing to a title a second time
/// changes nothing, whatever URL and episode count come with it.
pub proof fn lemma_subscribe_idempotent(
    subs: Seq<SubscriptionView>,
    title: Seq<char>,
    url: Seq<char>,
    num_episodes: nat,
    url_again: Seq<char>,
    num_episodes_again: nat,
)
    ensures
        has_title(subscribed(subs, title, url, num_episodes), title),
        unique_titles(subs) ==> unique_titles(subscribed(subs, title, url, num_episodes)),
        subscribed(subscribed(subs, title, url, num_episodes), title, url_again, num_episodes_again)
            == subscribed(subs, title, url, num_episodes),
{
    let once = subscribed(subs, title, url, num_episodes);
    if !has_title(subs, title) {
        assert(once[subs.len() as int].title == title);
        if unique_titles(subs) {
            assert forall|i: int, j: int| 0 <= i < j < once.len() implies #[trigger] once[i].title
                != #[trigger] once[j].title by {
                if j == subs.len() {
                    assert(subs[i].title != title);
                }
            }
        }
    }
}

/// A state is stale once more than a day and a second lies between the
/// seconds of the two times, and is not while at most a day does.
pub proof fn lemma_refresh_after_a_day(last: Timestamp, now: Timestamp)
    requires
        last.wf(),
        now.wf(),
    ensures
        now.secs - last.secs > REFRESH_AFTER_SECONDS + 1 ==> refresh_due(last, now),
        now.secs - last.secs <= REFRESH_AFTER_SECONDS ==> !refresh_due(last, now),
        refresh_due(last, now) <==> now.instant() - last.instant() >= (REFRESH_AFTER_SECONDS + 1)
            * 1_000_000_000,
{
}

} // verus!
