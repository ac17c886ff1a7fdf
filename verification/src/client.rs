//! The playback controller: consumes host notifications, queries the
//! segment store, and decides the host mutations for each notification
//! while arbitrating mute ownership against the user.
//!
//! The controller tracks which mute segment it is inside and whether the
//! plugin itself owns the current mute.  Entering a different mute segment
//! re-evaluates the host's mute flag; staying inside the same segment never
//! retriggers; leaving restores the host only when the plugin owns the mute,
//! so a user's independent mute is preserved.

use vstd::prelude::*;

use crate::config::Config;
use crate::mpv::{Event, Handle, HostAction, PropertyData, REPL_PROP_MUTE, REPL_PROP_TIME};
use crate::segment::Segment;
use crate::store::SortedSegments;
use crate::utils::{get_youtube_id, youtube_id_of};

verus! {

/// Whether the tracked mute segment is the same record as `s`.
pub open spec fn tracks(ms: Option<Segment>, s: Segment) -> bool {
    match ms {
        Some(m) => m.same_record(s),
        None => false,
    }
}

/// Next tracked segment, next ownership flag, and host actions issued when
/// the position falls inside the mute segment `s` while the host's mute
/// flag reads `host_mute`.
pub open spec fn mute_transition(
    ms: Option<Segment>,
    owned: bool,
    s: Segment,
    host_mute: bool,
) -> (Option<Segment>, bool, Seq<HostAction>) {
    if tracks(ms, s) {
        (ms, owned, Seq::empty())
    } else if owned || !host_mute {
        (
            Some(s),
            true,
            seq![
                HostAction::SetMute { value: true },
                HostAction::ShowMuteNotice { segment: s },
            ],
        )
    } else {
        (Some(s), owned, Seq::empty())
    }
}

/// Next state and host actions issued when the position lies outside every
/// skip and mute segment.
pub open spec fn reset_transition(ms: Option<Segment>, owned: bool) -> (
    Option<Segment>,
    bool,
    Seq<HostAction>,
) {
    match ms {
        None => (None, owned, Seq::empty()),
        Some(_) => if owned {
            (None, false, seq![HostAction::SetMute { value: false }])
        } else {
            (None, false, Seq::empty())
        },
    }
}

/// Host actions issued when the position falls inside the skip segment `s`:
/// seek to the segment's end boundary and announce it.
pub open spec fn skip_actions(s: Segment) -> Seq<HostAction> {
    seq![
        HostAction::SetTimePos { time_pos: s.end },
        HostAction::ShowSkipNotice { segment: s },
    ]
}

/// Full decision for one position update at `t`: skip segments take
/// priority over mute segments; outside both the mute tracking resets.
pub open spec fn time_change_transition(
    ms: Option<Segment>,
    owned: bool,
    store: SortedSegments,
    t: u64,
    host_mute: bool,
) -> (Option<Segment>, bool, Seq<HostAction>) {
    match store.skip_segment_at(t) {
        Some(s) => (ms, owned, skip_actions(s)),
        None => match store.mute_segment_at(t) {
            Some(s) => mute_transition(ms, owned, s, host_mute),
            None => reset_transition(ms, owned),
        },
    }
}

/// Ownership flag after the host reports an external mute change: an
/// external unmute clears the plugin's claim; anything else leaves it.
pub open spec fn mute_change_owned(owned: bool, value: Option<bool>) -> bool {
    if value == Some(false) {
        false
    } else {
        owned
    }
}

/// Host actions issued on a jump-to-highlight request.
pub open spec fn poi_actions(store: SortedSegments) -> Seq<HostAction> {
    match store.point_of_interest() {
        Some(t) => seq![
            HostAction::SetTimePos { time_pos: t },
            HostAction::ShowPoiNotice { time_pos: t },
        ],
        None => Seq::empty(),
    }
}

/// Host actions issued when the fetch finished and a full-category record
/// was found.
pub open spec fn category_actions(store: SortedSegments) -> Seq<HostAction> {
    match store.full_category() {
        Some(c) => seq![HostAction::ShowCategoryNotice { category: c }],
        None => Seq::empty(),
    }
}

/// The message arguments of a jump-to-highlight key binding.
pub open spec fn is_poi_command(args: Seq<String>) -> bool {
    args.len() >= 3 && args[0]@ == "key-binding"@ && args[1]@ == "poi"@ && args[2]@ == "u-"@
}

/// The message arguments announcing that the segments were fetched.
pub open spec fn is_fetched_command(args: Seq<String>) -> bool {
    args.len() == 1 && args[0]@ == "segments-fetched"@
}

/// Host actions issued for a client message.
pub open spec fn message_actions(args: Seq<String>, store: SortedSegments) -> Seq<HostAction> {
    if is_poi_command(args) {
        poi_actions(store)
    } else if is_fetched_command(args) {
        category_actions(store)
    } else {
        Seq::empty()
    }
}

/// The controller: one per host client connection.
pub struct Client {
    /// Capability to the host connection; decisions are recorded on it.
    pub handle: Handle,
    pub config: Config,
    /// The mute segment currently entered, if any.
    pub mute_segment: Option<Segment>,
    /// True iff the plugin itself set the current mute.
    pub mute_sponsorblock: bool,
}

impl Client {
    /// Mute ownership is only meaningful while inside a mute segment; both
    /// reset together.
    pub open spec fn wf(self) -> bool {
        self.mute_sponsorblock ==> self.mute_segment is Some
    }

    /// The configuration and the underlying connection never change.
    pub open spec fn same_env(self, pre: Client) -> bool {
        self.handle.raw == pre.handle.raw && self.config == pre.config
    }

    /// The mute tracking state never changed.
    pub open spec fn same_state(self, pre: Client) -> bool {
        self.mute_segment == pre.mute_segment && self.mute_sponsorblock == pre.mute_sponsorblock
    }

    /// Exactly the actions `acts` were recorded, after the ones already
    /// pending.
    pub open spec fn appended(self, pre: Client, acts: Seq<HostAction>) -> bool {
        self.handle.actions@ == pre.handle.actions@ + acts
    }

    /// Wrap a host client connection; the tracking state starts clear.
    pub fn from_ptr(raw: usize, config: Config) -> (r: Client)
        requires
            raw != 0,
        ensures
            r.handle.raw == raw,
            r.handle.actions@ == Seq::<HostAction>::empty(),
            r.config == config,
            r.mute_segment is None,
            r.mute_sponsorblock == false,
            r.wf(),
    {
        Client { handle: Handle::from_ptr(raw), config, mute_segment: None, mute_sponsorblock: false }
    }

    /// A skip segment contains the position: seek to its end boundary and
    /// announce it.  Skips are stateless; the mute tracking is untouched.
    pub fn skip(&mut self, working_segment: Segment)
        ensures
            final(self).same_env(*old(self)),
            final(self).same_state(*old(self)),
            final(self).appended(*old(self), skip_actions(working_segment)),
    {
        self.handle.set_time_pos(working_segment.end);
        self.handle.show_skip_notice(working_segment);
        proof {
            assert(self.handle.actions@ =~= old(self).handle.actions@ + skip_actions(
                working_segment,
            ));
        }
    }

    /// A mute segment contains the position: arbitrate against the host's
    /// current mute flag.  Only entering a different segment acts; the
    /// plugin mutes unless the user already muted independently, and either
    /// way the segment becomes the tracked one.
    pub fn mute(&mut self, working_segment: Segment, host_mute: bool)
        ensures
            final(self).same_env(*old(self)),
            final(self).mute_segment == mute_transition(
                old(self).mute_segment,
                old(self).mute_sponsorblock,
                working_segment,
                host_mute,
            ).0,
            final(self).mute_sponsorblock == mute_transition(
                old(self).mute_segment,
                old(self).mute_sponsorblock,
                working_segment,
                host_mute,
            ).1,
            final(self).appended(
                *old(self),
                mute_transition(
                    old(self).mute_segment,
                    old(self).mute_sponsorblock,
                    working_segment,
                    host_mute,
                ).2,
            ),
            final(self).wf(),
    {
        let tracked_same = match &self.mute_segment {
            Some(m) => m.eq_record(&working_segment),
            None => false,
        };
        if !tracked_same {
            if self.mute_sponsorblock || !host_mute {
                self.handle.set_mute(true);
                self.mute_sponsorblock = true;
                self.handle.show_mute_notice(working_segment);
            }
            self.mute_segment = Some(working_segment);
        }
        proof {
            let acts = mute_transition(
                old(self).mute_segment,
                old(self).mute_sponsorblock,
                working_segment,
                host_mute,
            ).2;
            assert(self.handle.actions@ =~= old(self).handle.actions@ + acts);
        }
    }

    /// The position lies outside every segment: clear the tracking, and
    /// restore the host's audio only if the plugin owns the current mute.
    pub fn reset(&mut self)
        ensures
            final(self).same_env(*old(self)),
            final(self).mute_segment == reset_transition(
                old(self).mute_segment,
                old(self).mute_sponsorblock,
            ).0,
            final(self).mute_sponsorblock == reset_transition(
                old(self).mute_segment,
                old(self).mute_sponsorblock,
            ).1,
            final(self).appended(
                *old(self),
                reset_transition(old(self).mute_segment, old(self).mute_sponsorblock).2,
            ),
            old(self).wf() ==> final(self).wf(),
    {
        if self.mute_segment.is_some() {
            if self.mute_sponsorblock {
                self.handle.set_mute(false);
                self.mute_sponsorblock = false;
            }
            self.mute_segment = None;
        }
        proof {
            let acts = reset_transition(old(self).mute_segment, old(self).mute_sponsorblock).2;
            assert(self.handle.actions@ =~= old(self).handle.actions@ + acts);
        }
    }

    /// The host reports the mute property changed from outside: an external
    /// unmute withdraws the plugin's ownership so the next segment boundary
    /// re-evaluates cleanly.  An external mute is indistinguishable from the
    /// plugin's own write and is left to the next boundary check.
    pub fn mute_change(&mut self, value: Option<bool>)
        ensures
            final(self).same_env(*old(self)),
            final(self).mute_segment == old(self).mute_segment,
            final(self).mute_sponsorblock == mute_change_owned(old(self).mute_sponsorblock, value),
            final(self).appended(*old(self), Seq::empty()),
            old(self).wf() ==> final(self).wf(),
    {
        match value {
            Some(false) => {
                self.mute_sponsorblock = false;
            },
            _ => {},
        }
        proof {
            assert(self.handle.actions@ =~= old(self).handle.actions@ + Seq::<HostAction>::empty());
        }
    }

    /// One playback-position notification.  A position without data is
    /// ignored; otherwise skip segments take priority, then mute segments,
    /// then the reset of the tracking.  At most one host mutation is issued.
    pub fn time_change(&mut self, time_pos: Option<u64>, host_mute: bool, store: &SortedSegments)
        ensures
            final(self).same_env(*old(self)),
            match time_pos {
                None => final(self).same_state(*old(self)) && final(self).appended(
                    *old(self),
                    Seq::empty(),
                ),
                Some(t) => {
                    &&& final(self).mute_segment == time_change_transition(
                        old(self).mute_segment,
                        old(self).mute_sponsorblock,
                        *store,
                        t,
                        host_mute,
                    ).0
                    &&& final(self).mute_sponsorblock == time_change_transition(
                        old(self).mute_segment,
                        old(self).mute_sponsorblock,
                        *store,
                        t,
                        host_mute,
                    ).1
                    &&& final(self).appended(
                        *old(self),
                        time_change_transition(
                            old(self).mute_segment,
                            old(self).mute_sponsorblock,
                            *store,
                            t,
                            host_mute,
                        ).2,
                    )
                },
            },
            old(self).wf() ==> final(self).wf(),
    {
        let t = match time_pos {
            Some(t) => t,
            None => {
                proof {
                    assert(self.handle.actions@ =~= old(self).handle.actions@
                        + Seq::<HostAction>::empty());
                }
                return ;
            },
        };
        match store.get_skip_segment(t) {
            Some(s) => {
                self.skip(s);
            },
            None => {
                match store.get_mute_segment(t) {
                    Some(s) => {
                        self.mute(s, host_mute);
                    },
                    None => {
                        self.reset();
                    },
                }
            },
        }
    }

    /// A new file started.  When the path holds a supported video URL the
    /// embedder is asked to spawn the fetch worker for its identifier and
    /// the position and mute properties are subscribed; any other path
    /// leaves the plugin idle for this video.
    pub fn start_file(&mut self, path: &str)
        ensures
            final(self).same_env(*old(self)),
            final(self).same_state(*old(self)),
            old(self).wf() ==> final(self).wf(),
            match youtube_id_of(path@) {
                Some(idv) => {
                    &&& final(self).handle.actions@.len() == old(self).handle.actions@.len() + 3
                    &&& final(self).handle.actions@.subrange(
                        0,
                        old(self).handle.actions@.len() as int,
                    ) == old(self).handle.actions@
                    &&& (final(self).handle.actions@[old(self).handle.actions@.len() as int]
                        matches HostAction::StartWorker { video_id } && video_id@ == idv)
                    &&& final(self).handle.actions@[old(self).handle.actions@.len() as int + 1] == (
                    HostAction::ObserveTimePos { reply: REPL_PROP_TIME })
                    &&& final(self).handle.actions@[old(self).handle.actions@.len() as int + 2] == (
                    HostAction::ObserveMute { reply: REPL_PROP_MUTE })
                },
                None => final(self).handle.actions@ == old(self).handle.actions@,
            },
    {
        match get_youtube_id(path) {
            Some(id) => {
                self.handle.start_worker(id);
                self.handle.observe_time_pos(REPL_PROP_TIME);
                self.handle.observe_mute(REPL_PROP_MUTE);
                proof {
                    assert(self.handle.actions@.subrange(
                        0,
                        old(self).handle.actions@.len() as int,
                    ) =~= old(self).handle.actions@);
                }
            },
            None => {},
        }
    }

    /// Jump-to-highlight request: when a highlight is known, seek to it and
    /// announce the jump; a no-op otherwise.
    pub fn poi_requested(&mut self, store: &SortedSegments)
        ensures
            final(self).same_env(*old(self)),
            final(self).same_state(*old(self)),
            final(self).appended(*old(self), poi_actions(*store)),
            old(self).wf() ==> final(self).wf(),
    {
        match store.get_video_poi() {
            Some(time_pos) => {
                self.handle.set_time_pos(time_pos);
                self.handle.show_poi_notice(time_pos);
                proof {
                    assert(self.handle.actions@ =~= old(self).handle.actions@ + poi_actions(
                        *store,
                    ));
                }
            },
            None => {
                proof {
                    assert(self.handle.actions@ =~= old(self).handle.actions@ + poi_actions(
                        *store,
                    ));
                }
            },
        }
    }

    /// The fetch finished: when the whole video is categorized, announce
    /// that it cannot be segmented further.
    pub fn segments_fetched(&mut self, store: &SortedSegments)
        ensures
            final(self).same_env(*old(self)),
            final(self).same_state(*old(self)),
            final(self).appended(*old(self), category_actions(*store)),
            old(self).wf() ==> final(self).wf(),
    {
        match store.get_video_category() {
            Some(category) => {
                self.handle.show_category_notice(category);
                proof {
                    assert(self.handle.actions@ =~= old(self).handle.actions@ + category_actions(
                        *store,
                    ));
                }
            },
            None => {
                proof {
                    assert(self.handle.actions@ =~= old(self).handle.actions@ + category_actions(
                        *store,
                    ));
                }
            },
        }
    }

    /// A script message from the host: a jump-to-highlight key binding or
    /// the segments-fetched announcement; anything else is ignored.
    pub fn client_message(&mut self, args: &Vec<String>, store: &SortedSegments)
        ensures
            final(self).same_env(*old(self)),
            final(self).same_state(*old(self)),
            final(self).appended(*old(self), message_actions(args@, *store)),
            old(self).wf() ==> final(self).wf(),
    {
        if args.len() >= 3 && args[0].eq(&"key-binding".to_owned()) && args[1].eq(
            &"poi".to_owned(),
        ) && args[2].eq(&"u-".to_owned()) {
            self.poi_requested(store);
        } else if args.len() == 1 && args[0].eq(&"segments-fetched".to_owned()) {
            self.segments_fetched(store);
        } else {
            proof {
                assert(self.handle.actions@ =~= old(self).handle.actions@
                    + Seq::<HostAction>::empty());
            }
        }
    }

    /// The video ended: stop the worker, drop the property subscriptions,
    /// and reset the mute tracking so the next video starts clean.
    pub fn end_file(&mut self)
        ensures
            final(self).same_env(*old(self)),
            final(self).mute_segment == reset_transition(
                old(self).mute_segment,
                old(self).mute_sponsorblock,
            ).0,
            final(self).mute_sponsorblock == reset_transition(
                old(self).mute_segment,
                old(self).mute_sponsorblock,
            ).1,
            final(self).appended(
                *old(self),
                seq![
                    HostAction::StopWorker,
                    HostAction::UnobserveProperty { reply: REPL_PROP_TIME },
                    HostAction::UnobserveProperty { reply: REPL_PROP_MUTE },
                ] + reset_transition(old(self).mute_segment, old(self).mute_sponsorblock).2,
            ),
            old(self).wf() ==> final(self).wf(),
    {
        self.handle.stop_worker();
        self.handle.unobserve_property(REPL_PROP_TIME);
        self.handle.unobserve_property(REPL_PROP_MUTE);
        self.reset();
        proof {
            let acts = seq![
                HostAction::StopWorker,
                HostAction::UnobserveProperty { reply: REPL_PROP_TIME },
                HostAction::UnobserveProperty { reply: REPL_PROP_MUTE },
            ] + reset_transition(old(self).mute_segment, old(self).mute_sponsorblock).2;
            assert(self.handle.actions@ =~= old(self).handle.actions@ + acts);
        }
    }
}

/// Full decision for one host notification: which handler runs and what it
/// does.  `pre`/`post` are the controller before and after, `cont` is false
/// exactly on shutdown.
pub open spec fn step_ok(
    pre: Client,
    reply: u64,
    event: Event,
    path: Seq<char>,
    host_mute: bool,
    store: SortedSegments,
    post: Client,
    cont: bool,
) -> bool {
    &&& post.same_env(pre)
    &&& (pre.wf() ==> post.wf())
    &&& cont == !(event matches Event::Shutdown)
    &&& match event {
        Event::StartFile(_) => {
            &&& post.same_state(pre)
            &&& match youtube_id_of(path) {
                Some(idv) => {
                    &&& post.handle.actions@.len() == pre.handle.actions@.len() + 3
                    &&& post.handle.actions@.subrange(0, pre.handle.actions@.len() as int)
                        == pre.handle.actions@
                    &&& (post.handle.actions@[pre.handle.actions@.len() as int]
                        matches HostAction::StartWorker { video_id } && video_id@ == idv)
                    &&& post.handle.actions@[pre.handle.actions@.len() as int + 1] == (
                    HostAction::ObserveTimePos { reply: REPL_PROP_TIME })
                    &&& post.handle.actions@[pre.handle.actions@.len() as int + 2] == (
                    HostAction::ObserveMute { reply: REPL_PROP_MUTE })
                },
                None => post.handle.actions@ == pre.handle.actions@,
            }
        },
        Event::PropertyChange(prop) => {
            if reply == REPL_PROP_TIME {
                let t = match prop.data {
                    Some(PropertyData::TimePos(t)) => Some(t),
                    _ => None::<u64>,
                };
                match t {
                    None => post.same_state(pre) && post.appended(pre, Seq::empty()),
                    Some(t) => {
                        &&& post.mute_segment == time_change_transition(
                            pre.mute_segment,
                            pre.mute_sponsorblock,
                            store,
                            t,
                            host_mute,
                        ).0
                        &&& post.mute_sponsorblock == time_change_transition(
                            pre.mute_segment,
                            pre.mute_sponsorblock,
                            store,
                            t,
                            host_mute,
                        ).1
                        &&& post.appended(
                            pre,
                            time_change_transition(
                                pre.mute_segment,
                                pre.mute_sponsorblock,
                                store,
                                t,
                                host_mute,
                            ).2,
                        )
                    },
                }
            } else if reply == REPL_PROP_MUTE {
                let v = match prop.data {
                    Some(PropertyData::Flag(b)) => Some(b),
                    _ => None::<bool>,
                };
                &&& post.mute_segment == pre.mute_segment
                &&& post.mute_sponsorblock == mute_change_owned(pre.mute_sponsorblock, v)
                &&& post.appended(pre, Seq::empty())
            } else {
                post.same_state(pre) && post.appended(pre, Seq::empty())
            }
        },
        Event::ClientMessage(args) => {
            &&& post.same_state(pre)
            &&& post.appended(pre, message_actions(args@, store))
        },
        Event::EndFile => {
            &&& post.mute_segment == reset_transition(
                pre.mute_segment,
                pre.mute_sponsorblock,
            ).0
            &&& post.mute_sponsorblock == reset_transition(
                pre.mute_segment,
                pre.mute_sponsorblock,
            ).1
            &&& post.appended(
                pre,
                seq![
                    HostAction::StopWorker,
                    HostAction::UnobserveProperty { reply: REPL_PROP_TIME },
                    HostAction::UnobserveProperty { reply: REPL_PROP_MUTE },
                ] + reset_transition(pre.mute_segment, pre.mute_sponsorblock).2,
            )
        },
        _ => post.same_state(pre) && post.appended(pre, Seq::empty()),
    }
}

impl Client {
    /// Dispatch one host notification, exactly as the event loop does:
    /// handle it, record the decisions, and report whether the loop should
    /// continue.  `path` is the host's current playback path and
    /// `host_mute` its current mute flag, both sampled by the embedder;
    /// `store` is the current worker's store snapshot.
    pub fn exec_step(
        &mut self,
        reply: u64,
        event: &Event,
        path: &str,
        host_mute: bool,
        store: &SortedSegments,
    ) -> (cont: bool)
        ensures
            step_ok(*old(self), reply, *event, path@, host_mute, *store, *final(self), cont),
    {
        match event {
            Event::Shutdown => {
                proof {
                    assert(self.handle.actions@ =~= old(self).handle.actions@
                        + Seq::<HostAction>::empty());
                }
                false
            },
            Event::StartFile(_) => {
                self.start_file(path);
                true
            },
            Event::PropertyChange(prop) => {
                if reply == REPL_PROP_TIME {
                    self.time_change(prop.time_pos(), host_mute, store);
                } else if reply == REPL_PROP_MUTE {
                    self.mute_change(prop.flag());
                } else {
                    proof {
                        assert(self.handle.actions@ =~= old(self).handle.actions@
                            + Seq::<HostAction>::empty());
                    }
                }
                true
            },
            Event::ClientMessage(args) => {
                self.client_message(args, store);
                true
            },
            Event::EndFile => {
                self.end_file();
                true
            },
            _ => {
                proof {
                    assert(self.handle.actions@ =~= old(self).handle.actions@
                        + Seq::<HostAction>::empty());
                }
                true
            },
        }
    }
}

/// A host action that mutates playback state: a seek or a mute write.
/// Subscriptions, worker control and on-screen text are not mutations.
pub open spec fn is_mutation(a: HostAction) -> bool {
    a matches HostAction::SetTimePos { .. } || a matches HostAction::SetMute { .. }
}

/// How many playback-state mutations a recorded action sequence holds.
pub open spec fn count_mutations(acts: Seq<HostAction>) -> nat
    decreases acts.len(),
{
    if acts.len() == 0 {
        0
    } else {
        count_mutations(acts.drop_last()) + if is_mutation(acts.last()) {
            1nat
        } else {
            0nat
        }
    }
}

proof fn lemma_count_mutations_zero(acts: Seq<HostAction>)
    requires
        forall|i: int| 0 <= i < acts.len() ==> !is_mutation(#[trigger] acts[i]),
    ensures
        count_mutations(acts) == 0,
    decreases acts.len(),
{
    if acts.len() > 0 {
        lemma_count_mutations_zero(acts.drop_last());
    }
}

proof fn lemma_count_mutations_at_most_one(acts: Seq<HostAction>)
    requires
        forall|i: int, j: int|
            0 <= i < acts.len() && 0 <= j < acts.len() && is_mutation(acts[i]) && is_mutation(
                acts[j],
            ) ==> i == j,
    ensures
        count_mutations(acts) <= 1,
    decreases acts.len(),
{
    if acts.len() > 0 {
        let p = acts.drop_last();
        if is_mutation(acts.last()) {
            assert forall|i: int| 0 <= i < p.len() implies !is_mutation(#[trigger] p[i]) by {
                assert(p[i] == acts[i]);
                assert(is_mutation(acts[acts.len() - 1]));
            }
            lemma_count_mutations_zero(p);
        } else {
            lemma_count_mutations_at_most_one(p);
        }
    }
}

/// Any one position tick mutates the host at most once: a seek, or one
/// mute write, never both and never more.
pub proof fn lemma_mutations_time_change(
    ms: Option<Segment>,
    owned: bool,
    store: SortedSegments,
    t: u64,
    host_mute: bool,
)
    ensures
        count_mutations(time_change_transition(ms, owned, store, t, host_mute).2) <= 1,
{
    let acts = time_change_transition(ms, owned, store, t, host_mute).2;
    lemma_count_mutations_at_most_one(acts);
}

/// At most one host mutation per notification: whatever the event and the
/// state, one dispatched step records at most one seek or mute write.
pub proof fn lemma_one_mutation_per_step(
    pre: Client,
    reply: u64,
    event: Event,
    path: Seq<char>,
    host_mute: bool,
    store: SortedSegments,
    post: Client,
    cont: bool,
)
    requires
        step_ok(pre, reply, event, path, host_mute, store, post, cont),
    ensures
        count_mutations(post.handle.actions@.skip(pre.handle.actions@.len() as int)) <= 1,
{
    let n = pre.handle.actions@.len() as int;
    let suffix = post.handle.actions@.skip(n);
    match event {
        Event::StartFile(_) => {
            match youtube_id_of(path) {
                Some(_) => {
                    assert(suffix.len() == 3);
                    assert forall|i: int| 0 <= i < suffix.len() implies !is_mutation(
                        #[trigger] suffix[i],
                    ) by {
                        assert(suffix[i] == post.handle.actions@[n + i]);
                    }
                    lemma_count_mutations_zero(suffix);
                },
                None => {
                    assert(suffix =~= Seq::<HostAction>::empty());
                },
            }
        },
        Event::PropertyChange(prop) => {
            if reply == REPL_PROP_TIME {
                match prop.data {
                    Some(PropertyData::TimePos(t)) => {
                        let acts = time_change_transition(
                            pre.mute_segment,
                            pre.mute_sponsorblock,
                            store,
                            t,
                            host_mute,
                        ).2;
                        assert(suffix =~= acts);
                        lemma_mutations_time_change(
                            pre.mute_segment,
                            pre.mute_sponsorblock,
                            store,
                            t,
                            host_mute,
                        );
                    },
                    _ => {
                        assert(suffix =~= Seq::<HostAction>::empty());
                    },
                }
            } else {
                assert(suffix =~= Seq::<HostAction>::empty());
            }
        },
        Event::ClientMessage(args) => {
            let acts = message_actions(args@, store);
            assert(suffix =~= acts);
            lemma_count_mutations_at_most_one(acts);
        },
        Event::EndFile => {
            let acts = seq![
                HostAction::StopWorker,
                HostAction::UnobserveProperty { reply: REPL_PROP_TIME },
                HostAction::UnobserveProperty { reply: REPL_PROP_MUTE },
            ] + reset_transition(pre.mute_segment, pre.mute_sponsorblock).2;
            assert(suffix =~= acts);
            lemma_count_mutations_at_most_one(acts);
        },
        _ => {
            assert(suffix =~= Seq::<HostAction>::empty());
        },
    }
}

/// Mute arbitration, entering: on entry into a new mute segment the plugin
/// mutes and takes ownership whenever it already owned the mute or the host
/// was unmuted.
pub proof fn lemma_arbitration_plugin_mutes(
    ms: Option<Segment>,
    owned: bool,
    s: Segment,
    host_mute: bool,
)
    requires
        !tracks(ms, s),
        owned || !host_mute,
    ensures
        mute_transition(ms, owned, s, host_mute).0 == Some(s),
        mute_transition(ms, owned, s, host_mute).1 == true,
        mute_transition(ms, owned, s, host_mute).2 == seq![
            HostAction::SetMute { value: true },
            HostAction::ShowMuteNotice { segment: s },
        ],
{
}

/// Mute arbitration, user precedence: entering a new mute segment while the
/// host is muted by someone else takes no host action and claims no
/// ownership; the segment is still tracked so the check is not repeated.
pub proof fn lemma_arbitration_user_precedence(
    ms: Option<Segment>,
    owned: bool,
    s: Segment,
    host_mute: bool,
)
    requires
        !tracks(ms, s),
        !owned,
        host_mute,
    ensures
        mute_transition(ms, owned, s, host_mute).0 == Some(s),
        mute_transition(ms, owned, s, host_mute).1 == false,
        mute_transition(ms, owned, s, host_mute).2 == Seq::<HostAction>::empty(),
{
}

/// Mute arbitration, no retrigger: while the tracked segment is the same
/// record, a tick inside it changes nothing and issues nothing, whatever
/// the host's mute flag or the ownership read.  Only a segment change (or
/// an exit) re-evaluates.
pub proof fn lemma_arbitration_no_retrigger(
    ms: Option<Segment>,
    owned: bool,
    s: Segment,
    host_mute: bool,
)
    requires
        tracks(ms, s),
    ensures
        mute_transition(ms, owned, s, host_mute).0 == ms,
        mute_transition(ms, owned, s, host_mute).1 == owned,
        mute_transition(ms, owned, s, host_mute).2 == Seq::<HostAction>::empty(),
{
}

/// Mute arbitration, external unmute: when the user (or any other agent)
/// unmutes, the plugin's ownership clears; any other external change leaves
/// the flag as it was.
pub proof fn lemma_arbitration_external_unmute(owned: bool, value: Option<bool>)
    ensures
        value == Some(false) ==> mute_change_owned(owned, value) == false,
        value != Some(false) ==> mute_change_owned(owned, value) == owned,
{
}

/// Mute arbitration, exiting: leaving the tracked segment clears the
/// tracking and the ownership; the host is unmuted exactly when the plugin
/// owned the mute, and left untouched when the user did.
pub proof fn lemma_arbitration_exit(ms: Option<Segment>, owned: bool)
    requires
        ms is Some,
    ensures
        reset_transition(ms, owned).0 is None,
        reset_transition(ms, owned).1 == false,
        owned ==> reset_transition(ms, owned).2 == seq![HostAction::SetMute { value: false }],
        !owned ==> reset_transition(ms, owned).2 == Seq::<HostAction>::empty(),
{
}

/// Skip priority: when a skip segment contains the position, the tick seeks
/// to that segment's end and the mute decision is not consulted at all.
pub proof fn lemma_skip_priority(
    ms: Option<Segment>,
    owned: bool,
    store: SortedSegments,
    t: u64,
    host_mute: bool,
)
    requires
        store.skip_segment_at(t) is Some,
    ensures
        time_change_transition(ms, owned, store, t, host_mute).0 == ms,
        time_change_transition(ms, owned, store, t, host_mute).1 == owned,
        time_change_transition(ms, owned, store, t, host_mute).2 == skip_actions(
            store.skip_segment_at(t).unwrap(),
        ),
{
}

} // verus!
