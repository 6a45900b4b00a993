//! The swear jar: who is tracked, with which patterns, how often they swore,
//! and the points of the daily reward.

use std::collections::HashMap;
use vstd::prelude::*;

use crate::clock::{current_time_nanos, is_clock_reading, may_redeem, redeem_allowed};
use crate::pattern::{
    anchored, count_matches, lemma_match_count_bound, match_count, regex_accepts, sources,
    SwearPattern,
};
use crate::saved::{parse_saved_counters, parsed_counters, SavedCountersError};
use crate::text::{lowercased, to_lowercase};

verus! {

broadcast use vstd::std_specs::hash::group_hash_axioms;

/// The points that one daily reward grants.
pub const DAILY_POINTS: u32 = 100;

#[verifier::ext_equal]
/// The jar as mathematics: the default patterns, each tracked user's
/// patterns (by source text), the swear counters, the points and the
/// instant of each user's last redemption.
pub struct JarView {
    pub defaults: Seq<Seq<char>>,
    pub lists: Map<u64, Seq<Seq<char>>>,
    pub counters: Map<u64, u32>,
    pub points: Map<u64, u32>,
    pub redeemed: Map<u64, i128>,
}

/// What `create_swear_jar` did.
#[derive(Debug, Clone, Copy, PartialEq, Eq, Structural)]
pub enum CreateOutcome {
    /// The user is now tracked, with the default patterns and a zero count.
    Created,
    /// The user was tracked already; nothing changed.
    AlreadyTracked,
}

/// What adding a pattern did.
#[derive(Debug, Clone, Copy, PartialEq, Eq, Structural)]
pub enum AddOutcome {
    /// The pattern was appended to the user's list.
    Added,
    /// The regex crate refused the pattern; nothing changed.
    Rejected,
    /// The user is not tracked; nothing changed.
    NotTracked,
}

/// What `quit_swear_jar` did.
#[derive(Debug, Clone, Copy, PartialEq, Eq, Structural)]
pub enum QuitOutcome {
    /// The user was not tracked; nothing changed.
    NotTracked,
    /// The user's patterns and counter were removed; the counter stood at `count`.
    Deleted { count: u32 },
    /// The user's patterns were removed; there was no counter.
    DeletedUncounted,
}

/// What `public_shame` reports of a user.
#[derive(Debug, Clone, Copy, PartialEq, Eq, Structural)]
pub enum ShameOutcome {
    /// The user is not tracked.
    NotTracked,
    /// The user is tracked and has no counter, or a zero one.
    NotSworn,
    /// The user is tracked and swore `count` times (never zero).
    Sworn { count: u32 },
}

/// What `gamble` decides.
#[derive(Debug, Clone, Copy, PartialEq, Eq, Structural)]
pub enum GambleOutcome {
    /// The user holds at least the points asked for.
    Accepted,
    /// The user holds fewer points than asked for.
    TooFewPoints { requested: u32, available: u32 },
    /// The user holds no points at all.
    NoPoints,
}

/// What the daily reward did.
#[derive(Debug, Clone, Copy, PartialEq, Eq, Structural)]
pub enum RewardOutcome {
    /// The reward was granted; `total` is the points total reported.
    Granted { total: u32 },
    /// The user redeemed too recently.
    AlreadyRedeemed,
}

/// What a message did to its author's counter.
#[derive(Debug, Clone, Copy, PartialEq, Eq, Structural)]
pub struct MessageTally {
    /// How many of the author's patterns matched the message.
    pub matches: u64,
    /// The author's counter after the message, if the author has one.
    pub total: Option<u32>,
}

impl JarView {
    /// What every state of the jar keeps: every tracked user has a counter,
    /// and the users with points are exactly those with a redemption time.
    pub open spec fn inv(self) -> bool {
        &&& forall|u: u64| #[trigger] self.lists.contains_key(u) ==> self.counters.contains_key(u)
        &&& forall|u: u64| #[trigger] self.points.contains_key(u) <==> self.redeemed.contains_key(u)
    }

    /// Starts tracking `user` with the default patterns and a zero counter,
    /// unless the user is tracked already.
    pub open spec fn create(self, user: u64) -> (JarView, CreateOutcome) {
        if self.lists.contains_key(user) {
            (self, CreateOutcome::AlreadyTracked)
        } else {
            (
                JarView {
                    lists: self.lists.insert(user, self.defaults),
                    counters: self.counters.insert(user, 0),
                    ..self
                },
                CreateOutcome::Created,
            )
        }
    }

    /// Appends the pattern `source` to a tracked user's list, if the regex
    /// crate accepts it.
    pub open spec fn add_pattern(self, user: u64, source: Seq<char>) -> (JarView, AddOutcome) {
        if !self.lists.contains_key(user) {
            (self, AddOutcome::NotTracked)
        } else if !regex_accepts(source) {
            (self, AddOutcome::Rejected)
        } else {
            (
                JarView { lists: self.lists.insert(user, self.lists[user].push(source)), ..self },
                AddOutcome::Added,
            )
        }
    }

    /// Stops tracking `user`: drops the patterns and the counter.
    pub open spec fn quit(self, user: u64) -> (JarView, QuitOutcome) {
        if !self.lists.contains_key(user) {
            (self, QuitOutcome::NotTracked)
        } else if self.counters.contains_key(user) {
            (
                JarView {
                    lists: self.lists.remove(user),
                    counters: self.counters.remove(user),
                    ..self
                },
                QuitOutcome::Deleted { count: self.counters[user] },
            )
        } else {
            (JarView { lists: self.lists.remove(user), ..self }, QuitOutcome::DeletedUncounted)
        }
    }

    /// What is reported of `user`'s swearing.
    pub open spec fn shame(self, user: u64) -> ShameOutcome {
        if !self.lists.contains_key(user) {
            ShameOutcome::NotTracked
        } else if self.counters.contains_key(user) && self.counters[user] != 0 {
            ShameOutcome::Sworn { count: self.counters[user] }
        } else {
            ShameOutcome::NotSworn
        }
    }

    /// Whether `user` may gamble `requested` points.
    pub open spec fn gamble(self, user: u64, requested: u32) -> GambleOutcome {
        if !self.points.contains_key(user) {
            GambleOutcome::NoPoints
        } else if requested <= self.points[user] {
            GambleOutcome::Accepted
        } else {
            GambleOutcome::TooFewPoints { requested, available: self.points[user] }
        }
    }

    /// Whether a redemption by `user` at `now` is granted.
    pub open spec fn grants(self, user: u64, now: i128) -> bool {
        !self.redeemed.contains_key(user) || may_redeem(self.redeemed[user], now)
    }

    /// Granting a reward to `user` at `now` keeps the points within `u32`.
    pub open spec fn reward_fits(self, user: u64, now: i128) -> bool {
        self.points.contains_key(user) && self.grants(user, now) ==> self.points[user]
            + DAILY_POINTS <= u32::MAX
    }

    /// The daily reward asked for by `user` at instant `now`. A granted
    /// redemption records `now` and adds `DAILY_POINTS` to the user's points
    /// (a user without points starts from zero); a refused one changes
    /// nothing.
    pub open spec fn reward(self, user: u64, now: i128) -> (JarView, RewardOutcome) {
        if !self.grants(user, now) {
            (self, RewardOutcome::AlreadyRedeemed)
        } else {
            let total: u32 = if self.points.contains_key(user) {
                (self.points[user] + DAILY_POINTS) as u32
            } else {
                DAILY_POINTS
            };
            (
                JarView {
                    redeemed: self.redeemed.insert(user, now),
                    points: self.points.insert(user, total),
                    ..self
                },
                RewardOutcome::Granted { total },
            )
        }
    }

    /// How many of the author's patterns match the lowercased message.
    pub open spec fn message_matches(self, author: u64, content: Seq<char>) -> nat {
        if self.lists.contains_key(author) {
            match_count(self.lists[author], lowercased(content))
        } else {
            0
        }
    }

    /// Adding `n` to the author's counter stays within `u32`.
    pub open spec fn tally_fits(self, author: u64, n: nat) -> bool {
        !self.counters.contains_key(author) || self.counters[author] + n <= u32::MAX
    }

    /// Adds `n` to the author's counter, if the author has one.
    pub open spec fn tally(self, author: u64, n: nat) -> JarView {
        if self.counters.contains_key(author) {
            JarView {
                counters: self.counters.insert(author, (self.counters[author] + n) as u32),
                ..self
            }
        } else {
            self
        }
    }
}

/// The state of the bot: the default patterns, the users' patterns and
/// counters, their points and their last redemption instants.
pub struct SwearJar {
    default_list: Vec<SwearPattern>,
    swear_lists: HashMap<u64, Vec<SwearPattern>>,
    swear_counters: HashMap<u64, u32>,
    user_points: HashMap<u64, u32>,
    user_redeem_time: HashMap<u64, i128>,
}

/// The source texts of each user's patterns.
pub open spec fn list_view(m: Map<u64, Vec<SwearPattern>>) -> Map<u64, Seq<Seq<char>>> {
    m.map_values(|v: Vec<SwearPattern>| sources(v@))
}

impl View for SwearJar {
    type V = JarView;

    closed spec fn view(&self) -> JarView {
        JarView {
            defaults: sources(self.default_list@),
            lists: list_view(self.swear_lists@),
            counters: self.swear_counters@,
            points: self.user_points@,
            redeemed: self.user_redeem_time@,
        }
    }
}

proof fn lemma_list_view_insert(m: Map<u64, Vec<SwearPattern>>, k: u64, v: Vec<SwearPattern>)
    ensures
        list_view(m.insert(k, v)) == list_view(m).insert(k, sources(v@)),
{
    assert(list_view(m.insert(k, v)) =~= list_view(m).insert(k, sources(v@)));
}

proof fn lemma_list_view_has(m: Map<u64, Vec<SwearPattern>>, k: u64)
    ensures
        list_view(m).contains_key(k) <==> m.contains_key(k),
        m.contains_key(k) ==> list_view(m)[k] == sources(m[k]@),
{
}

proof fn lemma_list_view_remove(m: Map<u64, Vec<SwearPattern>>, k: u64)
    ensures
        list_view(m.remove(k)) == list_view(m).remove(k),
{
    assert(list_view(m.remove(k)) =~= list_view(m).remove(k));
}

/// Copies a list of patterns.
fn copy_list(v: &Vec<SwearPattern>) -> (r: Vec<SwearPattern>)
    ensures
        sources(r@) == sources(v@),
{
    let mut out: Vec<SwearPattern> = Vec::new();
    let mut i: usize = 0;
    while i < v.len()
        invariant
            i <= v@.len(),
            out@.len() == i,
            forall|j: int| 0 <= j < i ==> #[trigger] out@[j]@ == v@[j]@,
        decreases v@.len() - i,
    {
        out.push(v[i].duplicate());
        i = i + 1;
    }
    assert(sources(out@) =~= sources(v@));
    out
}

impl SwearJar {
    /// The jar's invariant holds.
    pub open spec fn wf(&self) -> bool {
        self@.inv()
    }

    /// A jar with the given default patterns and saved counters; nobody is
    /// tracked and nobody holds points.
    pub fn new(default_list: Vec<SwearPattern>, saved_counters: HashMap<u64, u32>) -> (j: SwearJar)
        ensures
            j.wf(),
            j@ == (JarView {
                defaults: sources(default_list@),
                lists: Map::empty(),
                counters: saved_counters@,
                points: Map::empty(),
                redeemed: Map::empty(),
            }),
    {
        let j = SwearJar {
            default_list,
            swear_lists: HashMap::new(),
            swear_counters: saved_counters,
            user_points: HashMap::new(),
            user_redeem_time: HashMap::new(),
        };
        assert(list_view(j.swear_lists@) =~= Map::empty());
        j
    }

    /// A jar whose counters come from saved text (`None`: nothing saved, so
    /// no counters); fails when the saved text cannot be read.
    pub fn from_saved(default_list: Vec<SwearPattern>, saved: Option<&str>) -> (r: Result<
        SwearJar,
        SavedCountersError,
    >)
        ensures
            r is Ok <==> (saved matches Some(t) ==> parsed_counters(t@) is Some),
            r matches Ok(j) ==> {
                &&& j.wf()
                &&& j@ == (JarView {
                    defaults: sources(default_list@),
                    lists: Map::empty(),
                    counters: match saved {
                        Some(t) => parsed_counters(t@)->0,
                        None => Map::empty(),
                    },
                    points: Map::empty(),
                    redeemed: Map::empty(),
                })
            },
    {
        let counters = match saved {
            Some(text) => match parse_saved_counters(text) {
                Ok(m) => m,
                Err(e) => {
                    return Err(e);
                },
            },
            None => HashMap::new(),
        };
        Ok(SwearJar::new(default_list, counters))
    }

    /// Starts tracking `user` with a copy of the default patterns and a zero
    /// counter; a tracked user is left as is.
    pub fn create_swear_jar(&mut self, user: u64) -> (r: CreateOutcome)
        requires
            old(self).wf(),
        ensures
            final(self).wf(),
            (final(self)@, r) == old(self)@.create(user),
            old(self)@.lists.contains_key(user) ==> final(self)@ == old(self)@ && r
                == CreateOutcome::AlreadyTracked,
            !old(self)@.lists.contains_key(user) ==> r == CreateOutcome::Created
                && final(self)@.lists[user] == old(self)@.defaults
                && final(self)@.counters[user] == 0,
    {
        proof {
            lemma_list_view_has(self.swear_lists@, user);
        }
        if self.swear_lists.contains_key(&user) {
            return CreateOutcome::AlreadyTracked;
        }
        let ghost s0 = self@;
        let list = copy_list(&self.default_list);
        proof {
            lemma_list_view_insert(self.swear_lists@, user, list);
        }
        self.swear_lists.insert(user, list);
        self.swear_counters.insert(user, 0);
        assert(self@ =~= s0.create(user).0);
        CreateOutcome::Created
    }

    /// Appends `p` to the list of a tracked user.
    fn push_pattern(&mut self, user: u64, p: SwearPattern)
        requires
            old(self)@.lists.contains_key(user),
        ensures
            final(self)@ == (JarView {
                lists: old(self)@.lists.insert(user, old(self)@.lists[user].push(p@)),
                ..old(self)@
            }),
    {
        let ghost m0 = self.swear_lists@;
        let mut list = match self.swear_lists.remove(&user) {
            Some(l) => l,
            None => Vec::new(),
        };
        proof {
            assert(sources(list@) == list_view(m0)[user]);
        }
        list.push(p);
        assert(sources(list@) =~= list_view(m0)[user].push(p@));
        proof {
            lemma_list_view_insert(m0.remove(user), user, list);
            assert(m0.remove(user).insert(user, list) =~= m0.insert(user, list));
            lemma_list_view_insert(m0, user, list);
        }
        self.swear_lists.insert(user, list);
    }

    /// Adds the regular expression `swear` to a tracked user's patterns, if
    /// it is a valid regex.
    pub fn add_swear_regex(&mut self, user: u64, swear: &str) -> (r: AddOutcome)
        requires
            old(self).wf(),
        ensures
            final(self).wf(),
            (final(self)@, r) == old(self)@.add_pattern(user, swear@),
    {
        if !self.swear_lists.contains_key(&user) {
            return AddOutcome::NotTracked;
        }
        match SwearPattern::new(swear.to_owned()) {
            Ok(p) => {
                self.push_pattern(user, p);
                AddOutcome::Added
            },
            Err(_) => AddOutcome::Rejected,
        }
    }

    /// Adds the literal word `swear` (trimmed, anchored at both ends) to a
    /// tracked user's patterns, if it makes a valid regex.
    pub fn add_swear_string(&mut self, user: u64, swear: &str) -> (r: AddOutcome)
        requires
            old(self).wf(),
        ensures
            final(self).wf(),
            (final(self)@, r) == old(self)@.add_pattern(user, anchored(swear@)),
    {
        if !self.swear_lists.contains_key(&user) {
            return AddOutcome::NotTracked;
        }
        match SwearPattern::anchored_word(swear) {
            Ok(p) => {
                self.push_pattern(user, p);
                AddOutcome::Added
            },
            Err(_) => AddOutcome::Rejected,
        }
    }

    /// Stops tracking `user`, dropping the patterns and the counter.
    pub fn quit_swear_jar(&mut self, user: u64) -> (r: QuitOutcome)
        requires
            old(self).wf(),
        ensures
            final(self).wf(),
            (final(self)@, r) == old(self)@.quit(user),
    {
        proof {
            lemma_list_view_has(self.swear_lists@, user);
        }
        if !self.swear_lists.contains_key(&user) {
            return QuitOutcome::NotTracked;
        }
        proof {
            lemma_list_view_remove(self.swear_lists@, user);
        }
        let ghost s0 = self@;
        self.swear_lists.remove(&user);
        assert(self@.lists == s0.lists.remove(user));
        let removed = self.swear_counters.remove(&user);
        let r = match removed {
            Some(c) => QuitOutcome::Deleted { count: c },
            None => QuitOutcome::DeletedUncounted,
        };
        assert(self@ =~= s0.quit(user).0);
        r
    }

    /// Reports how often `user` swore.
    pub fn public_shame(&self, user: u64) -> (r: ShameOutcome)
        requires
            self.wf(),
        ensures
            r == self@.shame(user),
            !self@.lists.contains_key(user) <==> r == ShameOutcome::NotTracked,
            self@.lists.contains_key(user) && self@.counters[user] != 0 ==> r
                == (ShameOutcome::Sworn { count: self@.counters[user] }),
            self@.lists.contains_key(user) && self@.counters[user] == 0 ==> r
                == ShameOutcome::NotSworn,
    {
        proof {
            assert(self.swear_lists@.contains_key(user) <==> self@.lists.contains_key(user));
        }
        if !self.swear_lists.contains_key(&user) {
            return ShameOutcome::NotTracked;
        }
        match self.swear_counters.get(&user) {
            Some(c) => {
                if *c == 0 {
                    ShameOutcome::NotSworn
                } else {
                    ShameOutcome::Sworn { count: *c }
                }
            },
            None => ShameOutcome::NotSworn,
        }
    }

    /// Decides whether `user` may gamble `points` points.
    pub fn gamble(&self, user: u64, points: u32) -> (r: GambleOutcome)
        requires
            self.wf(),
        ensures
            r == self@.gamble(user, points),
    {
        match self.user_points.get(&user) {
            Some(p) => {
                let available = *p;
                if points <= available {
                    GambleOutcome::Accepted
                } else {
                    GambleOutcome::TooFewPoints { requested: points, available }
                }
            },
            None => GambleOutcome::NoPoints,
        }
    }

    /// The daily reward asked for by `user` at the instant `now` (UTC
    /// nanoseconds since the Unix epoch).
    pub fn daily_reward_at(&mut self, user: u64, now: i128) -> (r: RewardOutcome)
        requires
            old(self).wf(),
            old(self)@.reward_fits(user, now),
        ensures
            final(self).wf(),
            (final(self)@, r) == old(self)@.reward(user, now),
    {
        let ghost s0 = self@;
        let last: Option<i128> = match self.user_redeem_time.get(&user) {
            Some(t) => Some(*t),
            None => None,
        };
        let can_redeem = match last {
            Some(t) => redeem_allowed(t, now),
            None => true,
        };
        assert(can_redeem == s0.grants(user, now));
        if !can_redeem {
            return RewardOutcome::AlreadyRedeemed;
        }
        let total: u32 = match self.user_points.get(&user) {
            Some(p) => *p + DAILY_POINTS,
            None => DAILY_POINTS,
        };
        self.user_redeem_time.insert(user, now);
        self.user_points.insert(user, total);
        assert(self@ =~= s0.reward(user, now).0);
        assert forall|u: u64| #[trigger]
            self@.points.contains_key(u) <==> self@.redeemed.contains_key(u) by {
            assert(s0.points.contains_key(u) <==> s0.redeemed.contains_key(u));
        }
        RewardOutcome::Granted { total }
    }

    /// The daily reward asked for by `user` now: reads the clock, then
    /// decides as `daily_reward_at` does for that instant. Where granting
    /// would take the points past `u32::MAX`, nothing changes and `None`
    /// comes back.
    pub fn daily_reward(&mut self, user: u64) -> (r: Option<RewardOutcome>)
        requires
            old(self).wf(),
        ensures
            final(self).wf(),
            exists|now: i128|
                is_clock_reading(now) && if #[trigger] old(self)@.reward_fits(user, now) {
                    &&& final(self)@ == old(self)@.reward(user, now).0
                    &&& r == Some(old(self)@.reward(user, now).1)
                } else {
                    &&& final(self)@ == old(self)@
                    &&& r is None
                },
    {
        let now = current_time_nanos();
        let fits = match self.user_points.get(&user) {
            Some(p) => {
                if *p <= u32::MAX - DAILY_POINTS {
                    true
                } else {
                    match self.user_redeem_time.get(&user) {
                        Some(t) => !redeem_allowed(*t, now),
                        None => false,
                    }
                }
            },
            None => true,
        };
        if !fits {
            assert(!self@.reward_fits(user, now));
            return None;
        }
        let r = self.daily_reward_at(user, now);
        Some(r)
    }

    /// The swear counters, by user.
    pub fn swear_counters(&self) -> (m: &HashMap<u64, u32>)
        ensures
            m@ == self@.counters,
    {
        &self.swear_counters
    }

    /// Adds `n` to the author's counter, if the author has one, and returns
    /// the counter afterwards.
    pub fn record_swears(&mut self, author: u64, n: u64) -> (total: Option<u32>)
        requires
            old(self).wf(),
            old(self)@.tally_fits(author, n as nat),
        ensures
            final(self).wf(),
            final(self)@ == old(self)@.tally(author, n as nat),
            total == final(self)@.counters.get(author),
            old(self)@.counters.contains_key(author) ==> {
                &&& total == Some((old(self)@.counters[author] + n) as u32)
                &&& final(self)@.counters == old(self)@.counters.insert(
                    author,
                    (old(self)@.counters[author] + n) as u32,
                )
            },
            !old(self)@.counters.contains_key(author) ==> total is None && final(self)@ == old(
                self,
            )@,
    {
        let current: Option<u32> = match self.swear_counters.get(&author) {
            Some(c) => Some(*c),
            None => None,
        };
        match current {
            Some(c) => {
                let t = c + n as u32;
                self.swear_counters.insert(author, t);
                Some(t)
            },
            None => None,
        }
    }

    /// Handles a message from `author`: counts the author's patterns that
    /// match the lowercased message and adds that to the author's counter, if
    /// there is one. Where the sum would not fit in a `u32`, nothing changes
    /// and `None` comes back.
    pub fn handle_message(&mut self, author: u64, content: &str) -> (r: Option<MessageTally>)
        requires
            old(self).wf(),
        ensures
            final(self).wf(),
            ({
                let n = old(self)@.message_matches(author, content@);
                if old(self)@.tally_fits(author, n) {
                    &&& final(self)@ == old(self)@.tally(author, n)
                    &&& r == Some(
                        MessageTally { matches: n as u64, total: final(self)@.counters.get(author) },
                    )
                    &&& old(self)@.counters.contains_key(author) ==> final(self)@.counters[author]
                        == old(self)@.counters[author] + n
                } else {
                    &&& final(self)@ == old(self)@
                    &&& r is None
                }
            }),
    {
        let ghost s0 = self@;
        let lowered = to_lowercase(content);
        let n: u64 = match self.swear_lists.get(&author) {
            Some(list) => {
                proof {
                    lemma_match_count_bound(sources(list@), lowered@);
                }
                count_matches(list, lowered.as_str())
            },
            None => 0,
        };
        assert(n == s0.message_matches(author, content@));
        match self.swear_counters.get(&author) {
            Some(c) => {
                if n > (u32::MAX - *c) as u64 {
                    return None;
                }
            },
            None => {},
        }
        let total = self.record_swears(author, n);
        Some(MessageTally { matches: n, total })
    }
}

} // verus!
