//! Properties of the jar that span several operations.

use vstd::prelude::*;

use crate::clock::{lemma_may_redeem_iff, DAY_NANOS};
use crate::text::{is_white_space, trimmed};
use crate::jar::{
    AddOutcome, CreateOutcome, GambleOutcome, JarView, QuitOutcome, RewardOutcome, ShameOutcome,
    DAILY_POINTS,
};
use crate::pattern::{anchored, escaped, is_regex_meta, match_count, regex_accepts, regex_finds};
use crate::text::lowercased;

verus! {

/// A newly created jar holds the default patterns and reports that its
/// owner has not sworn yet.
pub proof fn law_create_starts_clean(s: JarView, user: u64)
    requires
        !s.lists.contains_key(user),
    ensures
        s.create(user).1 == CreateOutcome::Created,
        s.create(user).0.lists[user] == s.defaults,
        s.create(user).0.counters[user] == 0,
        s.create(user).0.shame(user) == ShameOutcome::NotSworn,
{
}

/// Creating a jar for a tracked user changes nothing.
pub proof fn law_create_is_idempotent(s: JarView, user: u64)
    ensures
        s.create(user).0.create(user) == (s.create(user).0, CreateOutcome::AlreadyTracked),
{
}

/// Quitting right after creating gives back the jar as it was, except that
/// the user's counter is gone, and reports a count of zero.
pub proof fn law_create_then_quit(s: JarView, user: u64)
    requires
        !s.lists.contains_key(user),
    ensures
        s.create(user).0.quit(user) == (
            JarView { counters: s.counters.remove(user), ..s },
            QuitOutcome::Deleted { count: 0 },
        ),
{
    let s1 = s.create(user).0;
    assert(s1.lists.remove(user) =~= s.lists);
    assert(s1.counters.remove(user) =~= s.counters.remove(user));
    assert(s1.quit(user).0 =~= (JarView { counters: s.counters.remove(user), ..s }));
}

/// After quitting, the user is not tracked: shaming reports so, quitting
/// again changes nothing, and patterns can no longer be added.
pub proof fn law_quit_untracks(s: JarView, user: u64, source: Seq<char>)
    ensures
        s.quit(user).0.shame(user) == ShameOutcome::NotTracked,
        s.quit(user).0.quit(user) == (s.quit(user).0, QuitOutcome::NotTracked),
        s.quit(user).0.add_pattern(user, source) == (s.quit(user).0, AddOutcome::NotTracked),
{
}

/// A tracked user always has a counter, so quitting always reports it.
pub proof fn law_quit_reports_counter(s: JarView, user: u64)
    requires
        s.inv(),
        s.lists.contains_key(user),
    ensures
        s.quit(user).1 == (QuitOutcome::Deleted { count: s.counters[user] }),
{
}

/// Every operation keeps the jar's invariant.
pub proof fn law_operations_keep_invariant(
    s: JarView,
    user: u64,
    source: Seq<char>,
    now: i128,
    n: nat,
)
    requires
        s.inv(),
    ensures
        s.create(user).0.inv(),
        s.add_pattern(user, source).0.inv(),
        s.quit(user).0.inv(),
        s.reward(user, now).0.inv(),
        s.tally(user, n).inv(),
{
    let r = s.reward(user, now).0;
    assert forall|u: u64| #[trigger] r.points.contains_key(u) <==> r.redeemed.contains_key(u) by {
        assert(s.points.contains_key(u) <==> s.redeemed.contains_key(u));
    }
}

/// A refused reward changes nothing.
pub proof fn law_refused_reward_changes_nothing(s: JarView, user: u64, now: i128)
    requires
        !s.grants(user, now),
    ensures
        s.reward(user, now) == (s, RewardOutcome::AlreadyRedeemed),
{
}

/// A user who never redeemed is granted the reward at any instant.
pub proof fn law_first_reward_granted(s: JarView, user: u64, now: i128)
    requires
        s.inv(),
        !s.points.contains_key(user),
    ensures
        s.reward(user, now) == (
            JarView {
                redeemed: s.redeemed.insert(user, now),
                points: s.points.insert(user, DAILY_POINTS),
                ..s
            },
            RewardOutcome::Granted { total: DAILY_POINTS },
        ),
{
}

/// Once a reward is granted at `now`, the next one is granted at `later`
/// exactly when at least a day has passed; within the day it is refused.
pub proof fn law_reward_once_a_day(s: JarView, user: u64, now: i128, later: i128)
    requires
        s.grants(user, now),
    ensures
        s.reward(user, now).0.grants(user, later) <==> later - now >= DAY_NANOS,
        later < now + DAY_NANOS ==> s.reward(user, now).0.reward(user, later).1
            == RewardOutcome::AlreadyRedeemed,
{
    lemma_may_redeem_iff(now, later);
}

/// A granted reward adds `DAILY_POINTS` to the user's points (from zero for
/// a new user), stores and reports the sum, and leaves everyone else's
/// points alone.
pub proof fn law_reward_adds_points(s: JarView, user: u64, now: i128, other: u64)
    requires
        s.grants(user, now),
        s.reward_fits(user, now),
        other != user,
    ensures
        ({
            let before: int = if s.points.contains_key(user) {
                s.points[user] as int
            } else {
                0
            };
            let after = s.reward(user, now).0.points;
            &&& after[user] == before + DAILY_POINTS
            &&& s.reward(user, now).1 == (RewardOutcome::Granted { total: after[user] })
            &&& after.contains_key(other) == s.points.contains_key(other)
            &&& after.contains_key(other) ==> after[other] == s.points[other]
        }),
{
}

/// After a granted reward, the user may gamble exactly up to the reported
/// total.
pub proof fn law_gamble_after_reward(s: JarView, user: u64, now: i128, requested: u32)
    requires
        s.grants(user, now),
    ensures
        s.reward(user, now).1 matches RewardOutcome::Granted { total } && (s.reward(
            user,
            now,
        ).0.gamble(user, requested) == GambleOutcome::Accepted <==> requested <= total),
{
}

/// A user without points can never gamble.
pub proof fn law_gamble_needs_points(s: JarView, user: u64, requested: u32)
    requires
        !s.points.contains_key(user),
    ensures
        s.gamble(user, requested) == GambleOutcome::NoPoints,
{
}

/// Messages of a user who is not tracked count nothing and change nothing.
pub proof fn law_untracked_messages_count_nothing(s: JarView, author: u64, content: Seq<char>)
    requires
        !s.lists.contains_key(author),
    ensures
        s.message_matches(author, content) == 0,
        s.tally_fits(author, 0),
        s.tally(author, 0) == s,
{
    if s.counters.contains_key(author) {
        assert(s.counters.insert(author, s.counters[author]) =~= s.counters);
    }
}

/// An added pattern counts in every later message exactly when it matches
/// the lowercased message.
pub proof fn law_added_pattern_counts(s: JarView, user: u64, source: Seq<char>, content: Seq<char>)
    requires
        s.add_pattern(user, source).1 == AddOutcome::Added,
    ensures
        s.add_pattern(user, source).0.message_matches(user, content) == s.message_matches(
            user,
            content,
        ) + if regex_finds(source, lowercased(content)) {
            1nat
        } else {
            0nat
        },
{
    let l = s.lists[user];
    assert(l.push(source).drop_last() =~= l);
}

/// In a newly created jar, a message counts the default patterns that match
/// it, and shaming then reports that count.
pub proof fn law_created_jar_counts_defaults(s: JarView, user: u64, content: Seq<char>)
    requires
        !s.lists.contains_key(user),
        match_count(s.defaults, lowercased(content)) <= u32::MAX,
    ensures
        ({
            let s1 = s.create(user).0;
            let n = s1.message_matches(user, content);
            &&& n == match_count(s.defaults, lowercased(content))
            &&& s1.tally_fits(user, n)
            &&& s1.tally(user, n).counters[user] == n
            &&& s1.tally(user, n).shame(user) == if n == 0 {
                ShameOutcome::NotSworn
            } else {
                ShameOutcome::Sworn { count: n as u32 }
            }
        }),
{
}

/// A literal swear string added to a tracked user's jar counts again every
/// time a message matches its pattern (so it grows the counter by at least
/// one). Whether the regex crate accepts the escaped, anchored pattern and
/// whether it matches the message are its own behaviour, taken here as
/// given.
pub proof fn law_added_string_counts(s: JarView, user: u64, word: Seq<char>, content: Seq<char>)
    requires
        s.inv(),
        s.lists.contains_key(user),
        regex_accepts(anchored(word)),
        regex_finds(anchored(word), lowercased(content)),
        s.add_pattern(user, anchored(word)).0.tally_fits(
            user,
            s.add_pattern(user, anchored(word)).0.message_matches(user, content),
        ),
    ensures
        ({
            let s1 = s.add_pattern(user, anchored(word)).0;
            let n = s1.message_matches(user, content);
            &&& s.add_pattern(user, anchored(word)).1 == AddOutcome::Added
            &&& n == s.message_matches(user, content) + 1
            &&& s1.tally(user, n).counters[user] >= s.counters[user] + 1
        }),
{
    law_added_pattern_counts(s, user, anchored(word), content);
}

/// A message adds its match count to the author's counter, whatever the
/// counter stood at, and changes nothing else; two messages add up.
pub proof fn law_message_adds_its_matches(s: JarView, author: u64, n: nat, m: nat, other: u64)
    requires
        s.counters.contains_key(author),
        s.counters[author] + n + m <= u32::MAX,
        other != author,
    ensures
        s.tally_fits(author, n),
        s.tally(author, n).counters[author] == s.counters[author] + n,
        s.tally(author, n).counters.contains_key(other) == s.counters.contains_key(other),
        s.tally(author, n).counters.contains_key(other) ==> s.tally(author, n).counters[other]
            == s.counters[other],
        s.tally(author, n).lists == s.lists,
        s.tally(author, n).points == s.points,
        s.tally(author, n).tally(author, m).counters[author] == s.counters[author] + n + m,
{
}

/// Shaming a tracked user reports the counter exactly when it is not zero,
/// whatever patterns the user holds.
pub proof fn law_shame_reports_counter(s: JarView, user: u64)
    requires
        s.lists.contains_key(user),
        s.counters.contains_key(user),
    ensures
        s.counters[user] != 0 ==> s.shame(user) == (ShameOutcome::Sworn {
            count: s.counters[user],
        }),
        s.counters[user] == 0 ==> s.shame(user) == ShameOutcome::NotSworn,
{
}

/// Asking for a jar when already tracked changes nothing, whatever the
/// user's patterns and counter are.
pub proof fn law_create_keeps_tracked_users(s: JarView, user: u64)
    requires
        s.lists.contains_key(user),
    ensures
        s.create(user) == (s, CreateOutcome::AlreadyTracked),
{
}

/// The text between the backslash escapes: each backslash stands for the
/// character after it.
pub open spec fn unescaped(s: Seq<char>) -> Seq<char>
    decreases s.len(),
{
    if s.len() == 0 {
        seq![]
    } else if s[0] == '\\' && s.len() >= 2 {
        seq![s[1]] + unescaped(s.subrange(2, s.len() as int))
    } else {
        seq![s[0]] + unescaped(s.drop_first())
    }
}

/// Escaping loses nothing: undoing it gives the text back.
pub proof fn lemma_unescape_escaped(t: Seq<char>)
    ensures
        unescaped(escaped(t)) == t,
    decreases t.len(),
{
    if t.len() > 0 {
        lemma_unescape_escaped(t.drop_first());
        let e = escaped(t);
        let rest = escaped(t.drop_first());
        if is_regex_meta(t[0]) {
            assert(e == seq!['\\', t[0]] + rest);
            assert(e.subrange(2, e.len() as int) =~= rest);
            assert(e[0] == '\\' && e.len() >= 2);
            assert(unescaped(e) == seq![t[0]] + unescaped(rest));
        } else {
            assert(e == seq![t[0]] + rest);
            assert(e.drop_first() =~= rest);
            assert(t[0] != '\\');
            assert(unescaped(e) == seq![t[0]] + unescaped(rest));
        }
        assert(t =~= seq![t[0]] + t.drop_first());
    }
}

/// Text without meta characters is its own escape.
pub proof fn lemma_escaped_plain(t: Seq<char>)
    requires
        forall|i: int| 0 <= i < t.len() ==> !is_regex_meta(#[trigger] t[i]),
    ensures
        escaped(t) == t,
    decreases t.len(),
{
    if t.len() > 0 {
        assert forall|i: int| 0 <= i < t.drop_first().len() implies !is_regex_meta(
            #[trigger] t.drop_first()[i],
        ) by {
            assert(t.drop_first()[i] == t[i + 1]);
        }
        lemma_escaped_plain(t.drop_first());
        assert(!is_regex_meta(t[0]));
        assert(t =~= seq![t[0]] + t.drop_first());
    }
}

/// The pattern of a literal swear string is `^`, then the whole trimmed
/// string (inner spaces included) written so that undoing the escapes gives
/// it back, then `$`. A string with no meta characters and no surrounding
/// whitespace is kept as it is: `w` becomes `^w$`.
pub proof fn law_anchored_keeps_the_whole_word(w: Seq<char>)
    ensures
        anchored(w).len() >= 2,
        anchored(w)[0] == '^',
        anchored(w).last() == '$',
        unescaped(anchored(w).subrange(1, anchored(w).len() - 1)) == trimmed(w),
        (forall|i: int| 0 <= i < w.len() ==> !is_regex_meta(#[trigger] w[i])) && (w.len() == 0
            || !is_white_space(w[0]) && !is_white_space(w.last())) ==> anchored(w) == seq!['^']
            + w + seq!['$'],
{
    let a = anchored(w);
    let e = escaped(trimmed(w));
    assert(a == seq!['^'] + e + seq!['$']);
    assert(a.subrange(1, a.len() - 1) =~= e);
    lemma_unescape_escaped(trimmed(w));
    if (forall|i: int| 0 <= i < w.len() ==> !is_regex_meta(#[trigger] w[i])) && (w.len() == 0
        || !is_white_space(w[0]) && !is_white_space(w.last())) {
        assert(crate::text::trim_start(w) == w);
        assert(crate::text::trim_end(w) == w);
        lemma_escaped_plain(w);
    }
}

/// A granted reward records the instant it was decided with, and a second
/// request less than a day of clock time later is refused and changes
/// nothing.
pub proof fn law_reward_records_its_instant(s: JarView, user: u64, now: i128, later: i128)
    requires
        s.grants(user, now),
        now <= later < now + DAY_NANOS,
    ensures
        s.reward(user, now).0.redeemed[user] == now,
        !s.reward(user, now).0.grants(user, later),
        s.reward(user, now).0.reward(user, later) == (
            s.reward(user, now).0,
            RewardOutcome::AlreadyRedeemed,
        ),
{
    lemma_may_redeem_iff(now, later);
}

} // verus!
