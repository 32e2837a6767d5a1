//! Notification centre: one visible message plus a bounded backlog.
//!
//! Time is a count of milliseconds on the host's monotonic clock. Every
//! operation that depends on the age of a message takes the current reading
//! as `now`, so the whole component is a function of its arguments.

use vstd::prelude::*;

verus! {

/// How long a normal message is displayed before it starts to fade.
pub const NORMAL_DISPLAY_MS: u64 = 3000;

/// How long a critical message is displayed before it starts to fade.
pub const CRITICAL_DISPLAY_MS: u64 = 8000;

/// Length of the fade tail that follows the display time.
pub const FADE_TAIL_MS: u64 = 2100;

/// Largest number of messages the backlog holds.
pub const BACKLOG_CAPACITY: usize = 10;

/// Types of messages that can be displayed to the user.
#[derive(Debug, Clone, Copy, PartialEq, Eq, Structural)]
pub enum MessageType {
    /// General information.
    Info,
    /// Error conditions.
    Error,
}

/// Priority levels; the priority decides the display time.
#[derive(Debug, Clone, Copy, PartialEq, Eq, Structural, PartialOrd, Ord)]
pub enum MessagePriority {
    /// Normal priority: status messages.
    Normal,
    /// Critical priority: error messages.
    Critical,
}

/// Mathematical value of a message.
pub struct Notice {
    pub text: Seq<char>,
    pub kind: MessageType,
    pub posted_at: u64,
    pub duration: u64,
}

impl Notice {
    /// Milliseconds since the message was created; zero if `now` lies before.
    pub open spec fn elapsed(self, now: u64) -> int {
        if now >= self.posted_at {
            now - self.posted_at
        } else {
            0
        }
    }

    /// Whether the message is past its display time.
    pub open spec fn fading(self, now: u64) -> bool {
        self.elapsed(now) > self.duration
    }

    /// Whether the message is past its display time and its fade tail.
    pub open spec fn expired(self, now: u64) -> bool {
        self.elapsed(now) > self.duration + FADE_TAIL_MS
    }

    /// Whether the message, when replaced at `now`, is kept in the backlog:
    /// it is if it has not begun to fade and is not expired.
    pub open spec fn keeps_place(self, now: u64) -> bool {
        !self.fading(now) && !self.expired(now)
    }
}

/// The display time that goes with a priority.
pub open spec fn display_time(priority: MessagePriority) -> u64 {
    match priority {
        MessagePriority::Normal => NORMAL_DISPLAY_MS,
        MessagePriority::Critical => CRITICAL_DISPLAY_MS,
    }
}

/// The message that `UserMessage::new` creates.
pub open spec fn made(text: Seq<char>, kind: MessageType, priority: MessagePriority, now: u64) -> Notice {
    Notice { text, kind, posted_at: now, duration: display_time(priority) }
}

/// The entries of `s` that are not expired at `now`, in their order.
pub open spec fn live(s: Seq<Notice>, now: u64) -> Seq<Notice>
    decreases s.len(),
{
    if s.len() == 0 {
        s
    } else if s.last().expired(now) {
        live(s.drop_last(), now)
    } else {
        live(s.drop_last(), now).push(s.last())
    }
}

/// The last `cap` entries of `s`: the oldest ones go first.
pub open spec fn newest(s: Seq<Notice>, cap: int) -> Seq<Notice> {
    if s.len() > cap {
        s.skip(s.len() - cap)
    } else {
        s
    }
}

/// What promotion finds in a backlog: the most recent entry that is not
/// expired, and the entries below it. Expired entries above it are dropped.
pub open spec fn surfaced(s: Seq<Notice>, now: u64) -> (Option<Notice>, Seq<Notice>)
    decreases s.len(),
{
    if s.len() == 0 {
        (None, s)
    } else if s.last().expired(now) {
        surfaced(s.drop_last(), now)
    } else {
        (Some(s.last()), s.drop_last())
    }
}

/// Mathematical value of the notification centre.
pub struct Board {
    pub current: Option<Notice>,
    pub backlog: Seq<Notice>,
}

impl Board {
    /// The board that shows nothing and holds nothing.
    pub open spec fn empty() -> Board {
        Board { current: None, backlog: Seq::empty() }
    }

    /// The message on display at `now`, if any.
    pub open spec fn visible(self, now: u64) -> Option<Notice> {
        match self.current {
            Some(n) => if n.expired(now) {
                None
            } else {
                Some(n)
            },
            None => None,
        }
    }

    /// The backlog as a new message finds it: the preempted message on top if
    /// it keeps its place.
    pub open spec fn displaced(self, now: u64) -> Seq<Notice> {
        match self.current {
            Some(n) => if n.keeps_place(now) {
                self.backlog.push(n)
            } else {
                self.backlog
            },
            None => self.backlog,
        }
    }

    /// The board after a post: the new message is on display, and the
    /// backlog holds its newest entries that are not expired.
    pub open spec fn post(self, n: Notice, now: u64) -> Board {
        Board {
            current: Some(n),
            backlog: newest(live(self.displaced(now), now), BACKLOG_CAPACITY as int),
        }
    }

    /// The board after promotion: the entry found, if any, is on display.
    pub open spec fn promote(self, now: u64) -> Board {
        let found = surfaced(self.backlog, now);
        Board {
            current: match found.0 {
                Some(n) => Some(n),
                None => self.current,
            },
            backlog: found.1,
        }
    }

    /// The board after one cycle: a message that is on display and not
    /// expired stays; otherwise the slot is filled from the backlog.
    pub open spec fn tick(self, now: u64) -> Board {
        match self.current {
            Some(n) => if n.expired(now) {
                Board { current: None, backlog: self.backlog }.promote(now)
            } else {
                self
            },
            None => self.promote(now),
        }
    }
}

/// A user message with the data that display management needs.
#[derive(Debug, Clone)]
pub struct UserMessage {
    pub content: String,
    pub message_type: MessageType,
    /// Clock reading at creation, in milliseconds.
    pub timestamp: u64,
    /// Display time in milliseconds.
    pub duration: u64,
}

impl View for UserMessage {
    type V = Notice;

    open spec fn view(&self) -> Notice {
        Notice {
            text: self.content@,
            kind: self.message_type,
            posted_at: self.timestamp,
            duration: self.duration,
        }
    }
}

impl UserMessage {
    /// Creates a message at clock reading `now`.
    pub fn new(content: String, message_type: MessageType, priority: MessagePriority, now: u64) -> (m:
        Self)
        ensures
            m.content == content,
            m@ == made(content@, message_type, priority, now),
    {
        let duration = match priority {
            MessagePriority::Normal => NORMAL_DISPLAY_MS,
            MessagePriority::Critical => CRITICAL_DISPLAY_MS,
        };
        UserMessage { content, message_type, timestamp: now, duration }
    }

    /// Age of the message at `now` in milliseconds.
    pub fn age_millis(&self, now: u64) -> (age: u64)
        ensures
            age == self@.elapsed(now),
    {
        now.saturating_sub(self.timestamp)
    }

    /// Whether the message is past its display time and its fade tail.
    pub fn is_expired(&self, now: u64) -> (b: bool)
        ensures
            b == self@.expired(now),
    {
        match self.duration.checked_add(FADE_TAIL_MS) {
            Some(limit) => self.age_millis(now) > limit,
            None => false,
        }
    }

    /// Whether the message is past its display time.
    pub fn should_fade(&self, now: u64) -> (b: bool)
        ensures
            b == self@.fading(now),
    {
        self.age_millis(now) > self.duration
    }

    fn keeps_place(&self, now: u64) -> (b: bool)
        ensures
            b == self@.keeps_place(now),
    {
        !self.should_fade(now) && !self.is_expired(now)
    }
}

/// The values of a list of messages.
pub open spec fn notices(s: Seq<UserMessage>) -> Seq<Notice> {
    s.map_values(|m: UserMessage| m@)
}

/// Manages user messages with display logic.
#[derive(Debug, Clone)]
pub struct MessageManager {
    current_message: Option<UserMessage>,
    message_queue: Vec<UserMessage>,
}

impl View for MessageManager {
    type V = Board;

    closed spec fn view(&self) -> Board {
        Board {
            current: match self.current_message {
                Some(m) => Some(m@),
                None => None,
            },
            backlog: notices(self.message_queue@),
        }
    }
}

proof fn live_step(s: Seq<Notice>, x: Notice, now: u64)
    ensures
        live(s.push(x), now) == if x.expired(now) {
            live(s, now)
        } else {
            live(s, now).push(x)
        },
{
    assert(s.push(x).drop_last() =~= s);
}

impl Default for MessageManager {
    fn default() -> (m: Self)
        ensures
            m@ == Board::empty(),
    {
        MessageManager::new()
    }
}

impl MessageManager {
    /// Creates an empty message manager.
    pub fn new() -> (m: Self)
        ensures
            m@ == Board::empty(),
    {
        let m = MessageManager { current_message: None, message_queue: Vec::new() };
        assert(m@.backlog =~= Seq::empty());
        m
    }

    /// Adds a message, which replaces the visible one at once. The replaced
    /// message goes on top of the backlog if it has not begun to fade.
    pub fn add_message(&mut self, message: UserMessage, now: u64)
        ensures
            final(self)@ == old(self)@.post(message@, now),
            final(self)@.backlog.len() <= BACKLOG_CAPACITY,
    {
        let previous = self.current_message.take();
        match previous {
            Some(prev) => {
                if prev.keeps_place(now) {
                    self.message_queue.push(prev);
                    assert(notices(self.message_queue@) =~= old(self)@.backlog.push(prev@));
                }
            },
            None => {},
        }
        assert(notices(self.message_queue@) == old(self)@.displaced(now));
        self.current_message = Some(message);
        self.cleanup_queue(now);
    }

    /// The message to display at `now`; an expired one counts as absent.
    pub fn get_current_message(&self, now: u64) -> (shown: Option<&UserMessage>)
        ensures
            match shown {
                Some(m) => self@.visible(now) == Some(m@),
                None => self@.visible(now).is_none(),
            },
    {
        match &self.current_message {
            Some(current) => {
                if current.is_expired(now) {
                    None
                } else {
                    Some(current)
                }
            },
            None => None,
        }
    }

    /// Number of messages waiting in the backlog.
    pub fn backlog_len(&self) -> (n: usize)
        ensures
            n == self@.backlog.len(),
    {
        self.message_queue.len()
    }

    /// Advances the display by one cycle: an expired visible message is
    /// cleared, and an empty slot is filled from the backlog.
    pub fn update(&mut self, now: u64)
        ensures
            final(self)@ == old(self)@.tick(now),
            final(self)@.backlog.len() <= old(self)@.backlog.len(),
    {
        let expired = match &self.current_message {
            Some(current) => current.is_expired(now),
            None => true,
        };
        if expired {
            self.current_message = None;
            self.promote_next_message(now);
        }
    }

    /// Moves the most recent backlog entry that is not expired to the display
    /// slot; expired entries met on the way are dropped.
    pub fn promote_next_message(&mut self, now: u64)
        ensures
            final(self)@ == old(self)@.promote(now),
            final(self)@.backlog.len() <= old(self)@.backlog.len(),
    {
        let ghost all = self@.backlog;
        proof {
            surfaced_shape(all, now);
        }
        loop
            invariant_except_break
                self.current_message == old(self).current_message,
                surfaced(self@.backlog, now) == surfaced(all, now),
            invariant
                all == old(self)@.backlog,
            ensures
                self@ == old(self)@.promote(now),
            decreases self.message_queue.len(),
        {
            let ghost before = self@.backlog;
            assert(surfaced(before, now) == surfaced(all, now));
            match self.message_queue.pop() {
                Some(next) => {
                    assert(notices(self.message_queue@) =~= before.drop_last());
                    assert(before.last() == next@);
                    if !next.is_expired(now) {
                        self.current_message = Some(next);
                        assert(self@.backlog == surfaced(before, now).1);
                        break ;
                    }
                },
                None => {
                    assert(self@.backlog =~= before);
                    break ;
                },
            }
        }
    }

    /// Drops the expired entries of the backlog, then the oldest ones beyond
    /// its capacity.
    pub fn cleanup_queue(&mut self, now: u64)
        ensures
            final(self)@ == (Board {
                current: old(self)@.current,
                backlog: newest(live(old(self)@.backlog, now), BACKLOG_CAPACITY as int),
            }),
            final(self)@.backlog.len() <= BACKLOG_CAPACITY,
    {
        let ghost all = self@.backlog;
        let mut i: usize = 0;
        let ghost mut k: int = 0;
        while i < self.message_queue.len()
            invariant
                self.current_message == old(self).current_message,
                0 <= i <= self.message_queue.len(),
                0 <= k <= all.len(),
                notices(self.message_queue@).take(i as int) == live(all.take(k), now),
                notices(self.message_queue@).skip(i as int) == all.skip(k),
            decreases self.message_queue.len() - i,
        {
            let ghost before = notices(self.message_queue@);
            assert(before.skip(i as int).len() > 0);
            assert(k < all.len());
            assert(before[i as int] == before.skip(i as int)[0]);
            assert(before[i as int] == all[k]);
            assert(all.take(k + 1) =~= all.take(k).push(all[k]));
            proof {
                live_step(all.take(k), all[k], now);
            }
            assert(all.skip(k + 1) =~= all.skip(k).skip(1));
            assert(before.skip(i + 1) =~= before.skip(i as int).skip(1));
            if self.message_queue[i].is_expired(now) {
                self.message_queue.remove(i);
                assert(notices(self.message_queue@).take(i as int) =~= before.take(i as int));
                assert(notices(self.message_queue@).skip(i as int) =~= before.skip(i + 1));
            } else {
                i = i + 1;
                assert(notices(self.message_queue@).take(i as int) =~= before.take(i - 1).push(
                    before[i - 1],
                ));
            }
            proof {
                k = k + 1;
            }
        }
        assert(all.skip(k).len() == 0);
        assert(all.take(k) =~= all);
        assert(notices(self.message_queue@) =~= live(all, now));
        let ghost kept = notices(self.message_queue@);
        while self.message_queue.len() > BACKLOG_CAPACITY
            invariant
                self.current_message == old(self).current_message,
                self.message_queue.len() <= kept.len(),
                kept.len() > BACKLOG_CAPACITY ==> self.message_queue.len() >= BACKLOG_CAPACITY,
                kept.len() <= BACKLOG_CAPACITY ==> self.message_queue.len() == kept.len(),
                notices(self.message_queue@) == kept.skip(kept.len() - self.message_queue.len()),
            decreases self.message_queue.len(),
        {
            let ghost before = notices(self.message_queue@);
            self.message_queue.remove(0);
            assert(notices(self.message_queue@) =~= before.skip(1));
            assert(before.skip(1) =~= kept.skip(kept.len() - self.message_queue.len()));
        }
        assert(kept.skip(0) =~= kept);
    }
}

/// Creates a status message: informational, normal priority.
pub fn status_message(content: String, now: u64) -> (m: UserMessage)
    ensures
        m.content == content,
        m@ == made(content@, MessageType::Info, MessagePriority::Normal, now),
{
    UserMessage::new(content, MessageType::Info, MessagePriority::Normal, now)
}

/// Creates an error message: critical priority.
pub fn error_message(content: String, now: u64) -> (m: UserMessage)
    ensures
        m.content == content,
        m@ == made(content@, MessageType::Error, MessagePriority::Critical, now),
{
    UserMessage::new(content, MessageType::Error, MessagePriority::Critical, now)
}

/// Promotion, stated without recursion: the backlog is cut below the most
/// recent entry that is not expired, that entry is the one found, and every
/// entry above it was expired.
pub proof fn surfaced_shape(s: Seq<Notice>, now: u64)
    ensures
        surfaced(s, now).1 == s.take(surfaced(s, now).1.len() as int),
        forall|i: int| surfaced(s, now).1.len() < i < s.len() ==> (#[trigger] s[i]).expired(now),
        match surfaced(s, now).0 {
            Some(n) => {
                &&& surfaced(s, now).1.len() < s.len()
                &&& n == s[surfaced(s, now).1.len() as int]
                &&& !n.expired(now)
            },
            None => {
                &&& surfaced(s, now).1.len() == 0
                &&& forall|i: int| 0 <= i < s.len() ==> (#[trigger] s[i]).expired(now)
            },
        },
    decreases s.len(),
{
    if s.len() == 0 {
        assert(s.take(0) =~= s);
    } else if s.last().expired(now) {
        let t = s.drop_last();
        surfaced_shape(t, now);
        let rest = surfaced(t, now).1;
        assert(t.take(rest.len() as int) =~= s.take(rest.len() as int));
        assert forall|i: int| rest.len() < i < s.len() implies (#[trigger] s[i]).expired(now) by {
            if i < t.len() {
                assert(t[i] == s[i]);
            }
        }
        if surfaced(t, now).0.is_none() {
            assert forall|i: int| 0 <= i < s.len() implies (#[trigger] s[i]).expired(now) by {
                if i < t.len() {
                    assert(t[i] == s[i]);
                }
            }
        }
    } else {
        assert(s.drop_last() =~= s.take(s.len() - 1));
    }
}

/// After two posts in a row the second message is on display. If the first
/// had not begun to fade when the second came, as is the case whenever it was
/// posted less than three seconds before, it waits on top of the backlog, and
/// a cycle at a time when the second is expired and the first is not puts the
/// first on display.
pub proof fn second_post_preempts(
    b: Board,
    m1: Notice,
    t1: u64,
    m2: Notice,
    t2: u64,
    later: u64,
)
    requires
        t1 <= t2,
        exists|text: Seq<char>, kind: MessageType, priority: MessagePriority|
            m1 == made(text, kind, priority, t1),
        exists|text: Seq<char>, kind: MessageType, priority: MessagePriority|
            m2 == made(text, kind, priority, t2),
    ensures
        b.post(m1, t1).post(m2, t2).visible(t2) == Some(m2),
        t2 - t1 < NORMAL_DISPLAY_MS ==> !m1.fading(t2),
        !m1.fading(t2) ==> {
            let after = b.post(m1, t1).post(m2, t2);
            &&& after.backlog.len() > 0
            &&& after.backlog.last() == m1
            &&& (m2.expired(later) && !m1.expired(later) ==> after.tick(later).visible(later)
                == Some(m1))
        },
{
    let first = b.post(m1, t1);
    let after = first.post(m2, t2);
    if !m1.fading(t2) {
        assert(m1.keeps_place(t2));
        let pile = first.displaced(t2);
        assert(pile == first.backlog.push(m1));
        live_step(first.backlog, m1, t2);
        let kept = live(pile, t2);
        assert(kept.last() == m1);
        assert(after.backlog == newest(kept, BACKLOG_CAPACITY as int));
        if m2.expired(later) && !m1.expired(later) {
            assert(surfaced(after.backlog, later).0 == Some(m1));
        }
    }
}

/// A replaced message is kept exactly when it has not begun to fade: a
/// message of normal priority up to three seconds after it was posted, a
/// critical one up to eight; one replaced later is dropped.
pub proof fn replaced_message_is_kept_until_it_fades(
    b: Board,
    text: Seq<char>,
    kind: MessageType,
    priority: MessagePriority,
    t1: u64,
    m2: Notice,
    t2: u64,
)
    requires
        t1 <= t2,
    ensures
        made(text, kind, priority, t1).keeps_place(t2) == (t2 - t1 <= display_time(priority)),
        b.post(made(text, kind, priority, t1), t1).displaced(t2) == if t2 - t1 <= display_time(
            priority,
        ) {
            b.post(made(text, kind, priority, t1), t1).backlog.push(
                made(text, kind, priority, t1),
            )
        } else {
            b.post(made(text, kind, priority, t1), t1).backlog
        },
{
}

/// The backlog never holds more than its capacity: a post leaves at most
/// that many entries whatever was there before, and a cycle adds none.
pub proof fn backlog_stays_bounded(b: Board, m: Notice, now: u64)
    ensures
        Board::empty().backlog.len() <= BACKLOG_CAPACITY,
        b.post(m, now).backlog.len() <= BACKLOG_CAPACITY,
        b.tick(now).backlog.len() <= b.backlog.len(),
        b.promote(now).backlog.len() <= b.backlog.len(),
{
    surfaced_shape(b.backlog, now);
}

/// A critical message is not expired, and not even fading, before eight
/// seconds have passed; posted at its creation time it stays on display for
/// that long unless another message replaces it.
pub proof fn critical_lasts(b: Board, text: Seq<char>, kind: MessageType, t0: u64, now: u64)
    requires
        made(text, kind, MessagePriority::Critical, t0).elapsed(now) <= CRITICAL_DISPLAY_MS,
    ensures
        !made(text, kind, MessagePriority::Critical, t0).fading(now),
        !made(text, kind, MessagePriority::Critical, t0).expired(now),
        b.post(made(text, kind, MessagePriority::Critical, t0), t0).visible(now) == Some(
            made(text, kind, MessagePriority::Critical, t0),
        ),
{
}

/// A cycle never leaves an expired message in the display slot, whatever was
/// posted before: an expired backlog entry that promotion meets is removed
/// from the backlog and not shown.
pub proof fn cycle_shows_no_expired(b: Board, now: u64)
    ensures
        b.tick(now).visible(now) == b.tick(now).current,
        b.tick(now).backlog.len() <= b.backlog.len(),
        b.tick(now).backlog == b.backlog.take(b.tick(now).backlog.len() as int),
        (b.visible(now).is_none() && b.backlog.len() > 0 && b.backlog.last().expired(now))
            ==> b.tick(now).backlog.len() < b.backlog.len() - 1 || b.tick(now).current.is_none(),
{
    surfaced_shape(b.backlog, now);
    assert(b.backlog.take(b.backlog.len() as int) =~= b.backlog);
}

/// Posting and then running a cycle at any later time shows either nothing
/// or a message that is not expired at that time.
pub proof fn post_then_cycle(b: Board, m: Notice, posted: u64, now: u64)
    ensures
        match b.post(m, posted).tick(now).current {
            Some(n) => !n.expired(now),
            None => true,
        },
{
    cycle_shows_no_expired(b.post(m, posted), now);
}

} // verus!
