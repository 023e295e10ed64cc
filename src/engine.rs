//! The per-message policy: a disable phrase suspends the bot; otherwise a
//! message from a person that holds a trigger phrase, while the bot is not
//! suspended and a random draw succeeds, is answered by a line of lore.
use vstd::prelude::*;
use crate::clock::{lemma_suspend_idempotent, time_now, Suspension, SuspensionClock};
use crate::config::{
    delimiter_of, parse_cooldown, parse_delimiter, parse_phrases, phrase_list, u64_from_decimal,
    Chance, PARTS_PER_MILLION,
};
use crate::corpus::{corpus_lines, has_content, LoreCorpus};
use crate::error::ConfigError;
use crate::matcher::{compiles, lemma_any_occurs_reordered, MatchIndex};
use crate::text::{any_occurs, lower_of, lowercase, trimmed};

verus! {

/// What the policy makes of one message.
#[derive(Debug, Clone, Copy, PartialEq, Eq, Structural)]
pub enum Verdict {
    /// A disable phrase was found: the bot is suspended, and stays silent.
    Suspend,
    /// No reply.
    Silent,
    /// Reply with the lore line at this index.
    Reply(usize),
}

/// Why a message could not be handled.
#[derive(Debug, Clone, Copy, PartialEq, Eq, Structural)]
pub enum HandleError {
    /// The system clock reads earlier than the Unix epoch.
    ClockBeforeEpoch,
    /// The end of a new suspension lies beyond the largest `u64` second.
    SuspensionOverflow,
}

/// The settings the bot starts from, as text, but for the chance, which
/// is given in parts per million.
pub struct Settings {
    pub lore_text: String,
    pub lore_splitter: String,
    pub triggers: String,
    pub trigger_splitter: String,
    pub disablers: String,
    pub disable_splitter: String,
    pub chance_parts: u32,
    pub disable_for: String,
}

/// The first setting that is refused, checked in order: the chance, the
/// lore delimiter, the lore, the two phrase delimiters and the cooldown.
pub open spec fn settings_error(s: Settings) -> Option<ConfigError> {
    if s.chance_parts > PARTS_PER_MILLION {
        Some(ConfigError::ChanceOutOfRange)
    } else if delimiter_of(s.lore_splitter@) is None {
        Some(ConfigError::InvalidDelimiter)
    } else if !has_content(corpus_lines(s.lore_text@, delimiter_of(s.lore_splitter@)->0)) {
        Some(ConfigError::EmptyCorpus)
    } else if delimiter_of(s.trigger_splitter@) is None || delimiter_of(s.disable_splitter@) is None {
        Some(ConfigError::InvalidDelimiter)
    } else if u64_from_decimal(trimmed(s.disable_for@)) is None {
        Some(ConfigError::InvalidCooldown)
    } else {
        None
    }
}

/// Everything the policy reads: both phrase indexes, the lore, the reply
/// chance, the cooldown, and the shared suspension state.
pub struct Bot {
    triggers: MatchIndex,
    disablers: MatchIndex,
    lore: LoreCorpus,
    chance: Chance,
    cooldown: u64,
    clock: SuspensionClock,
}

impl Bot {
    pub closed spec fn trigger_phrases(&self) -> Seq<Seq<char>> {
        self.triggers.phrases()
    }

    pub closed spec fn disabler_phrases(&self) -> Seq<Seq<char>> {
        self.disablers.phrases()
    }

    pub closed spec fn lore_lines(&self) -> Seq<Seq<char>> {
        self.lore@
    }

    pub closed spec fn chance_parts(&self) -> nat {
        self.chance.parts()
    }

    pub closed spec fn cooldown_secs(&self) -> u64 {
        self.cooldown
    }

    /// The verdict on a lower-cased message, given the state before it, the
    /// outcome of the chance draw, the time, and a drawn lore index. The
    /// checks run in a fixed order and the first that ends the message wins.
    pub open spec fn verdict(
        &self,
        s: Suspension,
        lowered: Seq<char>,
        from_bot: bool,
        roll: bool,
        now: int,
        pick: usize,
    ) -> Verdict {
        if any_occurs(self.disabler_phrases(), lowered) {
            Verdict::Suspend
        } else if from_bot || !roll || s.suspended_at(now) || !any_occurs(
            self.trigger_phrases(),
            lowered,
        ) {
            Verdict::Silent
        } else {
            Verdict::Reply(pick)
        }
    }

    /// The suspension state after a lower-cased message.
    pub open spec fn next_state(&self, s: Suspension, lowered: Seq<char>, now: int) -> Suspension {
        if any_occurs(self.disabler_phrases(), lowered) {
            s.after_suspend(now, self.cooldown_secs() as int)
        } else {
            s
        }
    }

    /// The result of `decide`: the verdict, unless a suspension would end
    /// beyond the largest `u64` second.
    pub open spec fn outcome(
        &self,
        s: Suspension,
        lowered: Seq<char>,
        from_bot: bool,
        roll: bool,
        now: int,
        pick: usize,
    ) -> Result<Verdict, HandleError> {
        if any_occurs(self.disabler_phrases(), lowered) && now + self.cooldown_secs() > u64::MAX {
            Err(HandleError::SuspensionOverflow)
        } else {
            Ok(self.verdict(s, lowered, from_bot, roll, now, pick))
        }
    }

    /// A bot that was never suspended.
    pub fn new(
        triggers: MatchIndex,
        disablers: MatchIndex,
        lore: LoreCorpus,
        chance: Chance,
        cooldown: u64,
    ) -> (r: Bot)
        ensures
            r.trigger_phrases() == triggers.phrases(),
            r.disabler_phrases() == disablers.phrases(),
            r.lore_lines() == lore@,
            r.chance_parts() == chance.parts(),
            r.cooldown_secs() == cooldown,
    {
        Bot { triggers, disablers, lore, chance, cooldown, clock: SuspensionClock::new() }
    }

    /// Builds the bot from its settings. A refused setting gives its error
    /// (the first in the order of `settings_error`); with all of them
    /// accepted, only compiling a phrase index can still fail.
    pub fn from_settings(s: &Settings) -> (r: Result<Bot, ConfigError>)
        ensures
            settings_error(*s) matches Some(e) ==> r == Err::<Bot, ConfigError>(e),
            settings_error(*s) is None ==> (r is Ok <==> compiles(
                phrase_list(s.triggers@, delimiter_of(s.trigger_splitter@)->0),
            ) && compiles(phrase_list(s.disablers@, delimiter_of(s.disable_splitter@)->0))),
            settings_error(*s) is None && !(r is Ok) ==> r == Err::<Bot, ConfigError>(
                ConfigError::MatcherBuild,
            ),
            r matches Ok(b) ==> {
                &&& b.lore_lines() == corpus_lines(s.lore_text@, delimiter_of(s.lore_splitter@)->0)
                &&& b.trigger_phrases() == phrase_list(
                    s.triggers@,
                    delimiter_of(s.trigger_splitter@)->0,
                )
                &&& b.disabler_phrases() == phrase_list(
                    s.disablers@,
                    delimiter_of(s.disable_splitter@)->0,
                )
                &&& b.chance_parts() == s.chance_parts
                &&& Some(b.cooldown_secs() as u64) == u64_from_decimal(trimmed(s.disable_for@))
            },
    {
        let chance = Chance::from_parts_per_million(s.chance_parts)?;
        let lore_delimiter = parse_delimiter(s.lore_splitter.as_str())?;
        let lore = LoreCorpus::parse(s.lore_text.as_str(), lore_delimiter)?;
        let trigger_delimiter = parse_delimiter(s.trigger_splitter.as_str())?;
        let disable_delimiter = parse_delimiter(s.disable_splitter.as_str())?;
        let cooldown = parse_cooldown(s.disable_for.as_str())?;
        let trigger_phrases = parse_phrases(s.triggers.as_str(), trigger_delimiter);
        let disable_phrases = parse_phrases(s.disablers.as_str(), disable_delimiter);
        let triggers = MatchIndex::build(&trigger_phrases)?;
        let disablers = MatchIndex::build(&disable_phrases)?;
        Ok(Bot::new(triggers, disablers, lore, chance, cooldown))
    }

    /// Applies the policy to a lower-cased message, with the outside values
    /// it depends on handed in: whether the chance draw succeeded, the time,
    /// and a lore index drawn at random. A suspension that would end beyond
    /// the largest `u64` second is refused and leaves the state as it was.
    pub fn decide(
        &self,
        state: &mut Suspension,
        lowered: &str,
        from_bot: bool,
        roll: bool,
        now: u64,
        pick: usize,
    ) -> (r: Result<Verdict, HandleError>)
        requires
            pick < self.lore_lines().len(),
        ensures
            r == self.outcome(*old(state), lowered@, from_bot, roll, now as int, pick),
            *final(state) == (if r is Ok {
                self.next_state(*old(state), lowered@, now as int)
            } else {
                *old(state)
            }),
    {
        if self.disablers.query_lowered(lowered) {
            if now > u64::MAX - self.cooldown {
                return Err(HandleError::SuspensionOverflow);
            }
            state.suspend(now, self.cooldown);
            return Ok(Verdict::Suspend);
        }
        if from_bot || !roll || state.is_suspended(now) || !self.triggers.query_lowered(lowered) {
            return Ok(Verdict::Silent);
        }
        Ok(Verdict::Reply(pick))
    }

    /// The number of lore lines, never zero.
    pub fn lore_len(&self) -> (r: usize)
        ensures
            r == self.lore_lines().len(),
            r >= 1,
    {
        self.lore.len()
    }

    /// The cooldown in seconds.
    pub fn cooldown(&self) -> (r: u64)
        ensures
            r == self.cooldown_secs(),
    {
        self.cooldown
    }

    /// Handles one message: lower-cases it once, draws the chance and a lore
    /// index, reads the clock and the shared state, applies `decide`, and
    /// stores the new state on a suspension. The draws are independent of
    /// the message, so drawing them up front changes no outcome. Whatever the
    /// draws, a reply is a lore line, comes only for a message from a person
    /// that holds a trigger phrase and no disable phrase, and never at a
    /// zero chance.
    pub fn handle(&self, text: &str, from_bot: bool) -> (r: Result<Option<String>, HandleError>)
        ensures
            r matches Ok(Some(line)) ==> {
                &&& exists|i: int| 0 <= i < self.lore_lines().len() && line@ == self.lore_lines()[i]
                &&& !from_bot
                &&& self.chance_parts() > 0
                &&& !any_occurs(self.disabler_phrases(), lower_of(text@))
                &&& any_occurs(self.trigger_phrases(), lower_of(text@))
            },
            r == Err::<Option<String>, HandleError>(HandleError::SuspensionOverflow) ==> any_occurs(
                self.disabler_phrases(),
                lower_of(text@),
            ),
    {
        let lowered = lowercase(text);
        let now = match time_now() {
            Some(n) => n,
            None => return Err(HandleError::ClockBeforeEpoch),
        };
        let roll = self.chance.roll();
        let pick = self.lore.pick_index();
        let mut state = self.clock.snapshot();
        let verdict = match self.decide(&mut state, lowered.as_str(), from_bot, roll, now, pick) {
            Ok(v) => v,
            Err(e) => return Err(e),
        };
        match verdict {
            Verdict::Suspend => {
                self.clock.record(state);
                Ok(None)
            },
            Verdict::Silent => Ok(None),
            Verdict::Reply(i) => {
                let line = self.lore.line(i).clone();
                assert(line@ == self.lore_lines()[i as int]);
                assert(self.chance_parts() > 0);
                Ok(Some(line))
            },
        }
    }
}

/// A message from a person without a disable phrase, while the bot is not
/// suspended and the draw succeeds, is answered exactly when it holds a
/// trigger phrase, and leaves the state unchanged.
pub proof fn lemma_reply_iff_trigger(
    bot: Bot,
    s: Suspension,
    lowered: Seq<char>,
    now: u64,
    pick: usize,
)
    requires
        !any_occurs(bot.disabler_phrases(), lowered),
        !s.suspended_at(now as int),
    ensures
        bot.verdict(s, lowered, false, true, now as int, pick) == (if any_occurs(
            bot.trigger_phrases(),
            lowered,
        ) {
            Verdict::Reply(pick)
        } else {
            Verdict::Silent
        }),
        bot.outcome(s, lowered, false, true, now as int, pick) == Ok::<Verdict, HandleError>(
            bot.verdict(s, lowered, false, true, now as int, pick),
        ),
        bot.next_state(s, lowered, now as int) == s,
{
}

/// Two bots whose phrase sets are reorderings of each other, with the same
/// cooldown, decide every message alike and leave the same state.
pub proof fn lemma_decision_ignores_phrase_order(
    a: Bot,
    b: Bot,
    s: Suspension,
    lowered: Seq<char>,
    from_bot: bool,
    roll: bool,
    now: u64,
    pick: usize,
)
    requires
        a.trigger_phrases().to_multiset() == b.trigger_phrases().to_multiset(),
        a.disabler_phrases().to_multiset() == b.disabler_phrases().to_multiset(),
        a.cooldown_secs() == b.cooldown_secs(),
    ensures
        a.outcome(s, lowered, from_bot, roll, now as int, pick) == b.outcome(
            s,
            lowered,
            from_bot,
            roll,
            now as int,
            pick,
        ),
        a.next_state(s, lowered, now as int) == b.next_state(s, lowered, now as int),
{
    lemma_any_occurs_reordered(a.trigger_phrases(), b.trigger_phrases(), lowered);
    lemma_any_occurs_reordered(a.disabler_phrases(), b.disabler_phrases(), lowered);
}

/// After a suspension from `t`, a message without a disable phrase at any
/// second from `t` to `t + cooldown` is not answered and changes nothing.
pub proof fn lemma_quiet_while_suspended(
    bot: Bot,
    prior: Suspension,
    t: u64,
    lowered: Seq<char>,
    from_bot: bool,
    roll: bool,
    now: u64,
    pick: usize,
)
    requires
        t + bot.cooldown_secs() <= u64::MAX,
        t <= now <= t + bot.cooldown_secs(),
        !any_occurs(bot.disabler_phrases(), lowered),
    ensures
        ({
            let s = prior.after_suspend(t as int, bot.cooldown_secs() as int);
            &&& bot.outcome(s, lowered, from_bot, roll, now as int, pick) == Ok::<
                Verdict,
                HandleError,
            >(Verdict::Silent)
            &&& bot.next_state(s, lowered, now as int) == s
        }),
{
}

/// One second after a suspension from `t` ends, a triggering message from a
/// person is answered again when the draw succeeds.
pub proof fn lemma_answers_after_suspension(
    bot: Bot,
    prior: Suspension,
    t: u64,
    lowered: Seq<char>,
    pick: usize,
)
    requires
        t + bot.cooldown_secs() < u64::MAX,
        !any_occurs(bot.disabler_phrases(), lowered),
        any_occurs(bot.trigger_phrases(), lowered),
    ensures
        ({
            let s = prior.after_suspend(t as int, bot.cooldown_secs() as int);
            let now = t + bot.cooldown_secs() + 1;
            bot.outcome(s, lowered, false, true, now, pick) == Ok::<Verdict, HandleError>(
                Verdict::Reply(pick),
            )
        }),
{
}

/// Two disabling messages at the same second leave the same state as one.
pub proof fn lemma_repeated_disabler_idempotent(
    bot: Bot,
    s: Suspension,
    first: Seq<char>,
    second: Seq<char>,
    t: u64,
)
    requires
        any_occurs(bot.disabler_phrases(), first),
        any_occurs(bot.disabler_phrases(), second),
        t + bot.cooldown_secs() <= u64::MAX,
    ensures
        bot.next_state(bot.next_state(s, first, t as int), second, t as int) == bot.next_state(
            s,
            first,
            t as int,
        ),
        bot.next_state(s, first, t as int).disabled_until == t + bot.cooldown_secs(),
{
    lemma_suspend_idempotent(s, t, bot.cooldown_secs());
}

/// A message that holds both a disable phrase and a trigger phrase is never
/// answered, whoever wrote it and whatever the draw, and sets the end of the
/// suspension to `now + cooldown`, even over a later end.
pub proof fn lemma_disabler_takes_precedence(
    bot: Bot,
    s: Suspension,
    lowered: Seq<char>,
    from_bot: bool,
    roll: bool,
    now: u64,
    pick: usize,
)
    requires
        any_occurs(bot.disabler_phrases(), lowered),
        any_occurs(bot.trigger_phrases(), lowered),
        now + bot.cooldown_secs() <= u64::MAX,
    ensures
        bot.outcome(s, lowered, from_bot, roll, now as int, pick) == Ok::<Verdict, HandleError>(
            Verdict::Suspend,
        ),
        bot.next_state(s, lowered, now as int).suspended_at(now as int),
        bot.next_state(s, lowered, now as int).disabled_until == now + bot.cooldown_secs(),
{
}

/// A message written by a bot is never answered, whatever it holds and
/// whatever the draw; without a disable phrase it changes nothing.
pub proof fn lemma_bot_messages_unanswered(
    bot: Bot,
    s: Suspension,
    lowered: Seq<char>,
    roll: bool,
    now: u64,
    pick: usize,
)
    ensures
        !(bot.verdict(s, lowered, true, roll, now as int, pick) is Reply),
        !any_occurs(bot.disabler_phrases(), lowered) ==> bot.next_state(s, lowered, now as int)
            == s,
{
}

/// A failed chance draw is never answered; at a zero chance every draw
/// fails (the `ensures` of `Chance::roll`), so no message is. A disable
/// phrase still suspends the bot.
pub proof fn lemma_failed_draw_unanswered(
    bot: Bot,
    s: Suspension,
    lowered: Seq<char>,
    from_bot: bool,
    now: u64,
    pick: usize,
)
    ensures
        !(bot.verdict(s, lowered, from_bot, false, now as int, pick) is Reply),
        any_occurs(bot.disabler_phrases(), lowered) && now + bot.cooldown_secs() <= u64::MAX
            ==> bot.next_state(s, lowered, now as int).disabled_until == now
            + bot.cooldown_secs(),
{
}

} // verus!
