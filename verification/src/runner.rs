//! The match orchestrator as a state machine.
//!
//! The runner owns everything about a match except the two bot
//! processes and their pipes: the seat-indexed stacks, the button, the
//! per-round engine, the queue of protocol lines still to send, and the
//! terminal outcome.  The surrounding process loop asks [`MatchRunner::next_step`]
//! what to do — send a queued line, read a line from one seat under the
//! timeout, deal the next round, or stop — and reports what happened
//! through [`MatchRunner::on_line`], [`MatchRunner::on_timeout`],
//! [`MatchRunner::on_send_failure`] and [`MatchRunner::on_read_failure`].
//! Every decision of the original round and match loops lives here.

use vstd::prelude::*;
use crate::actions::spec_parse_action;
use crate::actions::parse_action;
use crate::cards::Card;
use crate::game::GameState;
use crate::game::spec_reveal_count;
use crate::outcome::GameError;
use crate::outcome::GameResult;
use crate::outcome::GameStatus;
use crate::outcome::WhichBot;
use crate::protocol::spec_cards_chars;
use crate::protocol::spec_position_chars;
use crate::protocol::spec_status_chars;
use crate::protocol::spec_trim;
use crate::protocol::cards_line;
use crate::protocol::position_line;
use crate::protocol::round_end_line;
use crate::protocol::status_line;
use crate::protocol::trim_line;

verus! {

/// The stack each seat starts a match with.
pub const STARTING_STACK: u32 = 50;

/// One protocol line queued for sending.
pub struct Message {
    /// The seat it goes to.
    pub to: WhichBot,
    /// The line, without its terminating newline.
    pub line: String,
}

/// Whether `m` is the line `line` addressed to `to`.
pub open spec fn msg_is(m: Message, to: WhichBot, line: Seq<char>) -> bool {
    m.to == to && m.line@ == line
}

/// What the process loop must do next.
#[derive(PartialEq, Eq, Structural, Debug, Clone, Copy)]
pub enum Step {
    /// A queued line waits: take it with [`MatchRunner::take_message`]
    /// and write it to its seat.
    Send,
    /// Read one reply line from this seat under the configured timeout.
    Await(WhichBot),
    /// Deal the next round: call [`MatchRunner::begin_round`] with a
    /// freshly shuffled deck.
    NeedDeck,
    /// The match is over: [`MatchRunner::result`] holds the outcome.
    Done,
}

/// The orchestrator's state between two events.
pub struct MatchRunner {
    /// The defender's chips, refreshed from the engine at round ends.
    pub stack_a: u32,
    /// The challenger's chips, refreshed from the engine at round ends.
    pub stack_b: u32,
    /// The defender's chips at the start of the match.
    pub initial_stack_a: u32,
    /// The challenger's chips at the start of the match.
    pub initial_stack_b: u32,
    /// The physical seat holding the button this round.
    pub button: usize,
    /// How many rounds have been completed.
    pub round_index: usize,
    /// How many rounds the match is configured for.
    pub rounds: usize,
    /// The engine of the round being played, if one is.
    pub engine: Option<GameState>,
    /// The engine phase whose `C` lines were last broadcast.
    pub last_phase: Option<u32>,
    /// Protocol lines queued to send, in order.
    pub outbox: Vec<Message>,
    /// The seat whose reply is awaited once the queue is drained.
    pub awaiting: Option<WhichBot>,
    /// The match outcome, once terminal.
    pub finished: Option<GameResult>,
}

impl MatchRunner {
    /// The physical seat acting in engine state `g`: engine seat 0 is
    /// the button holder.
    pub open spec fn spec_actor(self, g: GameState) -> WhichBot {
        if (if g.turn == 0 {
            self.button as int
        } else {
            1 - self.button as int
        }) == 0 {
            WhichBot::Defender
        } else {
            WhichBot::Challenger
        }
    }

    /// The cards seat `w` is shown in engine state `g`: its hole cards,
    /// then the community cards revealed so far.
    pub open spec fn spec_bot_cards(self, g: GameState, w: WhichBot) -> Seq<Card> {
        let es: int = if w.spec_index() == self.button {
            0
        } else {
            1
        };
        g.hole_of(es) + g.board@.take(spec_reveal_count(g.round as int))
    }

    /// What a terminal outcome claims of the state it closed.
    pub open spec fn spec_finish_ok(self, r: GameResult) -> bool {
        match r {
            Ok(GameStatus::ScoreChanged(d)) => d == self.stack_a - self.initial_stack_a && (
            self.round_index < self.rounds ==> self.stack_a == 0 || self.stack_b == 0),
            _ => true,
        }
    }

    /// The invariant apart from the link between the engine and the
    /// awaited seat: bounds, the alternating button, chip conservation,
    /// and what each phase of the match guarantees.
    pub open spec fn wf_base(self) -> bool {
        &&& self.button <= 1
        &&& self.round_index <= self.rounds
        &&& self.button == self.round_index % 2
        &&& self.initial_stack_a + self.initial_stack_b <= 0x7fffffff
        &&& (self.engine matches Some(g) ==> g.wf() && !g.over && g.total()
            == self.initial_stack_a + self.initial_stack_b)
        &&& self.stack_a + self.stack_b == self.initial_stack_a + self.initial_stack_b
        &&& (self.engine is Some ==> self.stack_a > 0 && self.stack_b > 0)
        &&& (self.engine is Some ==> self.finished is None && self.round_index < self.rounds)
        &&& (self.finished is None && self.engine is None ==> self.round_index < self.rounds
            && self.stack_a > 0 && self.stack_b > 0)
        &&& (self.finished matches Some(r) ==> self.spec_finish_ok(r))
    }

    /// The full invariant: while a round is being played the runner
    /// awaits exactly the acting seat, and a finished match awaits
    /// nobody.
    pub open spec fn wf(self) -> bool {
        &&& self.wf_base()
        &&& (self.awaiting is Some <==> self.engine is Some)
        &&& (self.engine matches Some(g) ==> self.awaiting == Some(self.spec_actor(g)))
    }

    /// What the process loop must do next: drain the queue, then stop
    /// if the match is over, else read the acting seat's reply, else
    /// deal the next round.
    pub open spec fn spec_step(self) -> Step {
        if self.outbox@.len() > 0 {
            Step::Send
        } else if self.finished is Some {
            Step::Done
        } else if self.awaiting is Some {
            Step::Await(self.awaiting->0)
        } else {
            Step::NeedDeck
        }
    }

    /// A fresh match of `rounds` rounds: both seats start with
    /// [`STARTING_STACK`] chips, the defender holds the button, and a
    /// match of no rounds is already over with no chips moved.
    pub fn new(rounds: usize) -> (r: MatchRunner)
        ensures
            r.wf(),
            r.rounds == rounds,
            r.round_index == 0,
            r.button == 0,
            r.stack_a == STARTING_STACK,
            r.stack_b == STARTING_STACK,
            r.initial_stack_a == STARTING_STACK,
            r.initial_stack_b == STARTING_STACK,
            r.engine is None,
            r.awaiting is None,
            r.outbox@.len() == 0,
            rounds > 0 ==> r.finished is None,
            rounds == 0 ==> r.finished == Some(Ok::<GameStatus, GameError>(
                GameStatus::ScoreChanged(0),
            )),
    {
        MatchRunner {
            stack_a: STARTING_STACK,
            stack_b: STARTING_STACK,
            initial_stack_a: STARTING_STACK,
            initial_stack_b: STARTING_STACK,
            button: 0,
            round_index: 0,
            rounds,
            engine: None,
            last_phase: None,
            outbox: Vec::new(),
            awaiting: None,
            finished: if rounds == 0 {
                Some(Ok(GameStatus::ScoreChanged(0)))
            } else {
                None
            },
        }
    }

    /// What the process loop must do next.
    pub fn next_step(&self) -> (r: Step)
        ensures
            r == self.spec_step(),
    {
        if self.outbox.len() > 0 {
            Step::Send
        } else if self.finished.is_some() {
            Step::Done
        } else {
            match self.awaiting {
                Some(w) => Step::Await(w),
                None => Step::NeedDeck,
            }
        }
    }

    /// The match outcome, once [`Step::Done`].
    pub fn result(&self) -> (r: Option<GameResult>)
        ensures
            r == self.finished,
    {
        self.finished
    }

    /// Hands out the next queued protocol line.
    pub fn take_message(&mut self) -> (r: Message)
        requires
            old(self).wf(),
            old(self).outbox@.len() > 0,
        ensures
            final(self).wf(),
            r == old(self).outbox@[0],
            final(self).outbox@ == old(self).outbox@.skip(1),
            *final(self) == (MatchRunner { outbox: final(self).outbox, ..*old(self) }),
    {
        proof {
            assert(old(self).outbox@.remove(0) =~= old(self).outbox@.skip(1));
        }
        self.outbox.remove(0)
    }

    /// Queues the `C` lines of the engine's current reveal phase to
    /// both seats and the `S` line to the acting seat, and awaits that
    /// seat's reply.
    fn prompt(&mut self)
        requires
            old(self).wf_base(),
            old(self).engine is Some,
        ensures
            final(self).wf(),
            final(self).engine == old(self).engine,
            *final(self) == (MatchRunner {
                last_phase: final(self).last_phase,
                outbox: final(self).outbox,
                awaiting: final(self).awaiting,
                ..*old(self)
            }),
            ({
                let g = old(self).engine->0;
                let changed = old(self).last_phase != Some(g.round);
                let n = old(self).outbox@.len() as int;
                &&& final(self).awaiting == Some(old(self).spec_actor(g))
                &&& final(self).last_phase == Some(g.round)
                &&& (changed ==> final(self).outbox@.len() == n + 3 && msg_is(
                    final(self).outbox@[n],
                    WhichBot::Defender,
                    spec_cards_chars(old(self).spec_bot_cards(g, WhichBot::Defender)),
                ) && msg_is(
                    final(self).outbox@[n + 1],
                    WhichBot::Challenger,
                    spec_cards_chars(old(self).spec_bot_cards(g, WhichBot::Challenger)),
                ) && msg_is(
                    final(self).outbox@[n + 2],
                    old(self).spec_actor(g),
                    spec_status_chars(
                        g.target_push as int,
                        g.pushed0 as int,
                        g.pushed1 as int,
                        g.stack0 as int,
                        g.stack1 as int,
                    ),
                ))
                &&& (!changed ==> final(self).outbox@.len() == n + 1 && msg_is(
                    final(self).outbox@[n],
                    old(self).spec_actor(g),
                    spec_status_chars(
                        g.target_push as int,
                        g.pushed0 as int,
                        g.pushed1 as int,
                        g.stack0 as int,
                        g.stack1 as int,
                    ),
                ))
                &&& final(self).outbox@.subrange(0, n) == old(self).outbox@
            }),
    {
        let ghost pre = *old(self);
        let (phase, s_line, actor, cards_a, cards_b, changed): (
            u32,
            String,
            WhichBot,
            Vec<Card>,
            Vec<Card>,
            bool,
        ) = match &self.engine {
            Some(g) => {
                let phase = g.round;
                let s_line = status_line(g.target_push, g.pushed0, g.pushed1, g.stack0, g.stack1);
                let actor_seat: usize = if g.turn == 0 {
                    self.button
                } else {
                    1 - self.button
                };
                let actor = WhichBot::from_index(actor_seat);
                let changed = match self.last_phase {
                    Some(p) => p != g.round,
                    None => true,
                };
                let cards_a = Self::bot_cards_of(g, self.button == 0);
                let cards_b = Self::bot_cards_of(g, self.button != 0);
                (phase, s_line, actor, cards_a, cards_b, changed)
            },
            None => {
                proof {
                    assert(false);
                }
                unreached()
            },
        };
        proof {
            let g = pre.engine->0;
            assert(actor == pre.spec_actor(g));
            assert(cards_a@ == pre.spec_bot_cards(g, WhichBot::Defender));
            assert(cards_b@ == pre.spec_bot_cards(g, WhichBot::Challenger));
        }
        if changed {
            let line_a = cards_line(&cards_a);
            let line_b = cards_line(&cards_b);
            self.outbox.push(Message { to: WhichBot::Defender, line: line_a });
            self.outbox.push(Message { to: WhichBot::Challenger, line: line_b });
        }
        self.outbox.push(Message { to: actor, line: s_line });
        self.last_phase = Some(phase);
        self.awaiting = Some(actor);
        proof {
            let n = pre.outbox@.len() as int;
            assert(final(self).outbox@.subrange(0, n) =~= pre.outbox@);
        }
    }

    /// Deals the next round from a freshly shuffled deck and queues the
    /// opening messages: each seat's `P` line, both `C` lines of the
    /// preflop, and the `S` line to the button seat, which acts first.
    pub fn begin_round(&mut self, deck: &Vec<Card>)
        requires
            old(self).wf(),
            old(self).finished is None,
            old(self).engine is None,
            old(self).outbox@.len() == 0,
            deck@.len() == 52,
            forall|i: int| 0 <= i < 52 ==> (#[trigger] deck@[i]).wf(),
        ensures
            final(self).wf(),
            final(self).finished is None,
            *final(self) == (MatchRunner {
                engine: final(self).engine,
                last_phase: final(self).last_phase,
                outbox: final(self).outbox,
                awaiting: final(self).awaiting,
                ..*old(self)
            }),
            final(self).engine matches Some(g) && g.hole0@ == deck@.subrange(0, 2) && g.hole1@
                == deck@.subrange(2, 4) && g.board@ == deck@.subrange(4, 9) && g.round == 0
                && g.turn == 0 && !g.over,
            final(self).outbox@.len() == 5,
            msg_is(
                final(self).outbox@[0],
                WhichBot::Defender,
                spec_position_chars(old(self).button as int),
            ),
            msg_is(
                final(self).outbox@[1],
                WhichBot::Challenger,
                spec_position_chars(1 - old(self).button as int),
            ),
            ({
                let g = final(self).engine->0;
                &&& msg_is(
                    final(self).outbox@[2],
                    WhichBot::Defender,
                    spec_cards_chars(old(self).spec_bot_cards(g, WhichBot::Defender)),
                )
                &&& msg_is(
                    final(self).outbox@[3],
                    WhichBot::Challenger,
                    spec_cards_chars(old(self).spec_bot_cards(g, WhichBot::Challenger)),
                )
                &&& msg_is(
                    final(self).outbox@[4],
                    old(self).spec_actor(g),
                    spec_status_chars(
                        g.target_push as int,
                        g.pushed0 as int,
                        g.pushed1 as int,
                        g.stack0 as int,
                        g.stack1 as int,
                    ),
                )
                &&& final(self).awaiting == Some(old(self).spec_actor(g))
            }),
    {
        let (s0, s1) = if self.button == 0 {
            (self.stack_a, self.stack_b)
        } else {
            (self.stack_b, self.stack_a)
        };
        let g = GameState::new(s0, s1, deck);
        let p_a = position_line(self.button as u32);
        let p_b = position_line((1 - self.button) as u32);
        self.outbox.push(Message { to: WhichBot::Defender, line: p_a });
        self.outbox.push(Message { to: WhichBot::Challenger, line: p_b });
        self.engine = Some(g);
        self.last_phase = None;
        let ghost mid = *self;
        self.prompt();
        proof {
            assert(self.outbox@.subrange(0, 2)[0] == self.outbox@[0]);
            assert(self.outbox@.subrange(0, 2)[1] == self.outbox@[1]);
            assert(mid.outbox@[0] == self.outbox@[0]);
            assert(mid.outbox@[1] == self.outbox@[1]);
        }
    }

    /// Closes the match with error `e`: no further protocol messages
    /// will be sent and nothing is awaited.
    fn fail(&mut self, e: GameError)
        requires
            old(self).wf_base(),
        ensures
            final(self).wf(),
            final(self).finished == Some(Err::<GameStatus, GameError>(e)),
            final(self).outbox@.len() == 0,
            final(self).spec_step() == Step::Done,
            *final(self) == (MatchRunner {
                engine: final(self).engine,
                last_phase: final(self).last_phase,
                outbox: final(self).outbox,
                awaiting: final(self).awaiting,
                finished: final(self).finished,
                ..*old(self)
            }),
    {
        self.engine = None;
        self.last_phase = None;
        self.awaiting = None;
        self.outbox.clear();
        self.finished = Some(Err(e));
    }

    /// Ends the round `g` concluded: refreshes the stacks from the
    /// engine, queues the `E` lines, flips the button, and closes the
    /// match once the configured rounds are played or a stack is empty.
    fn end_round(&mut self, g: GameState)
        requires
            old(self).wf_base(),
            old(self).engine is None,
            old(self).finished is None,
            old(self).round_index < old(self).rounds,
            g.wf(),
            g.over,
            g.total() == old(self).initial_stack_a + old(self).initial_stack_b,
        ensures
            final(self).wf(),
            final(self).round_index == old(self).round_index + 1,
            final(self).button == 1 - old(self).button,
            final(self).stack_a as int == g.stack_of(
                if old(self).button == 0 {
                    0int
                } else {
                    1int
                },
            ),
            final(self).stack_b as int == g.stack_of(
                if old(self).button == 0 {
                    1int
                } else {
                    0int
                },
            ),
            final(self).outbox@.len() == old(self).outbox@.len() + 2,
            final(self).outbox@.subrange(0, old(self).outbox@.len() as int) == old(self).outbox@,
            msg_is(final(self).outbox@[old(self).outbox@.len() as int], WhichBot::Defender, seq!['E']),
            msg_is(
                final(self).outbox@[old(self).outbox@.len() as int + 1],
                WhichBot::Challenger,
                seq!['E'],
            ),
            final(self).engine is None,
            final(self).awaiting is None,
            final(self).finished == if final(self).round_index == final(self).rounds
                || final(self).stack_a == 0 || final(self).stack_b == 0 {
                Some(Ok::<GameStatus, GameError>(
                    GameStatus::ScoreChanged(
                        (final(self).stack_a - old(self).initial_stack_a) as i32,
                    ),
                ))
            } else {
                None::<GameResult>
            },
            *final(self) == (MatchRunner {
                stack_a: final(self).stack_a,
                stack_b: final(self).stack_b,
                button: final(self).button,
                round_index: final(self).round_index,
                last_phase: final(self).last_phase,
                outbox: final(self).outbox,
                awaiting: final(self).awaiting,
                finished: final(self).finished,
                ..*old(self)
            }),
    {
        let ghost pre = *old(self);
        proof {
            g.lemma_round_chip_conservation();
        }
        let (sa, sb) = if self.button == 0 {
            (g.get_stack(false), g.get_stack(true))
        } else {
            (g.get_stack(true), g.get_stack(false))
        };
        self.stack_a = sa;
        self.stack_b = sb;
        let e_a = round_end_line();
        let e_b = round_end_line();
        self.outbox.push(Message { to: WhichBot::Defender, line: e_a });
        self.outbox.push(Message { to: WhichBot::Challenger, line: e_b });
        self.engine = None;
        self.last_phase = None;
        self.awaiting = None;
        self.round_index = self.round_index + 1;
        self.button = 1 - self.button;
        proof {
            assert(self.button == self.round_index % 2) by {
                assert(pre.button == pre.round_index % 2);
                assert(self.round_index == pre.round_index + 1);
            }
            assert(self.outbox@.subrange(0, pre.outbox@.len() as int) =~= pre.outbox@);
        }
        if self.round_index == self.rounds || self.stack_a == 0 || self.stack_b == 0 {
            let delta = self.stack_a as i64 - self.initial_stack_a as i64;
            self.finished = Some(Ok(GameStatus::ScoreChanged(delta as i32)));
        }
    }

    /// Feeds the awaited seat's reply line into the round.  The line is
    /// trimmed of surrounding whitespace and parsed; a line outside the
    /// grammar, or an action the engine rejects, ends the match with
    /// `InvalidActionError` for that seat.  A legal action advances the
    /// engine: if the round concluded, the stacks are refreshed, `E`
    /// goes to both seats and the match may close; otherwise the next
    /// prompt is queued and the new acting seat awaited.
    pub fn on_line(&mut self, line: &str)
        requires
            old(self).wf(),
            old(self).awaiting is Some,
            old(self).outbox@.len() == 0,
        ensures
            final(self).wf(),
            ({
                let seat = old(self).awaiting->0;
                let g = old(self).engine->0;
                let parsed = spec_parse_action(spec_trim(line@));
                &&& (parsed is None || !g.spec_action_legal(parsed->0) ==> final(self).finished
                    == Some(Err::<GameStatus, GameError>(GameError::InvalidActionError(seat)))
                    && final(self).spec_step() == Step::Done)
                &&& (parsed is Some && g.spec_action_legal(parsed->0) ==> {
                    let g2 = g.spec_post_action(parsed->0);
                    &&& (g2.over ==> final(self).engine is None && final(self).round_index
                        == old(self).round_index + 1 && final(self).button == 1 - old(self).button
                        && final(self).outbox@.len() == 2 && (final(self).finished
                        == if final(self).round_index == final(self).rounds
                        || final(self).stack_a == 0 || final(self).stack_b == 0 {
                        Some(Ok::<GameStatus, GameError>(
                            GameStatus::ScoreChanged(
                                (final(self).stack_a - old(self).initial_stack_a) as i32,
                            ),
                        ))
                    } else {
                        None::<GameResult>
                    }))
                    &&& (!g2.over ==> final(self).engine == Some(g2) && final(self).awaiting
                        == Some(old(self).spec_actor(g2)) && final(self).finished is None)
                })
            }),
    {
        let seat = match self.awaiting {
            Some(w) => w,
            None => {
                proof {
                    assert(false);
                }
                unreached()
            },
        };
        self.awaiting = None;
        let trimmed = trim_line(line);
        match parse_action(trimmed) {
            Err(_) => {
                self.fail(GameError::InvalidActionError(seat));
            },
            Ok(a) => {
                let g = match self.engine.take() {
                    Some(g) => g,
                    None => {
                        proof {
                            assert(false);
                        }
                        unreached()
                    },
                };
                match g.post_action(a) {
                    Err(_) => {
                        self.fail(GameError::InvalidActionError(seat));
                    },
                    Ok(g2) => {
                        if g2.round_over() {
                            self.end_round(g2);
                        } else {
                            self.engine = Some(g2);
                            self.prompt();
                        }
                    },
                }
            },
        }
    }

    /// The awaited seat sent nothing within the configured timeout: the
    /// match ends with `TimeoutError` for that seat, and no further
    /// protocol message is sent to either seat.
    pub fn on_timeout(&mut self)
        requires
            old(self).wf(),
            old(self).awaiting is Some,
        ensures
            final(self).wf(),
            final(self).finished == Some(Err::<GameStatus, GameError>(
                GameError::TimeoutError(old(self).awaiting->0),
            )),
            final(self).outbox@.len() == 0,
            final(self).spec_step() == Step::Done,
    {
        let seat = match self.awaiting {
            Some(w) => w,
            None => {
                proof {
                    assert(false);
                }
                unreached()
            },
        };
        self.fail(GameError::TimeoutError(seat));
    }

    /// Reading the awaited seat's reply failed: the match ends with
    /// `RunTimeError` for that seat.
    pub fn on_read_failure(&mut self)
        requires
            old(self).wf(),
            old(self).awaiting is Some,
        ensures
            final(self).wf(),
            final(self).finished == Some(Err::<GameStatus, GameError>(
                GameError::RunTimeError(old(self).awaiting->0),
            )),
            final(self).outbox@.len() == 0,
            final(self).spec_step() == Step::Done,
    {
        let seat = match self.awaiting {
            Some(w) => w,
            None => {
                proof {
                    assert(false);
                }
                unreached()
            },
        };
        self.fail(GameError::RunTimeError(seat));
    }

    /// Writing a line to `seat` failed — its input pipe is gone: the
    /// match ends with `RunTimeError` for that seat.
    pub fn on_send_failure(&mut self, seat: WhichBot)
        requires
            old(self).wf(),
        ensures
            final(self).wf(),
            final(self).finished == Some(Err::<GameStatus, GameError>(
                GameError::RunTimeError(seat),
            )),
            final(self).outbox@.len() == 0,
            final(self).spec_step() == Step::Done,
    {
        self.fail(GameError::RunTimeError(seat));
    }

    /// The button alternates strictly: round `k` (0-based) is always
    /// played with the button at seat `k mod 2`.
    pub proof fn lemma_button_alternates(self)
        requires
            self.wf(),
        ensures
            self.button == self.round_index % 2,
    {
    }

    /// A match of `rounds` rounds plays at most `rounds` rounds, and a
    /// ladder outcome reached strictly earlier means a seat's stack was
    /// empty at a round boundary; the reported delta is the defender's
    /// final stack against its starting stack.
    pub proof fn lemma_rounds_bound(self)
        requires
            self.wf(),
            self.finished matches Some(r) && r matches Ok(s) && s is ScoreChanged,
        ensures
            self.round_index <= self.rounds,
            self.round_index < self.rounds ==> self.stack_a == 0 || self.stack_b == 0,
            self.finished->0->Ok_0->ScoreChanged_0 == self.stack_a - self.initial_stack_a,
    {
    }

    /// Chips are conserved across the whole match: at every state
    /// between rounds the two stacks sum to the two starting stacks.
    pub proof fn lemma_match_chip_conservation(self)
        requires
            self.wf(),
            self.engine is None,
        ensures
            self.stack_a + self.stack_b == self.initial_stack_a + self.initial_stack_b,
    {
    }

    /// The cards a seat is shown: its hole cards, then the revealed
    /// community cards.  `is_button` says whether the seat holds the
    /// button, i.e. is engine seat 0.
    fn bot_cards_of(g: &GameState, is_button: bool) -> (r: Vec<Card>)
        requires
            g.wf(),
        ensures
            r@ == (if is_button {
                g.hole0@
            } else {
                g.hole1@
            }) + g.board@.take(spec_reveal_count(g.round as int)),
    {
        let hole = if is_button {
            &g.hole0
        } else {
            &g.hole1
        };
        let mut v: Vec<Card> = Vec::new();
        v.push(hole[0]);
        v.push(hole[1]);
        let community = g.community_cards();
        let ghost hole_view = if is_button {
            g.hole0@
        } else {
            g.hole1@
        };
        proof {
            assert(v@ =~= hole_view);
        }
        let mut i: usize = 0;
        while i < community.len()
            invariant
                i <= community@.len(),
                v@ =~= hole_view + community@.take(i as int),
            decreases community@.len() - i,
        {
            v.push(community[i]);
            proof {
                assert(v@ =~= hole_view + community@.take(i + 1));
            }
            i = i + 1;
        }
        proof {
            assert(community@.take(community@.len() as int) =~= community@);
        }
        v
    }
}

} // verus!
