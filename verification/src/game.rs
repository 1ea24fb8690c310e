//! The round engine: a deterministic betting state machine for one poker
//! round between two seats.
//!
//! A round is built fresh from the carried-over stacks and a shuffled
//! deck.  Seat 0 of the engine is the button: it posts the small blind
//! (1 chip) and acts first before the flop; seat 1 posts the big blind
//! (2 chips) and acts first on every later street.  `pushed` counts the
//! chips a seat has committed over the whole round; `target_push` is the
//! committed amount a seat must match to stay in.  When betting and the
//! card reveals are exhausted, or a seat folds, the round is over, the
//! pot has been paid out, and both `pushed` amounts are zero again.

use vstd::prelude::*;
use crate::actions::Action;
use crate::cards::Card;
use crate::hands::spec_hand_rank;
use crate::hands::hand_rank;

verus! {

/// Why the engine rejected an action.
#[derive(PartialEq, Eq, Structural, Debug, Clone, Copy)]
pub enum EngineError {
    /// A check while chips are owed to the pot.
    CheckWhileOwing,
    /// A raise that does not strictly exceed the current target.
    RaiseTooSmall,
    /// A raise beyond the acting seat's remaining chips.
    RaiseOverStack,
}

/// The state of one round.
pub struct GameState {
    /// Chips seat 0 still holds.
    pub stack0: u32,
    /// Chips seat 1 still holds.
    pub stack1: u32,
    /// Chips seat 0 has committed this round.
    pub pushed0: u32,
    /// Chips seat 1 has committed this round.
    pub pushed1: u32,
    /// The committed amount a seat must match to stay in.
    pub target_push: u32,
    /// Seat 0's two hole cards.
    pub hole0: Vec<Card>,
    /// Seat 1's two hole cards.
    pub hole1: Vec<Card>,
    /// The five community cards, revealed street by street.
    pub board: Vec<Card>,
    /// The card-reveal phase: 0 preflop, 1 flop, 2 turn, 3 river.
    pub round: u32,
    /// Whether the round has concluded and the pot is paid out.
    pub over: bool,
    /// The seat to act, meaningful while the round is not over.
    pub turn: usize,
    /// Whether seat 0 has acted on the current street.
    pub acted0: bool,
    /// Whether seat 1 has acted on the current street.
    pub acted1: bool,
}

/// How many community cards are revealed in phase `round`.
pub open spec fn spec_reveal_count(round: int) -> int {
    if round == 0 {
        0
    } else if round == 1 {
        3
    } else if round == 2 {
        4
    } else {
        5
    }
}

impl GameState {
    /// The chips seat `i` still holds.
    pub open spec fn stack_of(self, i: int) -> int {
        if i == 0 {
            self.stack0 as int
        } else {
            self.stack1 as int
        }
    }

    /// The chips seat `i` has committed this round.
    pub open spec fn pushed_of(self, i: int) -> int {
        if i == 0 {
            self.pushed0 as int
        } else {
            self.pushed1 as int
        }
    }

    /// Whether seat `i` has acted on the current street.
    pub open spec fn acted_of(self, i: int) -> bool {
        if i == 0 {
            self.acted0
        } else {
            self.acted1
        }
    }

    /// Seat `i`'s hole cards.
    pub open spec fn hole_of(self, i: int) -> Seq<Card> {
        if i == 0 {
            self.hole0@
        } else {
            self.hole1@
        }
    }

    /// All chips in the round: both stacks and both committed amounts.
    /// Every transition preserves this sum.
    pub open spec fn total(self) -> int {
        self.stack0 + self.pushed0 + self.stack1 + self.pushed1
    }

    /// The chips the acting seat must still put in to match the target.
    pub open spec fn owed(self) -> int {
        self.target_push - self.pushed_of(self.turn as int)
    }

    /// The showdown rank of seat `i`: its hole cards with all five
    /// community cards.
    pub open spec fn rank_of(self, i: int) -> int {
        spec_hand_rank(self.hole_of(i) + self.board@)
    }

    /// Well-formedness: card counts, seat and phase bounds, the target
    /// as the larger committed amount, a paid-out pot once over, and a
    /// chip total that fits the chip type.
    pub open spec fn wf(self) -> bool {
        &&& self.hole0@.len() == 2
        &&& self.hole1@.len() == 2
        &&& self.board@.len() == 5
        &&& (forall|i: int| 0 <= i < 2 ==> (#[trigger] self.hole0@[i]).wf())
        &&& (forall|i: int| 0 <= i < 2 ==> (#[trigger] self.hole1@[i]).wf())
        &&& (forall|i: int| 0 <= i < 5 ==> (#[trigger] self.board@[i]).wf())
        &&& self.turn <= 1
        &&& self.round <= 3
        &&& self.target_push == if self.pushed0 >= self.pushed1 {
            self.pushed0
        } else {
            self.pushed1
        }
        &&& (self.over ==> self.pushed0 == 0 && self.pushed1 == 0)
        &&& self.total() <= u32::MAX
    }

    /// Whether the engine accepts action `a` in this state.
    pub open spec fn spec_action_legal(self, a: Action) -> bool {
        match a {
            Action::Check => self.owed() == 0,
            Action::Call => true,
            Action::Fold => true,
            Action::Raise { amt } => amt > self.target_push && amt - self.pushed_of(
                self.turn as int,
            ) <= self.stack_of(self.turn as int),
        }
    }

    /// The error returned for an illegal action `a`.
    pub open spec fn spec_action_error(self, a: Action) -> EngineError {
        match a {
            Action::Raise { amt } => if amt <= self.target_push {
                EngineError::RaiseTooSmall
            } else {
                EngineError::RaiseOverStack
            },
            _ => EngineError::CheckWhileOwing,
        }
    }

    /// This state with seat `i`'s stack, committed chips and acted flag
    /// replaced.
    pub open spec fn set_seat(self, i: int, stack: int, pushed: int, acted: bool) -> GameState {
        if i == 0 {
            GameState { stack0: stack as u32, pushed0: pushed as u32, acted0: acted, ..self }
        } else {
            GameState { stack1: stack as u32, pushed1: pushed as u32, acted1: acted, ..self }
        }
    }

    /// The showdown: the better hand takes the whole pot; equal hands
    /// take their own stakes back (the stakes are equal whenever the
    /// showdown is reached, so this is an even split of the pot).
    pub open spec fn spec_showdown(self) -> GameState {
        let r0 = self.rank_of(0);
        let r1 = self.rank_of(1);
        let pot = self.pushed0 + self.pushed1;
        let stack0 = if r0 > r1 {
            self.stack0 + pot
        } else if r1 > r0 {
            self.stack0 as int
        } else {
            self.stack0 + self.pushed0
        };
        let stack1 = if r1 > r0 {
            self.stack1 + pot
        } else if r0 > r1 {
            self.stack1 as int
        } else {
            self.stack1 + self.pushed1
        };
        GameState {
            stack0: stack0 as u32,
            stack1: stack1 as u32,
            pushed0: 0,
            pushed1: 0,
            target_push: 0,
            over: true,
            ..self
        }
    }

    /// The end of a betting street: the showdown if the river is done
    /// or a seat is out of chips, else the next street with the acted
    /// flags cleared and seat 1 first to act.
    pub open spec fn spec_street_done(self) -> GameState {
        if self.round == 3 || self.stack0 == 0 || self.stack1 == 0 {
            self.spec_showdown()
        } else {
            GameState {
                round: (self.round + 1) as u32,
                acted0: false,
                acted1: false,
                turn: 1,
                ..self
            }
        }
    }

    /// After the acting seat evened the committed amounts (or checked
    /// with nothing owed): the street ends once both seats have acted
    /// and match, else the turn passes.
    pub open spec fn spec_pass_or_close(self, o: int) -> GameState {
        if self.acted_of(o) && self.pushed0 == self.pushed1 {
            self.spec_street_done()
        } else {
            GameState { turn: o as usize, ..self }
        }
    }

    /// A check: the acting seat has acted; the street may close.
    pub open spec fn spec_check(self) -> GameState {
        let t = self.turn as int;
        let o = 1 - t;
        self.set_seat(t, self.stack_of(t), self.pushed_of(t), true).spec_pass_or_close(o)
    }

    /// A call: the acting seat matches the target, capped at its stack.
    /// A capped call is an all-in; the opponent's unmatched surplus goes
    /// back to its stack and the round runs straight to the showdown.
    pub open spec fn spec_call(self) -> GameState {
        let t = self.turn as int;
        let o = 1 - t;
        let owe = self.owed();
        if self.stack_of(t) < owe {
            let pay = self.stack_of(t);
            let matched = self.pushed_of(t) + pay;
            let surplus = self.pushed_of(o) - matched;
            let even = self.set_seat(t, 0, matched, true).set_seat(
                o,
                self.stack_of(o) + surplus,
                matched,
                self.acted_of(o),
            );
            GameState { target_push: matched as u32, ..even }.spec_showdown()
        } else {
            self.set_seat(
                t,
                self.stack_of(t) - owe,
                self.target_push as int,
                true,
            ).spec_pass_or_close(o)
        }
    }

    /// A raise to a committed total of `amt`: the target moves up and
    /// the opponent is to act.
    pub open spec fn spec_raise(self, amt: int) -> GameState {
        let t = self.turn as int;
        let o = 1 - t;
        let put = amt - self.pushed_of(t);
        let raised = self.set_seat(t, self.stack_of(t) - put, amt, true);
        GameState { target_push: amt as u32, turn: o as usize, ..raised }
    }

    /// A fold: the other seat takes the whole pot and the round is over.
    pub open spec fn spec_fold(self) -> GameState {
        let t = self.turn as int;
        let o = 1 - t;
        let pot = self.pushed0 + self.pushed1;
        let won = self.set_seat(o, self.stack_of(o) + pot, 0, self.acted_of(o)).set_seat(
            t,
            self.stack_of(t),
            0,
            true,
        );
        GameState { target_push: 0, over: true, ..won }
    }

    /// The transition a legal action makes.
    pub open spec fn spec_post_action(self, a: Action) -> GameState {
        match a {
            Action::Check => self.spec_check(),
            Action::Call => self.spec_call(),
            Action::Fold => self.spec_fold(),
            Action::Raise { amt } => self.spec_raise(amt as int),
        }
    }

    /// The card and bound conditions of [`GameState::wf`] that no
    /// transition touches.
    pub open spec fn cards_wf(self) -> bool {
        &&& self.hole0@.len() == 2
        &&& self.hole1@.len() == 2
        &&& self.board@.len() == 5
        &&& (forall|i: int| 0 <= i < 2 ==> (#[trigger] self.hole0@[i]).wf())
        &&& (forall|i: int| 0 <= i < 2 ==> (#[trigger] self.hole1@[i]).wf())
        &&& (forall|i: int| 0 <= i < 5 ==> (#[trigger] self.board@[i]).wf())
        &&& self.turn <= 1
        &&& self.round <= 3
    }

    /// Deals a fresh round from the carried-over stacks and a shuffled
    /// deck: two hole cards to each seat and five community cards, then
    /// the blinds.  Seat 0, the button, posts 1 chip; seat 1 posts 2,
    /// capped at its stack; seat 0 acts first.
    pub fn new(stack0: u32, stack1: u32, deck: &Vec<Card>) -> (r: GameState)
        requires
            1 <= stack0,
            1 <= stack1,
            stack0 + stack1 <= u32::MAX,
            deck@.len() == 52,
            forall|i: int| 0 <= i < 52 ==> (#[trigger] deck@[i]).wf(),
        ensures
            r.wf(),
            !r.over,
            r.total() == stack0 + stack1,
            r.round == 0,
            r.turn == 0,
            r.acted0 == false,
            r.acted1 == false,
            r.hole0@ == deck@.subrange(0, 2),
            r.hole1@ == deck@.subrange(2, 4),
            r.board@ == deck@.subrange(4, 9),
            r.pushed0 == 1,
            r.pushed1 == if stack1 >= 2 {
                2int
            } else {
                stack1 as int
            },
            r.stack0 == stack0 - 1,
            r.stack1 == stack1 as int - r.pushed1 as int,
            r.target_push == if r.pushed0 >= r.pushed1 {
                r.pushed0
            } else {
                r.pushed1
            },
    {
        let mut hole0: Vec<Card> = Vec::new();
        hole0.push(deck[0]);
        hole0.push(deck[1]);
        let mut hole1: Vec<Card> = Vec::new();
        hole1.push(deck[2]);
        hole1.push(deck[3]);
        let mut board: Vec<Card> = Vec::new();
        board.push(deck[4]);
        board.push(deck[5]);
        board.push(deck[6]);
        board.push(deck[7]);
        board.push(deck[8]);
        proof {
            assert(hole0@ =~= deck@.subrange(0, 2));
            assert(hole1@ =~= deck@.subrange(2, 4));
            assert(board@ =~= deck@.subrange(4, 9));
        }
        let small: u32 = 1;
        let big: u32 = if stack1 >= 2 {
            2
        } else {
            stack1
        };
        let target: u32 = if small >= big {
            small
        } else {
            big
        };
        GameState {
            stack0: stack0 - small,
            stack1: stack1 - big,
            pushed0: small,
            pushed1: big,
            target_push: target,
            hole0,
            hole1,
            board,
            round: 0,
            over: false,
            turn: 0,
            acted0: false,
            acted1: false,
        }
    }

    /// The seat required to act next, or `None` once the round is over.
    pub fn whose_turn(&self) -> (r: Option<usize>)
        ensures
            r == if self.over {
                None::<usize>
            } else {
                Some(self.turn)
            },
    {
        if self.over {
            None
        } else {
            Some(self.turn)
        }
    }

    /// Whether the round has concluded.
    pub fn round_over(&self) -> (r: bool)
        ensures
            r == self.over,
    {
        self.over
    }

    /// The remaining chips of engine seat 1 (`true`) or seat 0
    /// (`false`).
    pub fn get_stack(&self, seat1: bool) -> (r: u32)
        ensures
            r as int == self.stack_of(if seat1 {
                1int
            } else {
                0int
            }),
    {
        if seat1 {
            self.stack1
        } else {
            self.stack0
        }
    }

    /// The community cards revealed so far: none before the flop, then
    /// three, four and five.
    pub fn community_cards(&self) -> (r: Vec<Card>)
        requires
            self.board@.len() == 5,
        ensures
            r@ == self.board@.take(spec_reveal_count(self.round as int)),
    {
        let n: usize = if self.round == 0 {
            0
        } else if self.round == 1 {
            3
        } else if self.round == 2 {
            4
        } else {
            5
        };
        let mut v: Vec<Card> = Vec::new();
        let mut i: usize = 0;
        while i < n
            invariant
                i <= n <= 5,
                self.board@.len() == 5,
                v@ =~= self.board@.take(i as int),
            decreases n - i,
        {
            v.push(self.board[i]);
            proof {
                assert(v@ =~= self.board@.take(i + 1));
            }
            i = i + 1;
        }
        proof {
            assert(v@ =~= self.board@.take(spec_reveal_count(self.round as int)));
        }
        v
    }

    /// Pays out the pot by hand rank and closes the round.
    fn do_showdown(self) -> (r: GameState)
        requires
            self.cards_wf(),
            self.total() <= u32::MAX,
        ensures
            r == self.spec_showdown(),
            r.total() == self.total(),
            r.wf(),
    {
        let mut seven0: Vec<Card> = Vec::new();
        let mut i: usize = 0;
        while i < 2
            invariant
                i <= 2,
                self.hole0@.len() == 2,
                self.board@.len() == 5,
                seven0@ =~= self.hole0@.take(i as int),
            decreases 2 - i,
        {
            seven0.push(self.hole0[i]);
            proof {
                assert(seven0@ =~= self.hole0@.take(i + 1));
            }
            i = i + 1;
        }
        let mut j: usize = 0;
        while j < 5
            invariant
                j <= 5,
                self.hole0@.len() == 2,
                self.board@.len() == 5,
                seven0@ =~= self.hole0@ + self.board@.take(j as int),
            decreases 5 - j,
        {
            seven0.push(self.board[j]);
            proof {
                assert(seven0@ =~= self.hole0@ + self.board@.take(j + 1));
            }
            j = j + 1;
        }
        let mut seven1: Vec<Card> = Vec::new();
        let mut i1: usize = 0;
        while i1 < 2
            invariant
                i1 <= 2,
                self.hole1@.len() == 2,
                self.board@.len() == 5,
                seven1@ =~= self.hole1@.take(i1 as int),
            decreases 2 - i1,
        {
            seven1.push(self.hole1[i1]);
            proof {
                assert(seven1@ =~= self.hole1@.take(i1 + 1));
            }
            i1 = i1 + 1;
        }
        let mut j1: usize = 0;
        while j1 < 5
            invariant
                j1 <= 5,
                self.hole1@.len() == 2,
                self.board@.len() == 5,
                seven1@ =~= self.hole1@ + self.board@.take(j1 as int),
            decreases 5 - j1,
        {
            seven1.push(self.board[j1]);
            proof {
                assert(seven1@ =~= self.hole1@ + self.board@.take(j1 + 1));
            }
            j1 = j1 + 1;
        }
        proof {
            assert(seven0@ =~= self.hole0@ + self.board@);
            assert(seven1@ =~= self.hole1@ + self.board@);
        }
        let r0 = hand_rank(&seven0);
        let r1 = hand_rank(&seven1);
        let pot = self.pushed0 + self.pushed1;
        let mut st = self;
        if r0 > r1 {
            st.stack0 = st.stack0 + pot;
        } else if r1 > r0 {
            st.stack1 = st.stack1 + pot;
        } else {
            st.stack0 = st.stack0 + st.pushed0;
            st.stack1 = st.stack1 + st.pushed1;
        }
        st.pushed0 = 0;
        st.pushed1 = 0;
        st.target_push = 0;
        st.over = true;
        st
    }

    /// Closes a street: the showdown, or the next card reveal.
    fn do_street_done(self) -> (r: GameState)
        requires
            self.cards_wf(),
            self.total() <= u32::MAX,
            !self.over,
        ensures
            r == self.spec_street_done(),
            r.total() == self.total(),
            self.round <= r.round,
            (!r.over ==> r.cards_wf() && r.pushed0 == self.pushed0 && r.pushed1 == self.pushed1
                && r.stack0 == self.stack0 && r.stack1 == self.stack1 && r.target_push
                == self.target_push),
            (r.over ==> r.wf()),
    {
        if self.round == 3 || self.stack0 == 0 || self.stack1 == 0 {
            self.do_showdown()
        } else {
            let mut st = self;
            st.round = st.round + 1;
            st.acted0 = false;
            st.acted1 = false;
            st.turn = 1;
            st
        }
    }

    /// Applies one action of the acting seat.  A legal action yields the
    /// next state, exactly [`GameState::spec_post_action`]; an illegal
    /// one is rejected with the reason and changes nothing.  Every
    /// accepted action preserves the chip total, and once the round is
    /// over both committed amounts are zero again, so the two stacks
    /// carry the whole total.
    pub fn post_action(self, a: Action) -> (r: Result<GameState, EngineError>)
        requires
            self.wf(),
            !self.over,
        ensures
            r is Ok <==> self.spec_action_legal(a),
            r matches Ok(st) ==> st == self.spec_post_action(a) && st.wf() && st.total()
                == self.total() && self.round <= st.round && st.hole0@ == self.hole0@ && st.hole1@
                == self.hole1@ && st.board@ == self.board@,
            r matches Err(e) ==> e == self.spec_action_error(a),
    {
        let t = self.turn;
        let pushed_t = if t == 0 {
            self.pushed0
        } else {
            self.pushed1
        };
        let stack_t = if t == 0 {
            self.stack0
        } else {
            self.stack1
        };
        let owe = self.target_push - pushed_t;
        match a {
            Action::Check => {
                if owe != 0 {
                    Err(EngineError::CheckWhileOwing)
                } else {
                    let mut st = self;
                    if t == 0 {
                        st.acted0 = true;
                    } else {
                        st.acted1 = true;
                    }
                    Ok(st.pass_or_close())
                }
            },
            Action::Call => {
                if stack_t < owe {
                    let matched = pushed_t + stack_t;
                    let mut st = self;
                    proof {
                        assert(self.pushed_of(1 - t as int) == self.target_push);
                    }
                    if t == 0 {
                        let surplus = st.pushed1 - matched;
                        st.stack0 = 0;
                        st.pushed0 = matched;
                        st.acted0 = true;
                        st.stack1 = st.stack1 + surplus;
                        st.pushed1 = matched;
                    } else {
                        let surplus = st.pushed0 - matched;
                        st.stack1 = 0;
                        st.pushed1 = matched;
                        st.acted1 = true;
                        st.stack0 = st.stack0 + surplus;
                        st.pushed0 = matched;
                    }
                    st.target_push = matched;
                    Ok(st.do_showdown())
                } else {
                    let mut st = self;
                    if t == 0 {
                        st.stack0 = st.stack0 - owe;
                        st.pushed0 = st.target_push;
                        st.acted0 = true;
                    } else {
                        st.stack1 = st.stack1 - owe;
                        st.pushed1 = st.target_push;
                        st.acted1 = true;
                    }
                    Ok(st.pass_or_close())
                }
            },
            Action::Fold => {
                let pot = self.pushed0 + self.pushed1;
                let mut st = self;
                if t == 0 {
                    st.stack1 = st.stack1 + pot;
                } else {
                    st.stack0 = st.stack0 + pot;
                }
                st.pushed0 = 0;
                st.pushed1 = 0;
                if t == 0 {
                    st.acted0 = true;
                } else {
                    st.acted1 = true;
                }
                st.target_push = 0;
                st.over = true;
                Ok(st)
            },
            Action::Raise { amt } => {
                if amt <= self.target_push {
                    Err(EngineError::RaiseTooSmall)
                } else {
                    let put = amt - pushed_t;
                    if put > stack_t {
                        Err(EngineError::RaiseOverStack)
                    } else {
                        let mut st = self;
                        if t == 0 {
                            st.stack0 = st.stack0 - put;
                            st.pushed0 = amt;
                            st.acted0 = true;
                            st.turn = 1;
                        } else {
                            st.stack1 = st.stack1 - put;
                            st.pushed1 = amt;
                            st.acted1 = true;
                            st.turn = 0;
                        }
                        st.target_push = amt;
                        Ok(st)
                    }
                }
            },
        }
    }

    /// Ends the street if both seats have acted and match, else passes
    /// the turn.
    fn pass_or_close(self) -> (r: GameState)
        requires
            self.cards_wf(),
            self.total() <= u32::MAX,
            !self.over,
        ensures
            r == self.spec_pass_or_close(1 - self.turn as int),
            r.total() == self.total(),
            self.round <= r.round,
            (!r.over ==> r.cards_wf() && r.pushed0 == self.pushed0 && r.pushed1 == self.pushed1
                && r.stack0 == self.stack0 && r.stack1 == self.stack1 && r.target_push
                == self.target_push),
            (r.over ==> r.wf()),
    {
        let o = 1 - self.turn;
        let acted_o = if o == 0 {
            self.acted0
        } else {
            self.acted1
        };
        if acted_o && self.pushed0 == self.pushed1 {
            self.do_street_done()
        } else {
            let mut st = self;
            st.turn = o;
            st
        }
    }

    /// Chip conservation at the end of a round: once a round built by
    /// [`GameState::new`] and driven by [`GameState::post_action`] is
    /// over, the two stacks alone carry the round's whole chip total,
    /// which both of those operations preserve — no chips are created
    /// or destroyed by a completed round.
    pub proof fn lemma_round_chip_conservation(self)
        requires
            self.wf(),
            self.over,
        ensures
            self.stack0 + self.stack1 == self.total(),
    {
    }
}

/// The state a sequence of actions drives a round to, first action
/// first.
pub open spec fn spec_apply_actions(s: GameState, acts: Seq<Action>) -> GameState
    decreases acts.len(),
{
    if acts.len() == 0 {
        s
    } else {
        spec_apply_actions(s.spec_post_action(acts[0]), acts.skip(1))
    }
}

/// Whether each action of the sequence is legal when its turn comes,
/// and none arrives after the round is over.
pub open spec fn spec_actions_legal(s: GameState, acts: Seq<Action>) -> bool
    decreases acts.len(),
{
    acts.len() == 0 || (!s.over && s.spec_action_legal(acts[0]) && spec_actions_legal(
        s.spec_post_action(acts[0]),
        acts.skip(1),
    ))
}

/// One legal action preserves well-formedness and the chip total.
pub proof fn lemma_post_action_preserves(s: GameState, a: Action)
    requires
        s.wf(),
        !s.over,
        s.spec_action_legal(a),
    ensures
        s.spec_post_action(a).wf(),
        s.spec_post_action(a).total() == s.total(),
{
    if a is Call {
        let t = s.turn as int;
        if s.stack_of(t) < s.owed() {
            assert(s.pushed_of(1 - t) == s.target_push);
        }
    }
}

/// Chip conservation over a whole round: however a round is played —
/// any sequence of legal actions — the chip total never changes, and
/// once the round is over the two stacks alone carry the total the
/// round began with.
pub proof fn lemma_round_conserves_chips(s: GameState, acts: Seq<Action>)
    requires
        s.wf(),
        spec_actions_legal(s, acts),
    ensures
        spec_apply_actions(s, acts).wf(),
        spec_apply_actions(s, acts).total() == s.total(),
        spec_apply_actions(s, acts).over ==> spec_apply_actions(s, acts).stack0
            + spec_apply_actions(s, acts).stack1 == s.total(),
    decreases acts.len(),
{
    if acts.len() > 0 {
        lemma_post_action_preserves(s, acts[0]);
        lemma_round_conserves_chips(s.spec_post_action(acts[0]), acts.skip(1));
    }
}

} // verus!
