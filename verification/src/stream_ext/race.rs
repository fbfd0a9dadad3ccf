use crate::poll::fused;
use crate::poll::fused_done;
use crate::poll::Fuse;
use crate::poll::Poll;
use crate::poll::Step;
use vstd::prelude::*;

verus! {

/// Which side of a race is being followed.
#[derive(Debug, Clone, Copy, PartialEq, Eq)]
pub enum Winner {
    Left,
    Right,
    Undecided,
}

/// The racing operator as plain mathematics.
pub struct RaceState {
    pub winner: Winner,
    /// The left sequence has ended.
    pub left_done: bool,
    /// The right sequence has ended.
    pub right_done: bool,
}

impl RaceState {
    /// The state before anything was polled.
    pub open spec fn initial() -> Self {
        RaceState { winner: Winner::Undecided, left_done: false, right_done: false }
    }

    /// Whether the left sequence is to be polled in this state.
    pub open spec fn polls_left(self) -> bool {
        !(self.winner is Right)
    }

    /// Whether the right sequence is to be polled in this state.
    pub open spec fn polls_right(self) -> bool {
        !(self.winner is Left)
    }

    /// The winner after one round: the first side to have an answer, the
    /// left one if both have; once decided it stays.
    pub open spec fn decided<T>(self, left: Poll<Option<T>>, right: Poll<Option<T>>) -> Winner {
        match self.winner {
            Winner::Undecided => if fused(self.left_done, left) is Ready {
                Winner::Left
            } else if fused(self.right_done, right) is Ready {
                Winner::Right
            } else {
                Winner::Undecided
            },
            decided => decided,
        }
    }

    /// The state after one round. Only the sides that were to be polled
    /// are looked at.
    pub open spec fn after<T>(self, left: Poll<Option<T>>, right: Poll<Option<T>>) -> Self {
        RaceState {
            winner: self.decided(left, right),
            left_done: if self.polls_left() {
                fused_done(self.left_done, left)
            } else {
                self.left_done
            },
            right_done: if self.polls_right() {
                fused_done(self.right_done, right)
            } else {
                self.right_done
            },
        }
    }

    /// What one round hands out: the answer of the side that is followed
    /// after this round.
    pub open spec fn emits<T>(self, left: Poll<Option<T>>, right: Poll<Option<T>>) -> Poll<
        Option<T>,
    > {
        match self.decided(left, right) {
            Winner::Left => fused(self.left_done, left),
            Winner::Right => fused(self.right_done, right),
            Winner::Undecided => Poll::Pending,
        }
    }

    /// Whether the race is over for good.
    pub open spec fn terminated(self) -> bool {
        match self.winner {
            Winner::Left => self.left_done,
            Winner::Right => self.right_done,
            Winner::Undecided => self.left_done && self.right_done,
        }
    }
}

/// Follows whichever of two sequences answers first and never looks at
/// the other one again.
pub struct Race {
    left: Fuse,
    right: Fuse,
    winner: Winner,
}

impl View for Race {
    type V = RaceState;

    closed spec fn view(&self) -> RaceState {
        RaceState { winner: self.winner, left_done: self.left@, right_done: self.right@ }
    }
}

impl Race {
    pub fn new() -> (operator: Self)
        ensures
            operator@ == RaceState::initial(),
    {
        Race { left: Fuse::new(), right: Fuse::new(), winner: Winner::Undecided }
    }

    /// Whether the left sequence is to be polled for the next round.
    pub fn wants_left(&self) -> (wanted: bool)
        ensures
            wanted == self@.polls_left(),
    {
        match self.winner {
            Winner::Right => false,
            _ => true,
        }
    }

    /// Whether the right sequence is to be polled for the next round.
    pub fn wants_right(&self) -> (wanted: bool)
        ensures
            wanted == self@.polls_right(),
    {
        match self.winner {
            Winner::Left => false,
            _ => true,
        }
    }

    /// Whether the race is over for good.
    pub fn is_terminated(&self) -> (done: bool)
        ensures
            done == self@.terminated(),
    {
        match self.winner {
            Winner::Left => self.left.is_terminated(),
            Winner::Right => self.right.is_terminated(),
            Winner::Undecided => self.left.is_terminated() && self.right.is_terminated(),
        }
    }

    /// One round, with what the two sequences answered. The answer of a
    /// side that was not to be polled is not looked at.
    pub fn poll_next<T>(&mut self, left: Poll<Option<T>>, right: Poll<Option<T>>) -> (step: Step<T>)
        ensures
            final(self)@ == old(self)@.after(left, right),
            step == Step::of(old(self)@.emits(left, right)),
    {
        match self.winner {
            Winner::Left => Step::from_poll(self.left.poll_next(left)),
            Winner::Right => Step::from_poll(self.right.poll_next(right)),
            Winner::Undecided => {
                let left = self.left.poll_next(left);
                let right = self.right.poll_next(right);
                if left.is_ready() {
                    self.winner = Winner::Left;
                    Step::from_poll(left)
                } else if right.is_ready() {
                    self.winner = Winner::Right;
                    Step::from_poll(right)
                } else {
                    Step::Wait
                }
            },
        }
    }

    /// Bounds on the number of items still to come, from the bounds on the
    /// two sequences: those of the winner, and before there is one only
    /// the smaller of the lower bounds.
    pub fn size_hint(&self, left: (usize, Option<usize>), right: (usize, Option<usize>)) -> (hint: (
        usize,
        Option<usize>,
    ))
        ensures
            hint == match self@.winner {
                Winner::Left => left,
                Winner::Right => right,
                Winner::Undecided => (
                    if left.0 <= right.0 {
                        left.0
                    } else {
                        right.0
                    },
                    None,
                ),
            },
    {
        match self.winner {
            Winner::Left => left,
            Winner::Right => right,
            Winner::Undecided => {
                let lower: usize = if left.0 <= right.0 {
                    left.0
                } else {
                    right.0
                };
                (lower, None)
            },
        }
    }
}

} // verus!
