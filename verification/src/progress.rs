//! Progress reports: a stage label and a percentage, kept as an exact
//! fraction.

use vstd::prelude::*;

verus! {

/// A percentage: `start + span * done / total`.
#[derive(Clone, Copy, Debug, PartialEq, Eq, Structural)]
pub struct Percent {
    pub start: u8,
    pub span: u8,
    pub done: u64,
    pub total: u64,
}

impl Percent {
    /// The percentage times `total`: a whole number.
    pub open spec fn scaled(self) -> int {
        self.start * self.total + self.span * self.done
    }

    /// `self` is at most `other`.
    pub open spec fn at_most(self, other: Percent) -> bool {
        self.scaled() * other.total <= other.scaled() * self.total
    }

    /// The fraction has a denominator.
    pub open spec fn well_formed(self) -> bool {
        self.total > 0
    }

    /// The percentage `value`.
    pub fn fixed(value: u8) -> (p: Percent)
        ensures
            p == (Percent { start: value, span: 0, done: 0, total: 1 }),
            p.well_formed(),
            p.scaled() == value,
    {
        Percent { start: value, span: 0, done: 0, total: 1 }
    }

    /// The whole part of the percentage, or `u64::MAX` where that is less;
    /// the start where the fraction has no denominator.
    pub fn whole(&self) -> (w: u64)
        ensures
            w == if self.total == 0 {
                self.start as int
            } else if self.scaled() / (self.total as int) <= u64::MAX {
                self.scaled() / (self.total as int)
            } else {
                u64::MAX as int
            },
    {
        if self.total == 0 {
            return self.start as u64;
        }
        assert(self.start * self.total <= 0xff * 0xffff_ffff_ffff_ffff) by (nonlinear_arith)
            requires
                self.start <= 0xff,
                self.total <= 0xffff_ffff_ffff_ffff,
        ;
        assert(self.span * self.done <= 0xff * 0xffff_ffff_ffff_ffff) by (nonlinear_arith)
            requires
                self.span <= 0xff,
                self.done <= 0xffff_ffff_ffff_ffff,
        ;
        let head: u128 = (self.start as u128) * (self.total as u128);
        let tail: u128 = (self.span as u128) * (self.done as u128);
        let numerator: u128 = head + tail;
        let w: u128 = numerator / (self.total as u128);
        if w > u64::MAX as u128 {
            u64::MAX
        } else {
            w as u64
        }
    }
}

/// One progress report: the label of the stage, and how far the whole
/// operation has come.
#[derive(Clone, Debug)]
pub struct ProgressPayload {
    pub message: String,
    pub progress: Percent,
}

/// The mathematical value of a `ProgressPayload`.
pub struct ProgressView {
    pub message: Seq<char>,
    pub progress: Percent,
}

impl View for ProgressPayload {
    type V = ProgressView;

    open spec fn view(&self) -> ProgressView {
        ProgressView { message: self.message@, progress: self.progress }
    }
}

/// The report of the stage `message` at the percentage `value`.
pub open spec fn checkpoint(message: Seq<char>, value: int) -> ProgressView {
    ProgressView {
        message,
        progress: Percent { start: value as u8, span: 0, done: 0, total: 1 },
    }
}

impl ProgressPayload {
    /// The report of the stage `message` at the percentage `value`.
    pub fn at(message: &str, value: u8) -> (p: ProgressPayload)
        ensures
            p@ == checkpoint(message@, value as int),
    {
        ProgressPayload { message: message.to_owned(), progress: Percent::fixed(value) }
    }
}

} // verus!
