//! History of the real-time scrolling graph: the points shown, bounded in
//! number, and cleared whenever the measurement mode changes.

use std::collections::VecDeque;

use vstd::prelude::*;
use vstd::string::StringExecFns;

use crate::text::str_eq;

verus! {

/// Maximum number of points to keep in the history buffer.
pub const MAX_POINTS: usize = 10_000;

/// History of a real-time scrolling graph of measurement values.
///
/// Points are `(elapsed, value)` pairs of the caller's number type.
pub struct Graph<T> {
    /// (elapsed, value) pairs, oldest first.
    pub history: VecDeque<(T, T)>,
    /// The mode string when points were recorded. Cleared on mode change.
    pub current_mode: Option<String>,
}

/// The history after one more point: the oldest point leaves when the
/// history is full.
pub open spec fn after_push<T>(points: Seq<(T, T)>, p: (T, T)) -> Seq<(T, T)> {
    if points.len() >= MAX_POINTS {
        points.drop_first().push(p)
    } else {
        points.push(p)
    }
}

impl<T> Graph<T> {
    /// The recorded points, oldest first.
    pub open spec fn points(&self) -> Seq<(T, T)> {
        self.history@
    }

    /// The text of the mode the points belong to, if any.
    pub open spec fn mode_text(&self) -> Option<Seq<char>> {
        match self.current_mode {
            Some(m) => Some(m@),
            None => None,
        }
    }

    /// The history never holds more than `MAX_POINTS` points.
    pub open spec fn wf(&self) -> bool {
        self.points().len() <= MAX_POINTS
    }

    /// An empty graph with no mode.
    pub fn new() -> (g: Self)
        ensures
            g.wf(),
            g.points() == Seq::<(T, T)>::empty(),
            g.current_mode is None,
    {
        Self { history: VecDeque::with_capacity(MAX_POINTS), current_mode: None }
    }

    /// Push a new data point. If mode changed, clear history first; when the
    /// history is full, the oldest point is dropped.
    pub fn push(&mut self, elapsed_secs: T, value: T, mode: &str)
        requires
            old(self).wf(),
        ensures
            final(self).wf(),
            final(self).mode_text() == Some(mode@),
            final(self).points() == after_push(
                if old(self).mode_text() == Some(mode@) {
                    old(self).points()
                } else {
                    Seq::empty()
                },
                (elapsed_secs, value),
            ),
    {
        let same = match &self.current_mode {
            Some(m) => str_eq(m.as_str(), mode),
            None => false,
        };
        if !same {
            self.history.clear();
            self.current_mode = Some(String::from_str(mode));
        }
        if self.history.len() >= MAX_POINTS {
            self.history.pop_front();
        }
        self.history.push_back((elapsed_secs, value));
    }

    /// Forget all points and the mode.
    pub fn clear(&mut self)
        ensures
            final(self).wf(),
            final(self).points() == Seq::<(T, T)>::empty(),
            final(self).current_mode is None,
    {
        self.history.clear();
        self.current_mode = None;
    }

    /// The recorded points, oldest first.
    pub fn history(&self) -> (h: &VecDeque<(T, T)>)
        ensures
            h@ == self.points(),
    {
        &self.history
    }

    /// The number of recorded points.
    pub fn len(&self) -> (n: usize)
        ensures
            n == self.points().len(),
    {
        self.history.len()
    }

    /// Whether no point is recorded.
    pub fn is_empty(&self) -> (b: bool)
        ensures
            b == (self.points().len() == 0),
    {
        self.history.len() == 0
    }
}

impl<T> Default for Graph<T> {
    /// An empty graph with no mode.
    fn default() -> (g: Self)
        ensures
            g.wf(),
            g.points() == Seq::<(T, T)>::empty(),
            g.current_mode is None,
    {
        Self::new()
    }
}

} // verus!
