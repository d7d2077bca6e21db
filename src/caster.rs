use vstd::prelude::*;
use crate::command::{Command, Mode, mode_after};
use crate::stroke::Spell;

verus! {

/// Strokes with fewer raw points are noise.
pub const MIN_STROKE_LEN: usize = 5;

/// Whether a raw stroke is long enough to be normalized.
pub fn admits(stroke: &Spell) -> (r: bool)
    ensures
        r == (stroke@.len() >= MIN_STROKE_LEN),
{
    stroke.len() >= MIN_STROKE_LEN
}

/// What became of a submitted shape.
#[derive(PartialEq, Eq, Structural, Clone, Copy, Debug)]
pub enum Submission {
    /// Stored as a template; the corpus now holds this many.
    Learned(usize),
    /// Casting with no template to match against: nothing to do.
    NoTemplates,
    /// Casting: the shape is to be matched against the corpus.
    Compare,
}

/// The recognizer's state: the current mode and the learned templates.
/// The corpus only grows, and only in learning mode.
pub struct SpellCaster<T> {
    mode: Mode,
    corpus: Vec<T>,
}

impl<T> SpellCaster<T> {
    pub closed spec fn current_mode(&self) -> Mode {
        self.mode
    }

    pub closed spec fn corpus(&self) -> Seq<T> {
        self.corpus@
    }

    /// A fresh recognizer learns first.
    pub fn new() -> (r: Self)
        ensures
            r.current_mode() == Mode::Learning,
            r.corpus().len() == 0,
    {
        SpellCaster { mode: Mode::Learning, corpus: Vec::new() }
    }

    pub fn mode(&self) -> (r: Mode)
        ensures
            r == self.current_mode(),
    {
        self.mode
    }

    pub fn set_mode(&mut self, mode: Mode)
        ensures
            final(self).current_mode() == mode,
            final(self).corpus() == old(self).corpus(),
    {
        self.mode = mode;
    }

    /// Applies a command from the text stream.
    pub fn command(&mut self, cmd: &Command)
        ensures
            final(self).current_mode() == mode_after(old(self).current_mode(), *cmd),
            final(self).corpus() == old(self).corpus(),
    {
        self.mode = cmd.next_mode(self.mode);
    }

    /// Hands over a normalized shape: learning stores it, casting asks for
    /// a match unless there is nothing to match against.
    pub fn submit(&mut self, shape: T) -> (r: Submission)
        requires
            old(self).corpus().len() < usize::MAX,
        ensures
            final(self).current_mode() == old(self).current_mode(),
            old(self).current_mode() == Mode::Learning ==> {
                &&& final(self).corpus() == old(self).corpus().push(shape)
                &&& r == Submission::Learned(final(self).corpus().len() as usize)
            },
            old(self).current_mode() == Mode::Casting ==> {
                &&& final(self).corpus() == old(self).corpus()
                &&& r == if old(self).corpus().len() == 0 {
                    Submission::NoTemplates
                } else {
                    Submission::Compare
                }
            },
    {
        match self.mode {
            Mode::Learning => {
                self.corpus.push(shape);
                Submission::Learned(self.corpus.len())
            },
            Mode::Casting => {
                if self.corpus.len() == 0 {
                    Submission::NoTemplates
                } else {
                    Submission::Compare
                }
            },
        }
    }

    /// The learned templates, oldest first.
    pub fn templates(&self) -> (r: &Vec<T>)
        ensures
            r@ == self.corpus(),
    {
        &self.corpus
    }

    pub fn len(&self) -> (r: usize)
        ensures
            r == self.corpus().len(),
    {
        self.corpus.len()
    }
}

} // verus!
