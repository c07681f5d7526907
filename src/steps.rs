use vstd::prelude::*;

verus! {

/// What one advance does to the remaining steps: the first one goes, and an
/// exhausted sequence stays exhausted.
pub open spec fn after_advance(r: Seq<Seq<char>>) -> Seq<Seq<char>> {
    if r.len() > 0 {
        r.drop_first()
    } else {
        r
    }
}

/// The remaining steps after `n` advances.
pub open spec fn after_advances(r: Seq<Seq<char>>, n: nat) -> Seq<Seq<char>>
    decreases n,
{
    if n == 0 {
        r
    } else {
        after_advance(after_advances(r, (n - 1) as nat))
    }
}

/// The step to display, if any is left.
pub open spec fn current_of(r: Seq<Seq<char>>) -> Option<Seq<char>> {
    if r.len() > 0 {
        Some(r[0])
    } else {
        None
    }
}

/// The ordered steps that are left to present.
///
/// The items are held last-first, so that the current step is the tail of
/// the vector and advancing is a pop.
pub struct StepStack {
    items: Vec<String>,
}

impl View for StepStack {
    type V = Seq<Seq<char>>;

    /// The remaining steps, in presentation order.
    closed spec fn view(&self) -> Seq<Seq<char>> {
        Seq::new(self.items@.len(), |i: int| self.items@[self.items@.len() - 1 - i]@)
    }
}

impl StepStack {
    /// A stack that presents `steps` from first to last.
    pub fn from_steps(steps: Vec<String>) -> (r: Self)
        ensures
            r@ == steps@.map_values(|s: String| s@),
    {
        let ghost orig = steps@;
        let mut steps = steps;
        let mut items: Vec<String> = Vec::new();
        while steps.len() > 0
            invariant
                steps@.len() + items@.len() == orig.len(),
                steps@ == orig.take(steps@.len() as int),
                forall|j: int|
                    0 <= j < items@.len() ==> #[trigger] items@[j] == orig[orig.len() - 1 - j],
            decreases steps@.len(),
        {
            let s = steps.pop().unwrap();
            items.push(s);
        }
        let r = StepStack { items };
        assert(r@ =~= orig.map_values(|s: String| s@));
        r
    }

    /// The step to display, or `None` once every step has been passed.
    pub fn current(&self) -> (r: Option<&String>)
        ensures
            r matches Some(s) ==> current_of(self@) == Some(s@),
            r is None ==> current_of(self@) is None,
    {
        let n = self.items.len();
        if n > 0 {
            Some(&self.items[n - 1])
        } else {
            None
        }
    }

    /// Whether every step has been passed.
    pub fn is_complete(&self) -> (r: bool)
        ensures
            r == (self@.len() == 0),
    {
        self.items.len() == 0
    }

    /// Drops the current step; does nothing once the stack is exhausted.
    pub fn advance(&mut self)
        ensures
            final(self)@ == after_advance(old(self)@),
    {
        if self.items.len() > 0 {
            self.items.pop();
            assert(self@ =~= after_advance(old(self)@));
        }
    }
}

} // verus!
