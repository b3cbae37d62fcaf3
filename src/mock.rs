use vstd::prelude::*;

verus! {

/// A value that comes either from the real system (`Actual`) or from the mocked
/// clock (`Mocked`). `Constant` stands for a named constant whose value depends on
/// whether the clock is mocked where it is used.
#[derive(Debug, Clone, Copy, PartialEq, Eq, Hash)]
pub enum Mock<Actual, Mocked> {
    Actual(Actual),
    Mocked(Mocked),
    Constant(usize),
}

impl<Actual, Mocked> Mock<Actual, Mocked> {
    /// Calls `mocked_fn` where the clock is mocked (`mocked`), `actual_fn` otherwise,
    /// and tags the value with where it came from.
    pub fn new<ActualFn, MockedFn>(mocked: bool, actual_fn: ActualFn, mocked_fn: MockedFn) -> (r:
        Self) where ActualFn: FnOnce() -> Actual, MockedFn: FnOnce() -> Mocked
        requires
            mocked ==> mocked_fn.requires(()),
            !mocked ==> actual_fn.requires(()),
        ensures
            match r {
                Mock::Actual(a) => !mocked && actual_fn.ensures((), a),
                Mock::Mocked(m) => mocked && mocked_fn.ensures((), m),
                Mock::Constant(_) => false,
            },
    {
        if mocked {
            Mock::Mocked(mocked_fn())
        } else {
            Mock::Actual(actual_fn())
        }
    }

    pub fn actual(value: Actual) -> (r: Self)
        ensures
            r == Mock::<Actual, Mocked>::Actual(value),
    {
        Mock::Actual(value)
    }

    pub fn mocked(value: Mocked) -> (r: Self)
        ensures
            r == Mock::<Actual, Mocked>::Mocked(value),
    {
        Mock::Mocked(value)
    }

    pub fn constant(id: usize) -> (r: Self)
        ensures
            r == Mock::<Actual, Mocked>::Constant(id),
    {
        Mock::Constant(id)
    }

    /// Whether the value comes from the mocked clock.
    pub fn is_mocked(&self) -> (r: bool)
        ensures
            r == (*self is Mocked),
    {
        match self {
            Mock::Mocked(_) => true,
            _ => false,
        }
    }
}

impl<Actual, Mocked> Mock<Option<Actual>, Option<Mocked>> {
    /// Moves an absent value out of either side: `Some` of the tagged value where one is
    /// present, `None` otherwise.
    pub fn flatten(self) -> (r: Option<Mock<Actual, Mocked>>)
        ensures
            r == match self {
                Mock::Actual(Some(a)) => Some(Mock::<Actual, Mocked>::Actual(a)),
                Mock::Mocked(Some(m)) => Some(Mock::<Actual, Mocked>::Mocked(m)),
                _ => None::<Mock<Actual, Mocked>>,
            },
    {
        match self {
            Mock::Actual(Some(actual)) => Some(Mock::Actual(actual)),
            Mock::Mocked(Some(mocked)) => Some(Mock::Mocked(mocked)),
            _ => None,
        }
    }
}

} // verus!
