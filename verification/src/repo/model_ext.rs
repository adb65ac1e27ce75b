use vstd::prelude::*;

verus! {

/// A stored row could not be turned into its domain value.
#[derive(Debug, Clone, Copy, PartialEq, Eq)]
pub struct ConvertError;

/// Rows that turn into domain values.
pub trait ModelExt: Sized {
    type Target;

    /// The row can be turned into a domain value.
    spec fn convertible(&self) -> bool;

    /// `target` is the domain value of the row.
    spec fn converts_to(&self, target: Self::Target) -> bool;

    /// The domain value of the row, or an error where it has none.
    fn convert(self) -> (r: Result<Self::Target, ConvertError>)
        ensures
            r is Ok <==> self.convertible(),
            r matches Ok(t) ==> self.converts_to(t),
    ;
}

impl<T: ModelExt> ModelExt for Option<T> {
    type Target = Option<T::Target>;

    open spec fn convertible(&self) -> bool {
        match self {
            Some(m) => m.convertible(),
            None => true,
        }
    }

    open spec fn converts_to(&self, target: Option<T::Target>) -> bool {
        match (self, target) {
            (Some(m), Some(t)) => m.converts_to(t),
            (None, None) => true,
            _ => false,
        }
    }

    /// No row stays no value; a row turns into its value.
    fn convert(self) -> (r: Result<Option<T::Target>, ConvertError>) {
        match self {
            Some(m) => match m.convert() {
                Ok(t) => Ok(Some(t)),
                Err(e) => Err(e),
            },
            None => Ok(None),
        }
    }
}

impl<T: ModelExt> ModelExt for Vec<T> {
    type Target = Vec<T::Target>;

    open spec fn convertible(&self) -> bool {
        forall|i: int| 0 <= i < self@.len() ==> (#[trigger] self@[i]).convertible()
    }

    open spec fn converts_to(&self, target: Vec<T::Target>) -> bool {
        &&& target@.len() == self@.len()
        &&& forall|i: int| 0 <= i < self@.len() ==> (#[trigger] self@[i]).converts_to(target@[i])
    }

    /// Every row turns into its value, in order; one row without a value
    /// makes the whole an error.
    fn convert(self) -> (r: Result<Vec<T::Target>, ConvertError>) {
        let ghost rows = self@;
        let mut rest = self;
        let mut reversed: Vec<T::Target> = Vec::new();
        while rest.len() > 0
            invariant
                rows == self@,
                rest@ == rows.take(rest@.len() as int),
                rest@.len() <= rows.len(),
                reversed@.len() == rows.len() - rest@.len(),
                forall|j: int|
                    0 <= j < reversed@.len() ==> (#[trigger] rows[rows.len() - 1 - j]).converts_to(
                        reversed@[j],
                    ),
                forall|i: int| rest@.len() <= i < rows.len() ==> (#[trigger] rows[i]).convertible(),
            decreases rest@.len(),
        {
            let ghost k = rest@.len() - 1;
            let m = rest.pop().unwrap();
            assert(m == rows[k]);
            match m.convert() {
                Ok(t) => {
                    reversed.push(t);
                    assert(rest@ =~= rows.take(rest@.len() as int));
                    assert forall|j: int| 0 <= j < reversed@.len() implies (#[trigger] rows[rows.len() - 1 - j]).converts_to(reversed@[j]) by {
                        if j == reversed@.len() - 1 {
                            assert(rows.len() - 1 - j == k);
                        }
                    }
                },
                Err(e) => {
                    assert(!rows[k].convertible());
                    assert(!self.convertible()) by {
                        assert(self@[k] == rows[k]);
                    }
                    return Err(e);
                },
            }
        }
        let mut out: Vec<T::Target> = Vec::new();
        let ghost rev = reversed@;
        while reversed.len() > 0
            invariant
                reversed@ == rev.take(reversed@.len() as int),
                reversed@.len() <= rev.len(),
                rev.len() == rows.len(),
                out@.len() == rev.len() - reversed@.len(),
                forall|j: int| 0 <= j < out@.len() ==> out@[j] == rev[rev.len() - 1 - j],
            decreases reversed@.len(),
        {
            let t = reversed.pop().unwrap();
            out.push(t);
            assert(reversed@ =~= rev.take(reversed@.len() as int));
        }
        proof {
            assert forall|i: int| 0 <= i < self@.len() implies (#[trigger] self@[i]).converts_to(out@[i]) by {
                assert(out@[i] == rev[rev.len() - 1 - i]);
                let j = rev.len() - 1 - i;
                assert(rows[rows.len() - 1 - j] == rows[i]);
            }
            assert forall|i: int| 0 <= i < self@.len() implies (#[trigger] self@[i]).convertible() by {
                assert(self@[i] == rows[i]);
            }
        }
        Ok(out)
    }
}

} // verus!
