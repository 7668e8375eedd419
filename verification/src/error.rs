//! Error codes returned by the CTRE Phoenix interface.
use vstd::prelude::*;

verus! {

/// A status code returned by a device call: zero is success, anything else
/// names an error or a warning.
#[derive(Debug, Copy, Clone, PartialEq, Eq, Hash, Structural)]
pub struct ErrorCode {
    pub code: i32,
}

/// The result of a device read.
pub type Result<T> = core::result::Result<T, ErrorCode>;

impl ErrorCode {
    /// The code that means success.
    pub open spec fn spec_ok() -> ErrorCode {
        ErrorCode { code: 0 }
    }

    /// Whether a code means success.
    pub open spec fn spec_is_ok(self) -> bool {
        self.code == 0
    }

    /// `self` when it is an error, otherwise `other`: the first error of the two.
    pub open spec fn spec_or(self, other: ErrorCode) -> ErrorCode {
        if self.spec_is_ok() {
            other
        } else {
            self
        }
    }

    /// The code that means success.
    #[allow(non_snake_case)]
    pub fn OK() -> (r: ErrorCode)
        ensures
            r == Self::spec_ok(),
    {
        ErrorCode { code: 0 }
    }

    /// The code with the given raw value.
    pub fn from_raw(code: i32) -> (r: ErrorCode)
        ensures
            r.code == code,
    {
        ErrorCode { code }
    }

    /// The raw value of the code.
    pub fn raw(self) -> (r: i32)
        ensures
            r == self.code,
    {
        self.code
    }

    /// Returns `true` if the code is `OK`.
    pub fn is_ok(self) -> (r: bool)
        ensures
            r == self.spec_is_ok(),
    {
        self.code == 0
    }

    /// Returns `true` if the code is not `OK`.
    pub fn is_err(self) -> (r: bool)
        ensures
            r == !self.spec_is_ok(),
    {
        self.code != 0
    }

    /// Returns `other` if `self` is `OK`, otherwise `self`.
    pub fn or(self, other: ErrorCode) -> (r: ErrorCode)
        ensures
            r == self.spec_or(other),
    {
        if self.code == 0 {
            other
        } else {
            self
        }
    }

    /// `Ok(value)` if the code is `OK`, otherwise the code as the error.
    pub fn into_result<T>(self, value: T) -> (r: Result<T>)
        ensures
            self.spec_is_ok() ==> r == Ok::<T, ErrorCode>(value),
            !self.spec_is_ok() ==> r == Err::<T, ErrorCode>(self),
    {
        if self.code == 0 {
            Ok(value)
        } else {
            Err(self)
        }
    }
}

/// The first code of `codes` that is not `OK`, or `OK` when there is none.
pub open spec fn first_error(codes: Seq<ErrorCode>) -> ErrorCode
    decreases codes.len(),
{
    if codes.len() == 0 {
        ErrorCode::spec_ok()
    } else if !codes[0].spec_is_ok() {
        codes[0]
    } else {
        first_error(codes.drop_first())
    }
}

/// Taking one more code into account: the first error of a longer prefix is
/// the first error of the shorter one, `or` the new code.
proof fn lemma_first_error_push(codes: Seq<ErrorCode>, c: ErrorCode)
    ensures
        first_error(codes.push(c)) == first_error(codes).spec_or(c),
    decreases codes.len(),
{
    assert(codes.push(c)[0] == if codes.len() == 0 { c } else { codes[0] });
    if codes.len() == 0 {
        assert(codes.push(c).drop_first() =~= Seq::<ErrorCode>::empty());
        assert(first_error(Seq::<ErrorCode>::empty()) == ErrorCode::spec_ok());
    } else {
        assert(codes.push(c).drop_first() =~= codes.drop_first().push(c));
        lemma_first_error_push(codes.drop_first(), c);
    }
}

/// Combines the codes of a series of calls that were all made: the result is
/// `OK` when every call succeeded, and otherwise the code of the first call
/// that failed.
pub fn combine_errors(codes: &Vec<ErrorCode>) -> (r: ErrorCode)
    ensures
        r == first_error(codes@),
{
    let mut acc = ErrorCode { code: 0 };
    let mut i: usize = 0;
    while i < codes.len()
        invariant
            i <= codes.len(),
            acc == first_error(codes@.take(i as int)),
        decreases codes.len() - i,
    {
        proof {
            lemma_first_error_push(codes@.take(i as int), codes@[i as int]);
            assert(codes@.take(i as int).push(codes@[i as int]) =~= codes@.take(i as int + 1));
        }
        acc = acc.or(codes[i]);
        i = i + 1;
    }
    proof {
        assert(codes@.take(i as int) =~= codes@);
    }
    acc
}

/// `OK` is neutral for `or`, `or` is associative, and an error on the left
/// wins.
pub proof fn lemma_or_laws(a: ErrorCode, b: ErrorCode, c: ErrorCode)
    ensures
        ErrorCode::spec_ok().spec_or(a) == a,
        a.spec_or(ErrorCode::spec_ok()) == a,
        a.spec_or(b).spec_or(c) == a.spec_or(b.spec_or(c)),
        !a.spec_is_ok() ==> a.spec_or(b) == a,
{
}

/// The combined code is `OK` exactly when every code is `OK`; otherwise it is
/// one of the codes, not `OK`, and every code before it is `OK`.
pub proof fn lemma_first_error(codes: Seq<ErrorCode>)
    ensures
        first_error(codes).spec_is_ok() <==> (forall|i: int| 0 <= i < codes.len() ==> #[trigger] codes[i].spec_is_ok()),
        !first_error(codes).spec_is_ok() ==> exists|k: int|
            0 <= k < codes.len() && codes[k] == first_error(codes) && (forall|i: int| 0 <= i < k ==> #[trigger] codes[i].spec_is_ok()),
    decreases codes.len(),
{
    if codes.len() == 0 {
    } else if !codes[0].spec_is_ok() {
        assert(codes[0] == first_error(codes));
    } else {
        let rest = codes.drop_first();
        lemma_first_error(rest);
        assert forall|i: int| 0 <= i < codes.len() && (forall|j: int| 0 <= j < rest.len() ==> #[trigger] rest[j].spec_is_ok()) implies #[trigger] codes[i].spec_is_ok() by {
            if i > 0 {
                assert(codes[i] == rest[i - 1]);
            }
        }
        assert forall|j: int| 0 <= j < rest.len() && (forall|i: int| 0 <= i < codes.len() ==> #[trigger] codes[i].spec_is_ok()) implies #[trigger] rest[j].spec_is_ok() by {
            assert(rest[j] == codes[j + 1]);
        }
        if !first_error(codes).spec_is_ok() {
            let k = choose|k: int|
                0 <= k < rest.len() && rest[k] == first_error(rest) && (forall|i: int| 0 <= i < k ==> #[trigger] rest[i].spec_is_ok());
            assert(codes[k + 1] == first_error(codes));
            assert forall|i: int| 0 <= i < k + 1 implies #[trigger] codes[i].spec_is_ok() by {
                if i > 0 {
                    assert(codes[i] == rest[i - 1]);
                }
            }
        }
    }
}

} // verus!
