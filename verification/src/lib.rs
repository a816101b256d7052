//! Text values whose byte length is bounded by a limit that is part of the
//! type: `LimitedStr` is a validated, non-owning view, `LimitedString` a
//! validated, owning buffer. Both are created only through constructors that
//! check (or, for the one trusted-caller path, require) the bound, so holding
//! a value of either type is itself the guarantee that its content fits.

use vstd::prelude::*;

verus! {

/// The byte length of text content: the length of its UTF-8 encoding.
pub open spec fn byte_len(s: Seq<char>) -> nat {
    vstd::utf8::encode_utf8(s).len()
}

/// The byte length of `s`, as [`byte_len`] measures it; the length of the
/// byte slice is what ties the executable count to the encoding.
fn byte_length(s: &str) -> (n: usize)
    ensures
        n == byte_len(s@),
{
    s.as_bytes().len()
}

/// The one failure the bounded types know: content whose byte length
/// exceeds the bound. Carries the observed length and the bound, so a
/// decode error can report both instead of silently truncating or
/// accepting the value.
#[derive(Clone, Copy, Debug, PartialEq, Eq, Structural)]
pub struct LengthExceeded {
    /// The byte length the rejected content actually had.
    pub length: usize,
    /// The bound the content was held to.
    pub bound: usize,
}

/// A non-owning view of text content of at most `MAX_LENGTH` bytes.
///
/// Representationally this is nothing but the reference itself; the bound
/// lives in the type, not in the value.
#[derive(Clone, Copy, Debug)]
pub struct LimitedStr<'a, const MAX_LENGTH: usize> {
    content: &'a str,
}

impl<'a, const MAX_LENGTH: usize> View for LimitedStr<'a, MAX_LENGTH> {
    type V = Seq<char>;

    closed spec fn view(&self) -> Seq<char> {
        self.content@
    }
}

impl<'a, const MAX_LENGTH: usize> LimitedStr<'a, MAX_LENGTH> {
    #[verifier::type_invariant]
    spec fn bound_holds(self) -> bool {
        byte_len(self.content@) <= MAX_LENGTH as nat
    }

    /// Wraps `s` if its byte length is within the bound; no copy is made
    /// either way, and the caller keeps `s`.
    pub fn from_str(s: &'a str) -> (r: Option<Self>)
        ensures
            r is Some <==> byte_len(s@) <= MAX_LENGTH as nat,
            r matches Some(v) ==> v@ == s@,
    {
        if byte_length(s) <= MAX_LENGTH {
            Some(Self::from_str_unchecked(s))
        } else {
            None
        }
    }

    /// The trusted-caller constructor: wraps `s` without a runtime check.
    /// The bound is a precondition, discharged statically at every call
    /// site instead of being re-checked at runtime.
    pub fn from_str_unchecked(s: &'a str) -> (r: Self)
        requires
            byte_len(s@) <= MAX_LENGTH as nat,
        ensures
            r@ == s@,
    {
        LimitedStr { content: s }
    }

    /// The referenced text itself. Since the view is validated, its content
    /// is always within the bound, so re-validating it always succeeds.
    pub fn as_str(&self) -> (r: &'a str)
        ensures
            r@ == self@,
            byte_len(r@) <= MAX_LENGTH as nat,
    {
        proof {
            use_type_invariant(self);
        }
        self.content
    }

    /// Copies the referenced bytes into a new owned buffer with the same
    /// content and the same bound.
    pub fn to_owned(&self) -> (r: LimitedString<MAX_LENGTH>)
        ensures
            r@ == self@,
    {
        proof {
            use_type_invariant(self);
        }
        LimitedString { content: self.content.to_owned() }
    }
}

/// An owning text buffer of at most `MAX_LENGTH` bytes.
///
/// Immutable after construction: no operation can grow the content past the
/// bound, so the invariant established by the constructor holds for the
/// value's whole life.
#[derive(Debug)]
pub struct LimitedString<const MAX_LENGTH: usize> {
    content: String,
}

impl<const MAX_LENGTH: usize> Clone for LimitedString<MAX_LENGTH> {
    fn clone(&self) -> (r: Self)
        ensures
            r@ == self@,
    {
        proof {
            use_type_invariant(self);
        }
        LimitedString { content: self.content.clone() }
    }
}

impl<const MAX_LENGTH: usize> View for LimitedString<MAX_LENGTH> {
    type V = Seq<char>;

    closed spec fn view(&self) -> Seq<char> {
        self.content@
    }
}

impl<const MAX_LENGTH: usize> LimitedString<MAX_LENGTH> {
    #[verifier::type_invariant]
    spec fn bound_holds(self) -> bool {
        byte_len(self.content@) <= MAX_LENGTH as nat
    }

    /// Consumes `s` and wraps it if its byte length is within the bound.
    /// On failure the original buffer comes back unchanged as the error
    /// payload: nothing is lost or altered, and the caller may inspect it or
    /// retry with a shortened variant.
    pub fn from_string(s: String) -> (r: Result<Self, String>)
        ensures
            r is Ok <==> byte_len(s@) <= MAX_LENGTH as nat,
            r matches Ok(v) ==> v@ == s@,
            r matches Err(e) ==> e == s,
    {
        if byte_length(s.as_str()) <= MAX_LENGTH {
            Ok(LimitedString { content: s })
        } else {
            Err(s)
        }
    }

    /// Derives a non-owning view over the owned content, without a copy and
    /// without a runtime check: the owner's invariant already guarantees the
    /// bound, which discharges the trusted-caller precondition of
    /// [`LimitedStr::from_str_unchecked`].
    pub fn borrow<'a>(&'a self) -> (r: LimitedStr<'a, MAX_LENGTH>)
        ensures
            r@ == self@,
    {
        proof {
            use_type_invariant(self);
        }
        LimitedStr::from_str_unchecked(self.content.as_str())
    }

    /// Validates a buffer that arrived from a decoder. The same check as
    /// [`Self::from_string`], but a failure is reported as a structured
    /// [`LengthExceeded`] carrying the observed byte length and the bound,
    /// the shape a decode error needs; the buffer itself is not returned.
    pub fn from_decoded(s: String) -> (r: Result<Self, LengthExceeded>)
        ensures
            r is Ok <==> byte_len(s@) <= MAX_LENGTH as nat,
            r matches Ok(v) ==> v@ == s@,
            r matches Err(e) ==> e.length == byte_len(s@) && e.bound == MAX_LENGTH,
    {
        let length = byte_length(s.as_str());
        if length <= MAX_LENGTH {
            Ok(LimitedString { content: s })
        } else {
            Err(LengthExceeded { length, bound: MAX_LENGTH })
        }
    }

    /// The owned text itself. Since the buffer is validated, its content is
    /// always within the bound, so re-validating it always succeeds.
    pub fn as_str(&self) -> (r: &str)
        ensures
            r@ == self@,
            byte_len(r@) <= MAX_LENGTH as nat,
    {
        proof {
            use_type_invariant(self);
        }
        self.content.as_str()
    }
}

/// The round-trip law: content that enters as a validated view, is copied
/// into an owned buffer, and is borrowed back out comes through unchanged.
///
/// The premises are exactly what the three steps ensure: a successful
/// [`LimitedStr::from_str`] yields `validated` with the content of `s`,
/// [`LimitedStr::to_owned`] yields `owned` with the content of `validated`,
/// and [`LimitedString::borrow`] yields `reborrowed` with the content of
/// `owned`; the conclusion is that `reborrowed` holds the content of `s`.
pub proof fn lemma_round_trip<'a, 'b, const MAX_LENGTH: usize>(
    s: Seq<char>,
    validated: LimitedStr<'a, MAX_LENGTH>,
    owned: LimitedString<MAX_LENGTH>,
    reborrowed: LimitedStr<'b, MAX_LENGTH>,
)
    requires
        validated@ == s,
        owned@ == validated@,
        reborrowed@ == owned@,
    ensures
        reborrowed@ == s,
{
}

} // verus!
