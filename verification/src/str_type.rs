//! Cheap shared strings and the two column text types: unbounded `Text`
//! and length-bounded `Varchar`.

use vstd::prelude::*;

verus! {

use vstd::string::*;

use crate::seg::ChinSqlError;
use crate::sql_value::SqlValue;

#[verifier::external_type_specification]
#[verifier::external_body]
pub struct ExSmolStr(smol_str::SmolStr);

/// The characters a [`smol_str::SmolStr`] stores.
pub uninterp spec fn smol_str_chars(s: smol_str::SmolStr) -> Seq<char>;

/// Relies on `smol_str::SmolStr::new`: the stored text equals the argument.
#[verifier::external_body]
fn smol_new(s: &str) -> (r: smol_str::SmolStr)
    ensures
        smol_str_chars(r) == s@,
{
    smol_str::SmolStr::new(s)
}

/// Relies on `smol_str::SmolStr::as_str`: hands back the stored text.
#[verifier::external_body]
fn smol_as_str(s: &smol_str::SmolStr) -> (r: &str)
    ensures
        r@ == smol_str_chars(*s),
{
    s.as_str()
}

/// Relies on `smol_str::SmolStr::clone`: the clone stores the same text.
#[verifier::external_body]
fn smol_clone(s: &smol_str::SmolStr) -> (r: smol_str::SmolStr)
    ensures
        smol_str_chars(r) == smol_str_chars(*s),
{
    s.clone()
}

/// An immutable string that is cheap to share and clone.
#[derive(Debug)]
pub struct SharedStr(pub smol_str::SmolStr);

impl SharedStr {
    /// The characters this string stores.
    pub open spec fn spec_chars(self) -> Seq<char> {
        smol_str_chars(self.0)
    }

    pub fn new(s: &str) -> (r: Self)
        ensures
            r.spec_chars() == s@,
    {
        Self(smol_new(s))
    }

    pub fn as_str(&self) -> (r: &str)
        ensures
            r@ == self.spec_chars(),
    {
        smol_as_str(&self.0)
    }

    pub fn clone(&self) -> (r: Self)
        ensures
            r.spec_chars() == self.spec_chars(),
    {
        Self(smol_clone(&self.0))
    }
}

/// Column text without a length bound.
#[derive(Debug)]
pub struct Text(pub SharedStr);

impl Text {
    pub fn new(s: &str) -> (r: Self)
        ensures
            r.0.spec_chars() == s@,
    {
        Self(SharedStr::new(s))
    }

    pub fn as_str(&self) -> (r: &str)
        ensures
            r@ == self.0.spec_chars(),
    {
        self.0.as_str()
    }

    /// The text as an owned string.
    pub fn into_string(self) -> (r: String)
        ensures
            r@ == self.0.spec_chars(),
    {
        self.0.as_str().to_owned()
    }
}

/// Column text whose byte length may not exceed `LIMIT`.
#[derive(Debug)]
pub struct Varchar<const LIMIT: usize>(pub SharedStr);

impl<const LIMIT: usize> Varchar<LIMIT> {
    /// Accepts text within the bound; longer text is refused.
    pub fn try_new(s: &str) -> (r: Result<Self, ChinSqlError>)
        requires
            s.spec_bytes().len() <= usize::MAX,
        ensures
            s.spec_bytes().len() <= LIMIT ==> (r matches Ok(v) && v.0.spec_chars() == s@),
            s.spec_bytes().len() > LIMIT ==> (r matches Err(e) && e is TransformError),
    {
        if s.len() > LIMIT {
            Err(ChinSqlError::TransformError("text is longer than the column bound".to_owned()))
        } else {
            Ok(Self(SharedStr::new(s)))
        }
    }

    pub fn as_str(&self) -> (r: &str)
        ensures
            r@ == self.0.spec_chars(),
    {
        self.0.as_str()
    }

    /// Keeps the longest prefix of the text that fits the column bound:
    /// at most `LIMIT` bytes, cut on a character boundary, so the result
    /// always satisfies the bound that [`Self::try_new`] enforces.
    pub fn limit(s: &str) -> (r: Self)
        requires
            s.spec_bytes().len() <= usize::MAX,
        ensures
            exists|k: int|
                {
                    &&& 0 <= k <= s.spec_bytes().len()
                    &&& k <= LIMIT
                    &&& vstd::utf8::is_char_boundary(s.spec_bytes(), k)
                    &&& vstd::utf8::encode_utf8(r.0.spec_chars()) == s.spec_bytes().subrange(0, k)
                    &&& forall|j: int|
                        k < j <= LIMIT && j <= s.spec_bytes().len()
                            ==> !vstd::utf8::is_char_boundary(s.spec_bytes(), j)
                },
    {
        proof {
            vstd::utf8::encode_utf8_valid_utf8(s@);
        }
        let max = if s.len() > LIMIT {
            LIMIT
        } else {
            s.len()
        };
        let mut k = max;
        while !s.is_char_boundary(k)
            invariant
                0 <= k <= max,
                max <= LIMIT,
                max <= s.spec_bytes().len(),
                vstd::utf8::valid_utf8(s.spec_bytes()),
                forall|j: int|
                    k < j <= max ==> !vstd::utf8::is_char_boundary(s.spec_bytes(), j),
            decreases k,
        {
            assert(vstd::utf8::is_char_boundary(s.spec_bytes(), 0));
            k = k - 1;
        }
        let (cut, _) = s.split_at(k);
        let shared = SharedStr::new(cut);
        proof {
            let kk = k as int;
            assert(cut.spec_bytes() =~= s.spec_bytes().subrange(0, kk));
            assert(vstd::utf8::encode_utf8(shared.spec_chars()) == s.spec_bytes().subrange(
                0,
                kk,
            ));
            assert forall|j: int|
                kk < j <= LIMIT && j <= s.spec_bytes().len() implies !vstd::utf8::is_char_boundary(
                s.spec_bytes(),
                j,
            ) by {
                assert(j <= max);
            }
            assert({
                &&& 0 <= kk <= s.spec_bytes().len()
                &&& kk <= LIMIT
                &&& vstd::utf8::is_char_boundary(s.spec_bytes(), kk)
                &&& vstd::utf8::encode_utf8(shared.spec_chars()) == s.spec_bytes().subrange(0, kk)
                &&& forall|j: int|
                    kk < j <= LIMIT && j <= s.spec_bytes().len()
                        ==> !vstd::utf8::is_char_boundary(s.spec_bytes(), j)
            });
        }
        Self(shared)
    }

    /// The text as an owned string.
    pub fn into_string(self) -> (r: String)
        ensures
            r@ == self.0.spec_chars(),
    {
        self.0.as_str().to_owned()
    }

    /// Accepts the text of a string statement value within the bound; a
    /// longer text, or any non-string value, is refused.
    pub fn try_from_value(v: &SqlValue) -> (r: Result<Self, ChinSqlError>)
        requires
            v matches SqlValue::Str(s) ==> vstd::utf8::encode_utf8(s@).len() <= usize::MAX,
        ensures
            v matches SqlValue::Str(s) ==> {
                &&& vstd::utf8::encode_utf8(s@).len() <= LIMIT ==> (r matches Ok(out)
                    && out.0.spec_chars() == s@)
                &&& vstd::utf8::encode_utf8(s@).len() > LIMIT ==> (r matches Err(e) && e
                    is TransformError)
            },
            !(v is Str) ==> (r matches Err(e) && e is TransformError),
    {
        match v {
            SqlValue::Str(s) => Self::try_new(s.as_str()),
            _ => Err(
                ChinSqlError::TransformError(
                    "cannot make bounded text from this value".to_owned(),
                ),
            ),
        }
    }
}

} // verus!
