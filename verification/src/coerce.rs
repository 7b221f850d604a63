//! Coercion of textual values into typed arguments, directed by a string of
//! type tags: `i` for an integer, `f` for a single-precision number, `s` for
//! a string.

use vstd::prelude::*;
use vstd::string::*;
use crate::value::{ArgView, OscArg};

verus! {

/// A textual value as the caller supplied it, together with its reading as a
/// single-precision number. The library does no floating-point work, so the
/// caller reads the text as a number and hands over the bit pattern, or
/// `None` where the text is no number.
#[derive(Clone, Debug, PartialEq, Eq)]
pub struct RawValue {
    /// The text.
    pub text: String,
    /// The IEEE-754 bit pattern of the text read as a single-precision
    /// number, if it is one.
    pub float_bits: Option<u32>,
}

/// The mathematical value of a [`RawValue`].
pub struct RawView {
    pub text: Seq<char>,
    pub float_bits: Option<u32>,
}

impl View for RawValue {
    type V = RawView;

    open spec fn view(&self) -> RawView {
        RawView { text: self.text@, float_bits: self.float_bits }
    }
}

/// The values of a sequence of raw values, position by position.
pub open spec fn raws_view(values: Seq<RawValue>) -> Seq<RawView> {
    Seq::new(values.len(), |i: int| values[i]@)
}

/// Why a list of raw values could not be coerced.
#[derive(Clone, Copy, Debug, PartialEq, Eq, Structural)]
pub enum ArgsError {
    /// Arity: there are more values than type tags.
    TooManyValues,
    /// Arity: a type tag has no value at its position.
    MissingValues,
    /// Coercion: the value at `index` is not a number of the kind that its
    /// tag asks for.
    NotANumber { index: usize },
}

impl ArgsError {
    /// Whether this is an error of arity, as opposed to one of coercion.
    pub open spec fn arity(&self) -> bool {
        *self == ArgsError::TooManyValues || *self == ArgsError::MissingValues
    }

    /// Whether this is an error of arity, as opposed to one of coercion.
    pub fn is_arity(&self) -> (r: bool)
        ensures
            r == self.arity(),
    {
        match self {
            ArgsError::TooManyValues => true,
            ArgsError::MissingValues => true,
            ArgsError::NotANumber { .. } => false,
        }
    }

    /// A sentence that describes the error.
    pub fn message(&self) -> (r: &'static str)
        ensures
            *self == ArgsError::TooManyValues ==> r@
                == "too many values provided for the given types"@,
            *self == ArgsError::MissingValues ==> r@ == "missing values for the given types"@,
            !self.arity() ==> r@ == "a value is not a number of the given type"@,
    {
        match self {
            ArgsError::TooManyValues => "too many values provided for the given types",
            ArgsError::MissingValues => "missing values for the given types",
            ArgsError::NotANumber { .. } => "a value is not a number of the given type",
        }
    }
}

/// Whether `c` is one of the ten decimal digits.
pub open spec fn is_digit(c: char) -> bool {
    '0' as u32 <= c as u32 <= '9' as u32
}

/// The number that a string of decimal digits denotes.
pub open spec fn decimal_value(digits: Seq<char>) -> int
    decreases digits.len(),
{
    if digits.len() == 0 {
        0
    } else {
        decimal_value(digits.drop_last()) * 10 + (digits.last() as u32 - '0' as u32)
    }
}

/// Whether a text is one or more decimal digits and nothing else.
pub open spec fn is_decimal(text: Seq<char>) -> bool {
    text.len() > 0 && forall|i: int| 0 <= i < text.len() ==> is_digit(#[trigger] text[i])
}

/// The reading of a text as a 32-bit signed integer in decimal notation: an
/// optional sign `+` or `-`, then one or more decimal digits and nothing
/// else, denoting a number in the range of `i32`.
pub open spec fn int_reading(text: Seq<char>) -> Option<i32> {
    let signed = text.len() > 0 && (text[0] == '+' || text[0] == '-');
    let digits = if signed {
        text.subrange(1, text.len() as int)
    } else {
        text
    };
    let value = if text.len() > 0 && text[0] == '-' {
        -decimal_value(digits)
    } else {
        decimal_value(digits)
    };
    if is_decimal(digits) && i32::MIN <= value <= i32::MAX {
        Some(value as i32)
    } else {
        None
    }
}

/// Calls `str::parse` for `i32`. Trusted: the result is the reading that
/// the standard library documents for a signed integer, an optional sign
/// followed by decimal digits only, and an error on anything else, on an
/// empty text and on a number out of range.
#[verifier::external_body]
fn parse_int(text: &str) -> (r: Option<i32>)
    ensures
        r == int_reading(text@),
{
    text.parse::<i32>().ok()
}

/// What one type tag makes of the value at its position: `None` where the
/// value is refused, else the arguments it yields, one for a recognized tag
/// and none for any other character.
pub open spec fn coerce_one(tag: char, value: RawView) -> Option<Seq<ArgView>> {
    if tag == 'i' {
        match int_reading(value.text) {
            Some(n) => Some(seq![ArgView::Int(n)]),
            None => None,
        }
    } else if tag == 'f' {
        match value.float_bits {
            Some(bits) => Some(seq![ArgView::Float(bits)]),
            None => None,
        }
    } else if tag == 's' {
        Some(seq![ArgView::Str(value.text)])
    } else {
        Some(Seq::empty())
    }
}

/// Whether the value at position `i` is refused by its tag.
pub open spec fn refused_at(tags: Seq<char>, values: Seq<RawView>, i: int) -> bool {
    coerce_one(tags[i], values[i]) is None
}

/// Whether none of the first `n` values is refused by its tag.
pub open spec fn accepted_before(tags: Seq<char>, values: Seq<RawView>, n: int) -> bool {
    forall|j: int| 0 <= j < n ==> !refused_at(tags, values, j)
}

/// Whether position `i` holds the first value that its tag refuses.
pub open spec fn first_refused(tags: Seq<char>, values: Seq<RawView>, i: int) -> bool {
    0 <= i < values.len() && refused_at(tags, values, i) && accepted_before(tags, values, i)
}

/// The arguments that the first `n` positions yield, in order.
pub open spec fn coerced(tags: Seq<char>, values: Seq<RawView>, n: nat) -> Seq<ArgView>
    decreases n,
{
    if n == 0 {
        Seq::empty()
    } else {
        let head = coerced(tags, values, (n - 1) as nat);
        match coerce_one(tags[n - 1], values[n - 1]) {
            Some(yielded) => head + yielded,
            None => head,
        }
    }
}

/// Coerces raw values into typed arguments as the type tags direct.
///
/// Without type tags the result is empty, whatever the values. With type
/// tags, each tag takes the value at its own position: more values than tags
/// is an error of arity; a value that its tag refuses is an error of
/// coercion, reported for the first such position; fewer values than tags is
/// an error of arity. A character that is no type tag takes its value and
/// yields nothing.
pub fn parse_osc_args(types: &Option<String>, values: &Vec<RawValue>) -> (r: Result<
    Vec<OscArg>,
    ArgsError,
>)
    ensures
        types is None ==> r is Ok && r->Ok_0@.len() == 0,
        types matches Some(t) ==> {
            let tags = t@;
            let vals = raws_view(values@);
            &&& r is Ok <==> vals.len() == tags.len() && accepted_before(
                tags,
                vals,
                vals.len() as int,
            )
            &&& r matches Ok(args) ==> crate::value::args_view(args@) == coerced(
                tags,
                vals,
                vals.len(),
            )
            &&& r == Err::<Vec<OscArg>, ArgsError>(ArgsError::TooManyValues) <==> vals.len()
                > tags.len()
            &&& r == Err::<Vec<OscArg>, ArgsError>(ArgsError::MissingValues) <==> vals.len()
                < tags.len() && accepted_before(tags, vals, vals.len() as int)
            &&& (r is Err && r->Err_0 is NotANumber) <==> vals.len() <= tags.len()
                && !accepted_before(tags, vals, vals.len() as int)
            &&& r matches Err(ArgsError::NotANumber { index }) ==> first_refused(
                tags,
                vals,
                index as int,
            )
        },
{
    let mut arguments: Vec<OscArg> = Vec::new();
    match types {
        None => Ok(arguments),
        Some(t) => {
            let tag_text = t.as_str();
            let n = tag_text.unicode_len();
            if values.len() > n {
                return Err(ArgsError::TooManyValues);
            }
            let ghost tags = t@;
            let ghost vals = raws_view(values@);
            let mut i: usize = 0;
            while i < n
                invariant
                    types matches Some(given) && given@ == tags,
                    tags == t@,
                    tag_text@ == tags,
                    vals == raws_view(values@),
                    n == tags.len(),
                    values.len() <= n,
                    i <= n,
                    i <= values.len(),
                    accepted_before(tags, vals, i as int),
                    crate::value::args_view(arguments@) == coerced(tags, vals, i as nat),
                decreases n - i,
            {
                if values.len() <= i {
                    return Err(ArgsError::MissingValues);
                }
                let c = tag_text.get_char(i);
                let value = &values[i];
                assert(vals[i as int] == value@);
                let ghost before = crate::value::args_view(arguments@);
                if c == 'i' {
                    match parse_int(value.text.as_str()) {
                        Some(v) => {
                            arguments.push(OscArg::Int(v));
                        },
                        None => {
                            assert(refused_at(tags, vals, i as int));
                            return Err(ArgsError::NotANumber { index: i });
                        },
                    }
                } else if c == 'f' {
                    match value.float_bits {
                        Some(bits) => {
                            arguments.push(OscArg::Float(bits));
                        },
                        None => {
                            assert(refused_at(tags, vals, i as int));
                            return Err(ArgsError::NotANumber { index: i });
                        },
                    }
                } else if c == 's' {
                    arguments.push(OscArg::Str(value.text.clone()));
                }
                assert(crate::value::args_view(arguments@) =~= before + coerce_one(
                    c,
                    value@,
                )->Some_0);
                i += 1;
            }
            Ok(arguments)
        },
    }
}

/// Whether a character is a type tag.
pub open spec fn is_type_tag(c: char) -> bool {
    c == 'i' || c == 'f' || c == 's'
}

/// Where each of the first `n` characters is a type tag and none refuses its
/// value, the first `n` positions yield `n` arguments: one argument for each
/// type tag.
pub proof fn one_argument_per_tag(tags: Seq<char>, values: Seq<RawView>, n: nat)
    requires
        n <= tags.len(),
        n <= values.len(),
        accepted_before(tags, values, n as int),
        forall|i: int| 0 <= i < n ==> is_type_tag(#[trigger] tags[i]),
    ensures
        coerced(tags, values, n).len() == n,
    decreases n,
{
    if n > 0 {
        one_argument_per_tag(tags, values, (n - 1) as nat);
        assert(is_type_tag(tags[n - 1]));
        assert(!refused_at(tags, values, n - 1));
    }
}

/// The first `n` positions never yield more than `n` arguments.
pub proof fn at_most_one_argument_per_tag(tags: Seq<char>, values: Seq<RawView>, n: nat)
    ensures
        coerced(tags, values, n).len() <= n,
    decreases n,
{
    if n > 0 {
        at_most_one_argument_per_tag(tags, values, (n - 1) as nat);
    }
}

/// There is one first position whose value is refused, if there is any.
pub proof fn first_refused_is_one(tags: Seq<char>, values: Seq<RawView>, i: int, j: int)
    requires
        first_refused(tags, values, i),
        first_refused(tags, values, j),
    ensures
        i == j,
{
    if i < j {
        assert(!refused_at(tags, values, i));
    }
    if j < i {
        assert(!refused_at(tags, values, j));
    }
}

} // verus!
