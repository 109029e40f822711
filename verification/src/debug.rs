//! Where `Debug` writes: the formatters of `std`.

use vstd::prelude::*;

verus! {

/// A formatter, which `std` hands to `Debug::fmt`.
#[verifier::external_type_specification]
#[verifier::external_body]
pub struct ExFormatter<'a>(core::fmt::Formatter<'a>);

/// The failure of a formatter.
#[verifier::external_type_specification]
#[verifier::external_body]
pub struct ExFormatError(core::fmt::Error);

/// The text that a formatter has taken so far.
pub uninterp spec fn written(formatter: core::fmt::Formatter<'_>) -> Seq<char>;

/// Whether none of a formatter's options is set, as in `{:?}`: no alternate
/// form, no width, precision, fill or sign, and no hexadecimal numbers.
pub uninterp spec fn plain(formatter: core::fmt::Formatter<'_>) -> bool;

/// Hands a text to a formatter, by `Formatter::write_str`: where it reports no
/// failure, it has taken the text as it stands, whatever its options are.
#[verifier::external_body]
pub(crate) fn write_text(formatter: &mut core::fmt::Formatter<'_>, text: &str) -> (outcome: Result<
    (),
    core::fmt::Error,
>)
    ensures
        outcome is Ok ==> written(*final(formatter)) == written(*old(formatter)) + text@,
{
    formatter.write_str(text)
}

} // verus!
