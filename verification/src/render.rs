//! Rendering of single scalar options, delegated to the `serde_command_opts` serializer.
//!
//! Each function here makes one call of `Serializer::into_args` on a fresh serializer
//! and a pair `(name, value)`. For a pair the serializer first drops the last token it
//! holds, of which a fresh one has none, and then writes the two members in order.
//! Nothing is proved of these functions: what they promise was read off that crate.

use vstd::prelude::*;

verus! {

/// The character of one decimal digit.
pub open spec fn digit(d: nat) -> char {
    if d == 0 {
        '0'
    } else if d == 1 {
        '1'
    } else if d == 2 {
        '2'
    } else if d == 3 {
        '3'
    } else if d == 4 {
        '4'
    } else if d == 5 {
        '5'
    } else if d == 6 {
        '6'
    } else if d == 7 {
        '7'
    } else if d == 8 {
        '8'
    } else {
        '9'
    }
}

/// The decimal digits of a natural number, most significant first, without sign or padding.
pub open spec fn decimal(n: nat) -> Seq<char>
    decreases n,
{
    if n < 10 {
        seq![digit(n)]
    } else {
        decimal(n / 10).push(digit(n % 10))
    }
}

/// The word that stands for a truth value where a flag is followed by its state.
pub open spec fn state_word(value: bool) -> Seq<char> {
    if value {
        "on"@
    } else {
        "off"@
    }
}

/// `serde_command_opts::Serializer::into_args` on the pair of an option's name and a
/// text: the serializer pushes the name and then the text, both unchanged, and
/// reports no error for this pair, so the result is never `None`.
#[verifier::external_body]
pub(crate) fn text_option(name: &str, value: &str) -> (r: Option<Vec<String>>)
    ensures
        r is Some,
        r->Some_0.deep_view() == seq![name@, value@],
{
    serde_command_opts::Serializer::new(serde_command_opts::BooleanType::OnOff).into_args(
        &(name, value),
    ).ok()
}

/// `serde_command_opts::Serializer::into_args` on the pair of an option's name and an
/// unsigned number: the serializer pushes the name and then the number as plain decimal
/// text, and reports no error for this pair, so the result is never `None`.
#[verifier::external_body]
pub(crate) fn number_option(name: &str, value: u64) -> (r: Option<Vec<String>>)
    ensures
        r is Some,
        r->Some_0.deep_view() == seq![name@, decimal(value as nat)],
{
    serde_command_opts::Serializer::new(serde_command_opts::BooleanType::OnOff).into_args(
        &(name, value),
    ).ok()
}

/// `serde_command_opts::Serializer::into_args`, in the serializer's on/off mode, on the
/// pair of an option's name and a truth value: the serializer pushes the name and then
/// `on` for true or `off` for false, and reports no error for this pair, so the result is
/// never `None`.
#[verifier::external_body]
pub(crate) fn state_word_option(name: &str, value: bool) -> (r: Option<Vec<String>>)
    ensures
        r is Some,
        r->Some_0.deep_view() == seq![name@, state_word(value)],
{
    serde_command_opts::Serializer::new(serde_command_opts::BooleanType::OnOff).into_args(
        &(name, value),
    ).ok()
}

} // verus!
