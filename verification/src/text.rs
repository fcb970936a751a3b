//! The text buffer of a keyboard, stored as a `smol_str::SmolStr`.
//!
//! `smol_str` is not verified here. This module declares its two types and
//! states, without proof, what the calls that the keyboard makes do to the
//! characters they hold.
use smol_str::SmolStr;
use smol_str::SmolStrBuilder;
use vstd::prelude::*;

verus! {

#[verifier::external_type_specification]
#[verifier::external_body]
pub struct ExSmolStr(SmolStr);

#[verifier::external_type_specification]
#[verifier::external_body]
pub struct ExSmolStrBuilder(SmolStrBuilder);

/// The characters that a `SmolStr` holds, in order.
pub uninterp spec fn smol_str_chars(text: SmolStr) -> Seq<char>;

/// The characters that a `SmolStrBuilder` has collected so far, in order.
pub uninterp spec fn builder_chars(builder: SmolStrBuilder) -> Seq<char>;

/// `SmolStr::default` is assumed to return the empty string.
pub assume_specification[ <SmolStr as Default>::default ]() -> (text: SmolStr)
    ensures
        smol_str_chars(text) == Seq::<char>::empty(),
;

/// `SmolStr::as_str` is assumed to return a slice of exactly the characters
/// that the `SmolStr` holds.
pub assume_specification<'a>[ SmolStr::as_str ](text: &'a SmolStr) -> (slice: &'a str)
    ensures
        slice@ == smol_str_chars(*text),
;

/// `SmolStr::clone` is assumed to return a `SmolStr` that holds the same
/// characters. The derived `Clone` of `Keyboard` calls it.
pub assume_specification[ <SmolStr as Clone>::clone ](text: &SmolStr) -> (copy: SmolStr)
    ensures
        smol_str_chars(copy) == smol_str_chars(*text),
;

/// `SmolStrBuilder::default` is assumed to return a builder that has
/// collected nothing.
pub assume_specification[ <SmolStrBuilder as Default>::default ]() -> (builder: SmolStrBuilder)
    ensures
        builder_chars(builder) == Seq::<char>::empty(),
;

/// `SmolStrBuilder::push` is assumed to append `ch` to what the builder has
/// collected.
pub assume_specification[ SmolStrBuilder::push ](builder: &mut SmolStrBuilder, ch: char)
    ensures
        builder_chars(*final(builder)) == builder_chars(*old(builder)).push(ch),
;

/// `SmolStrBuilder::push_str` is assumed to append the characters of `text`
/// to what the builder has collected.
pub assume_specification[ SmolStrBuilder::push_str ](builder: &mut SmolStrBuilder, text: &str)
    ensures
        builder_chars(*final(builder)) == builder_chars(*old(builder)) + text@,
;

/// `SmolStrBuilder::finish` is assumed to return a `SmolStr` that holds
/// exactly what the builder has collected.
pub assume_specification[ SmolStrBuilder::finish ](builder: SmolStrBuilder) -> (text: SmolStr)
    ensures
        smol_str_chars(text) == builder_chars(builder),
;

} // verus!
