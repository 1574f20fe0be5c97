//! Codes that arrive as strings of the service's object runtime.
//!
//! The service hands some tags over as string objects. Such a string is read
//! once, as UTF-8 text, and the text must be exactly four bytes long to be a
//! code: a longer or shorter one is never cut or filled.

use crate::four_char_code::FourCharacterCode;
use core_foundation::string::CFString;
use std::borrow::Cow;
use vstd::prelude::*;
use vstd::utf8::*;

verus! {

/// A string object of the runtime. It is immutable, and nothing of it is
/// known here but what `foreign_text` names.
#[verifier::external_type_specification]
#[verifier::external_body]
pub struct ExCFString(core_foundation::string::CFString);

/// The text that `core_foundation` reads from a string object: what
/// `Cow::<str>::from(&CFString)` gives for it, and `None` for a string that
/// the runtime cannot write as UTF-8, on which that conversion panics.
pub uninterp spec fn foreign_text(string: CFString) -> Option<Seq<char>>;

/// `Cow::<str>::from(&CFString)`, made into a `String`: the text of a string
/// object. The conversion asks the runtime for the string's UTF-8 form and
/// asserts that all of it was written, so a string without such a form is
/// left out.
#[verifier::external_body]
fn text_of(string: &CFString) -> (text: String)
    requires
        foreign_text(*string) is Some,
    ensures
        foreign_text(*string) == Some(text@),
{
    Cow::from(string).into_owned()
}

impl FourCharacterCode {
    /// The code that a string object spells: the bytes of its text, where
    /// there are exactly four, and `None` where there are more or fewer.
    pub fn from_foreign_string(string: &CFString) -> (code: Option<FourCharacterCode>)
        requires
            foreign_text(*string) is Some,
        ensures
            code is Some <==> encode_utf8(foreign_text(*string)->0).len() == 4,
            code matches Some(c) ==> c@ == encode_utf8(foreign_text(*string)->0),
    {
        let text = text_of(string);
        FourCharacterCode::try_from_text(text.as_str())
    }
}

} // verus!
