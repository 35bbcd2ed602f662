//! Names, and the boundary to the `lalrpop_intern` crate that holds their text.

use lalrpop_intern::intern;
use lalrpop_intern::read;
use lalrpop_intern::InternedString;
use std::marker::PhantomData;
use std::rc::Rc;
use vstd::prelude::*;

verus! {

/// A `lalrpop_intern::InternedString`: a place in the table of texts of the thread.
#[verifier::external_type_specification]
#[verifier::external_body]
pub struct ExInternedString(InternedString);

/// The text that the table holds for `interned`, as `Interner::data` shows it.
pub uninterp spec fn interned_text(interned: InternedString) -> Seq<char>;

/// Calls `lalrpop_intern::intern`, which returns the place of `text` in the table of the thread
/// and enters it there if it is new.
///
/// No entry of the table ever changes or leaves. That the place has 32 bits is left unsaid: the
/// contract holds as long as the thread enters fewer than 2^32 different texts.
#[verifier::external_body]
fn intern_text(text: &str) -> (interned: InternedString)
    ensures
        interned_text(interned) == text@,
{
    intern(text)
}

/// Calls `lalrpop_intern::read` with a closure that copies what `Interner::data` shows for
/// `interned`: the text that was entered at that place.
///
/// The place must be one of this thread. It is: `interned` comes from the private field of an
/// [`Identifier`], which is filled by `intern_text` and cannot leave its thread.
#[verifier::external_body]
fn read_text(interned: InternedString) -> (text: String)
    ensures
        text@ == interned_text(interned),
{
    read(|interner| interner.data(interned).to_string())
}

/// A name in a class declaration. It belongs to the thread that made it.
#[derive(Debug, Clone, Copy)]
pub struct Identifier {
    str: InternedString,
    thread: PhantomData<Rc<()>>,
}

impl View for Identifier {
    type V = Seq<char>;

    closed spec fn view(&self) -> Seq<char> {
        interned_text(self.str)
    }
}

impl Identifier {
    /// The name with the given text.
    pub fn new(text: &str) -> (id: Self)
        ensures
            id@ == text@,
    {
        Identifier { str: intern_text(text), thread: PhantomData }
    }

    /// The text of the name.
    pub fn text(&self) -> (text: String)
        ensures
            text@ == self@,
    {
        read_text(self.str)
    }
}

} // verus!
