//! Class declarations as the parser hands them over.

use crate::names::Identifier;
use crate::tokens::tokens_text;
use quote::Tokens;
use vstd::prelude::*;

verus! {

/// Code that is passed on as it is.
#[derive(Debug)]
pub struct OpaqueTokens {
    /// The code.
    pub tokens: Tokens,
}

impl View for OpaqueTokens {
    type V = Seq<char>;

    open spec fn view(&self) -> Seq<char> {
        tokens_text(self.tokens)
    }
}

/// A type.
#[derive(Debug)]
pub enum Type {
    /// `T`
    Name(Identifier),
    /// `T<A, B>`
    Args(Identifier, Vec<Type>),
    /// `[T]`
    Array(Box<Type>),
    /// `A + B`
    Sum(Vec<Type>),
}

/// A field of a struct or an argument of a function: a name with its type.
#[derive(Debug)]
pub struct Field {
    /// The name.
    pub name: Identifier,
    /// Its type.
    pub ty: Type,
}

/// The signature of a method, without the receiver.
#[derive(Debug)]
pub struct FnSig {
    /// The arguments after `&self`.
    pub args: Vec<Field>,
    /// The type of the result; none stands for the unit type.
    pub return_ty: Option<Type>,
}

/// A signature with its body.
#[derive(Debug)]
pub struct FnDef {
    /// The signature.
    pub sig: FnSig,
    /// The body, braces included.
    pub code: OpaqueTokens,
}

/// A method of a class.
#[derive(Debug)]
pub struct Method {
    /// The name of the method.
    pub name: Identifier,
    /// Its signature and body.
    pub fn_def: FnDef,
}

/// The struct that holds the private data of an instance.
#[derive(Debug)]
pub struct PrivateStruct {
    /// The name of the struct.
    pub name: Identifier,
    /// Its fields.
    pub fields: Vec<Field>,
}

/// One member of a class declaration.
#[derive(Debug)]
pub enum Member {
    /// The private data of an instance.
    PrivateStruct(PrivateStruct),
    /// A method.
    Method(Method),
    /// The body of the function that makes the private data of a new instance.
    Init(OpaqueTokens),
}

/// A class declaration.
#[derive(Debug)]
pub struct Class {
    /// The name of the class.
    pub name: Identifier,
    /// The class that this one extends; none stands for `GObject`.
    pub extends: Option<Identifier>,
    /// The members, in the order of their declaration.
    pub members: Vec<Member>,
}

/// All class declarations, in their order.
#[derive(Debug)]
pub struct Program {
    /// The declarations.
    pub classes: Vec<Class>,
}

} // verus!
