//! Which members of a class count, and for what.

use crate::ast::Class;
use crate::ast::Member;
use crate::ast::Method;
use crate::ast::OpaqueTokens;
use crate::ast::PrivateStruct;
use crate::balance::has_plain_prefix;
use crate::laws::law_every_method_is_generated;
use crate::laws::occurs_in;
use crate::letters::lower_cased_first;
use crate::letters::lowercase;
use crate::nesting::is_plain;
use crate::template::as_init;
use crate::template::as_method;
use crate::template::as_private_struct;
use crate::template::assignment_text;
use crate::template::c_symbols_text;
use crate::template::class_init_text;
use crate::template::class_methods;
use crate::template::has_private_struct;
use crate::template::init_text;
use crate::template::is_reached;
use crate::template::method_c_symbol_text;
use crate::template::method_impl_fn_text;
use crate::template::method_redirect_text;
use crate::template::method_redirects_text;
use crate::template::method_trait_fn_text;
use crate::template::methods_declared_text;
use crate::template::private_struct;
use crate::template::slot_text;
use crate::template::type_decls_text;
use crate::tokens::Beside;
use vstd::prelude::*;

verus! {

/// What is picked out of a list is as long as the list of the items that it is picked from.
proof fn lemma_picked_len<B>(members: Seq<Member>, pick: spec_fn(Member) -> Option<B>)
    ensures
        members.filter_map(pick).len() == members.filter(|m: Member| pick(m) is Some).len(),
    decreases members.len(),
{
    reveal(Seq::filter);
    if members.len() > 0 {
        lemma_picked_len(members.drop_last(), pick);
    }
}

/// What is picked from an item stands behind what is picked from the items before it.
proof fn lemma_picked_at<B>(members: Seq<Member>, pick: spec_fn(Member) -> Option<B>, i: int)
    requires
        0 <= i < members.len(),
        pick(members[i]) is Some,
    ensures
        members.take(i).filter_map(pick).len() < members.filter_map(pick).len(),
        members.filter_map(pick)[members.take(i).filter_map(pick).len() as int]
            == pick(members[i])->0,
    decreases members.len(),
{
    if i < members.len() - 1 {
        lemma_picked_at(members.drop_last(), pick, i);
        assert(members.drop_last().take(i) =~= members.take(i));
    } else {
        assert(members.take(i) =~= members.drop_last());
    }
}

/// Nothing is picked where there is nothing to pick from.
proof fn lemma_nothing_picked<B>(members: Seq<Member>, pick: spec_fn(Member) -> Option<B>)
    requires
        forall|i: int| 0 <= i < members.len() ==> pick(#[trigger] members[i]) is None,
    ensures
        members.filter_map(pick).len() == 0,
    decreases members.len(),
{
    if members.len() > 0 {
        let rest = members.drop_last();
        assert forall|i: int| 0 <= i < rest.len() implies pick(#[trigger] rest[i]) is None by {
            assert(rest[i] == members[i]);
        }
        lemma_nothing_picked(rest, pick);
        assert(members.last() == members[members.len() - 1]);
    }
}

/// The methods of a class are its members that are methods, in order: there are as many of them,
/// and the method that is declared as the member `i` stands behind as many methods as are declared
/// before it. Neither the names nor the signatures of the methods make a difference.
pub proof fn law_methods_are_the_members_that_are_methods(class: Class)
    ensures
        class_methods(class).len() == class.members@.filter(|m: Member| m is Method).len(),
        forall|i: int|
            0 <= i < class.members@.len() && (#[trigger] class.members@[i]) is Method ==> {
                let before = class.members@.take(i).filter(|m: Member| m is Method).len();
                &&& before < class_methods(class).len()
                &&& class_methods(class)[before as int] == class.members@[i]->Method_0
            },
{
    let members = class.members@;
    let pick = |m: Member| as_method(m);
    let is_method = |m: Member| m is Method;
    assert((|m: Member| pick(m) is Some) =~= is_method);
    lemma_picked_len(members, pick);
    assert forall|i: int| 0 <= i < members.len() && (#[trigger] members[i]) is Method implies {
        let before = members.take(i).filter(is_method).len();
        &&& before < class_methods(class).len()
        &&& class_methods(class)[before as int] == members[i]->Method_0
    } by {
        lemma_picked_len(members.take(i), pick);
        lemma_picked_at(members, pick, i);
    }
}

/// One more member adds the method that it is, if it is one, behind the other methods.
pub proof fn law_methods_grow_with_the_members(class: Class, more: Class, member: Member)
    requires
        more.members@ == class.members@.push(member),
    ensures
        class_methods(more) == match member {
            Member::Method(method) => class_methods(class).push(method),
            _ => class_methods(class),
        },
{
    assert(more.members@.drop_last() =~= class.members@);
}

/// The private struct of a class is the first that it declares, wherever it stands among the
/// members.
pub proof fn law_private_struct_is_the_first(class: Class, i: int, private: PrivateStruct)
    requires
        0 <= i < class.members@.len(),
        class.members@[i] == Member::PrivateStruct(private),
        forall|j: int| 0 <= j < i ==> !((#[trigger] class.members@[j]) is PrivateStruct),
    ensures
        has_private_struct(class),
        private_struct(class) == private,
{
    let pick = |m: Member| as_private_struct(m);
    lemma_nothing_picked(class.members@.take(i), pick);
    lemma_picked_at(class.members@, pick, i);
}

/// A class is without a private struct exactly where none of its members is one.
pub proof fn law_private_struct_must_be_declared(class: Class)
    ensures
        has_private_struct(class) <==> exists|i: int|
            0 <= i < class.members@.len() && (#[trigger] class.members@[i]) is PrivateStruct,
{
    let pick = |m: Member| as_private_struct(m);
    let members = class.members@;
    if exists|i: int| 0 <= i < members.len() && (#[trigger] members[i]) is PrivateStruct {
        let i: int = choose|i: int|
            0 <= i < members.len() && (#[trigger] members[i]) is PrivateStruct;
        lemma_picked_at(members, pick, i);
    } else {
        lemma_nothing_picked(members, pick);
    }
}

/// The private data is made by the first initializer that a class declares, whatever its other
/// members are.
pub proof fn law_first_initializer_is_used(class: Class, i: int, code: OpaqueTokens)
    requires
        0 <= i < class.members@.len(),
        class.members@[i] == Member::Init(code),
        forall|j: int| 0 <= j < i ==> !((#[trigger] class.members@[j]) is Init),
    ensures
        init_text(class) == code@,
{
    let pick = |m: Member| as_init(m);
    lemma_nothing_picked(class.members@.take(i), pick);
    lemma_picked_at(class.members@, pick, i);
}

/// Only where a class declares no initializer, the private data is the default of the private
/// struct, which is the first one declared.
pub proof fn law_default_without_initializer(class: Class, i: int, private: PrivateStruct)
    requires
        forall|j: int|
            0 <= j < class.members@.len() ==> !((#[trigger] class.members@[j]) is Init),
        0 <= i < class.members@.len(),
        class.members@[i] == Member::PrivateStruct(private),
        forall|j: int| 0 <= j < i ==> !((#[trigger] class.members@[j]) is PrivateStruct),
    ensures
        init_text(class) == private.name@.beside(":: default ( )"@),
{
    law_private_struct_is_the_first(class, i, private);
    lemma_nothing_picked(class.members@, |m: Member| as_init(m));
}

/// The generator gets as far as a class where this class and every class before it has a member
/// that is a private struct.
pub proof fn law_how_far_the_generator_gets(classes: Seq<Class>, i: int)
    requires
        0 <= i < classes.len(),
    ensures
        is_reached(classes, i) <==> forall|j: int|
            0 <= j <= i ==> exists|k: int|
                0 <= k < (#[trigger] classes[j]).members@.len()
                    && classes[j].members@[k] is PrivateStruct,
{
    assert forall|j: int| 0 <= j <= i implies {
        has_private_struct(#[trigger] classes[j]) <==> exists|k: int|
            0 <= k < classes[j].members@.len() && classes[j].members@[k] is PrivateStruct
    } by {
        law_private_struct_must_be_declared(classes[j]);
    }
    if is_reached(classes, i) {
        assert forall|j: int| 0 <= j <= i implies exists|k: int|
            0 <= k < (#[trigger] classes[j]).members@.len()
                && classes[j].members@[k] is PrivateStruct by {
            assert(has_private_struct(classes[j]));
        }
    }
}

/// A class has a plain prefix where it has a member that is a private struct, and a name that, with
/// its first character in lower case, holds no delimiter.
pub proof fn law_plain_prefix(class: Class)
    ensures
        has_plain_prefix(class) <==> {
            &&& exists|i: int|
                0 <= i < class.members@.len() && (#[trigger] class.members@[i]) is PrivateStruct
            &&& class.name@.len() > 0
            &&& is_plain(lowercase(class.name@[0]) + class.name@.skip(1))
        },
{
    law_private_struct_must_be_declared(class);
}

/// Every member that is a method has its place in each part of the code that deals with methods,
/// and so in the code for the class, whatever its signature is.
pub proof fn law_every_declared_method_is_generated(class: Class, i: int, method: Method)
    requires
        0 <= i < class.members@.len(),
        class.members@[i] == Member::Method(method),
    ensures
        ({
            let prefix = lower_cased_first(class.name@);
            &&& occurs_in(slot_text(class, method), type_decls_text(class))
            &&& occurs_in(assignment_text(class, method), class_init_text(class))
            &&& occurs_in(method_trait_fn_text(method), methods_declared_text(class))
            &&& occurs_in(method_impl_fn_text(method), methods_declared_text(class))
            &&& occurs_in(method_redirect_text(method), method_redirects_text(class))
            &&& occurs_in(
                method_c_symbol_text(class, prefix, method),
                c_symbols_text(class, prefix),
            )
        }),
{
    law_methods_are_the_members_that_are_methods(class);
    let before: nat = class.members@.take(i).filter(|m: Member| m is Method).len();
    assert(class.members@[i] is Method);
    law_every_method_is_generated(class, before as int, lower_cased_first(class.name@));
}

} // verus!
