//! Laws that relate the operations on values and on handles.

use vstd::prelude::*;
use vstd::std_specs::convert::FromSpec;

use crate::lisp::{ExternalPtr, LispObject};
use crate::remacs_sys::{EmacsInt, EmacsUint, GCALIGNMENT};

verus! {

impl LispObject {
    /// Wrapping a word and unwrapping it gives the word back, and
    /// unwrapping a value and wrapping it gives the value back.
    pub proof fn lemma_word_round_trip(n: EmacsInt, v: LispObject)
        ensures
            LispObject::from_C(n).to_C() == n,
            LispObject::from_C(v.to_C()) == v,
    {
    }

    /// The unsigned reading of a word loses nothing either: every value
    /// comes back from its unsigned word, and every unsigned word from its
    /// value.
    pub proof fn lemma_unsigned_word_round_trip(v: LispObject, w: EmacsUint)
        ensures
            0 <= v.word() < 0x1_0000_0000_0000_0000,
            LispObject::from_word(v.word()) == v,
            LispObject::from_word(w as int).word() == w,
    {
    }

    /// `nil` is nil, `t` is not, and no value other than `nil` is nil.
    pub proof fn lemma_only_nil_is_nil(v: LispObject)
        ensures
            LispObject::nil().is_nil(),
            !LispObject::t().is_nil(),
            LispObject::t().is_t(),
            !LispObject::nil().is_t(),
            v != LispObject::nil() ==> !v.is_nil(),
            v.is_nil() ==> v == LispObject::nil(),
    {
    }

    /// `is_not_nil` is the negation of `is_nil`.
    pub proof fn lemma_not_nil_negates_nil(v: LispObject)
        ensures
            v.is_not_nil() == !v.is_nil(),
    {
    }

    /// As a boolean `nil` is false and every other value is true, whatever
    /// else its word may stand for.
    pub proof fn lemma_truthiness(v: LispObject)
        ensures
            bool::from_spec(LispObject::nil()) == false,
            v != LispObject::nil() ==> bool::from_spec(v) == true,
            bool::from_spec(v) == v.is_not_nil(),
    {
    }

    /// A boolean becomes `t` or `nil`, the unit value becomes `nil`, and a
    /// boolean that went to a value comes back as it was.
    pub proof fn lemma_bool_round_trip(b: bool)
        ensures
            LispObject::from_spec(true) == LispObject::t(),
            LispObject::from_spec(false) == LispObject::nil(),
            LispObject::from_spec(()) == LispObject::nil(),
            bool::from_spec(LispObject::from_spec(b)) == b,
    {
    }

    /// Two values are identical exactly when their words are the same
    /// number, and exactly when they are equal.
    pub proof fn lemma_eq_is_word_equality(a: LispObject, b: LispObject)
        ensures
            a.eq_object(b) == (a.to_C() == b.to_C()),
            a.eq_object(b) == (a.word() == b.word()),
            a.eq_object(b) == (a == b),
    {
    }

    /// Identity of values is reflexive, symmetric and transitive.
    pub proof fn lemma_eq_is_equivalence(a: LispObject, b: LispObject, c: LispObject)
        ensures
            a.eq_object(a),
            a.eq_object(b) == b.eq_object(a),
            a.eq_object(b) && b.eq_object(c) ==> a.eq_object(c),
    {
    }

    /// The untagged address is aligned, not above the word, and less than
    /// one alignment below it; the tag is what lies between.
    pub proof fn lemma_untagged_bounds(v: LispObject)
        ensures
            LispObject::is_aligned(v.get_untaggedptr()),
            v.get_untaggedptr() + v.tag() == v.word(),
            LispObject::is_tag(v.tag() as EmacsInt),
    {
        let w: int = v.word();
        let g: int = GCALIGNMENT as int;
        assert((w - w % g) % g == 0);
    }

    /// Clearing the tag of a tagged address gives the address back,
    /// whatever the tag, and the tag can be read off as well.
    pub proof fn lemma_untag_recovers_address<T>(p: ExternalPtr<T>, ty: EmacsInt)
        requires
            LispObject::is_aligned(p@),
            LispObject::is_tag(ty),
        ensures
            LispObject::tag_ptr(p, ty).get_untaggedptr() == p.as_ptr(),
            LispObject::tag_ptr(p, ty).tag() == ty,
    {
        let a: int = p@ as int;
        let g: int = GCALIGNMENT as int;
        assert(a % g == 0 && 0 <= ty < g ==> (a + ty) % g == ty);
    }

    /// A value that refers to an object is not `nil`: neither one with an
    /// address other than null, nor one with a tag other than zero.
    pub proof fn lemma_heap_pointer_is_not_nil<T>(p: ExternalPtr<T>, ty: EmacsInt)
        requires
            LispObject::is_aligned(p@),
            LispObject::is_tag(ty),
            !p.is_null() || ty != 0,
        ensures
            !LispObject::tag_ptr(p, ty).is_nil(),
            LispObject::tag_ptr(p, ty).is_not_nil(),
    {
        assert(LispObject::nil().word() == 0);
    }

    /// A value is the tagged address of its own untagged address and tag.
    pub proof fn lemma_retag_recovers_value<T>(v: LispObject)
        ensures
            LispObject::tag_ptr(ExternalPtr::<T>::new(v.get_untaggedptr()), v.tag() as EmacsInt)
                == v,
    {
        ExternalPtr::<T>::lemma_new_view(v.get_untaggedptr(), ExternalPtr::<T>::new(0));
    }

    /// Values made from different addresses are different values,
    /// whatever their tags and whatever the objects hold.
    pub proof fn lemma_distinct_addresses_distinct_values<T>(
        p: ExternalPtr<T>,
        ty_p: EmacsInt,
        q: ExternalPtr<T>,
        ty_q: EmacsInt,
    )
        requires
            LispObject::is_aligned(p@),
            LispObject::is_aligned(q@),
            LispObject::is_tag(ty_p),
            LispObject::is_tag(ty_q),
            p.as_ptr() != q.as_ptr(),
        ensures
            !LispObject::tag_ptr(p, ty_p).eq_object(LispObject::tag_ptr(q, ty_q)),
    {
        LispObject::lemma_untag_recovers_address(p, ty_p);
        LispObject::lemma_untag_recovers_address(q, ty_q);
    }
}

impl<T> ExternalPtr<T> {
    /// A handle is null exactly when it was made from the null address.
    pub proof fn lemma_null_iff_zero(p: EmacsUint)
        ensures
            ExternalPtr::<T>::new(0).is_null(),
            p != 0 ==> !ExternalPtr::<T>::new(p).is_null(),
            ExternalPtr::<T>::new(p).as_ptr() == p,
    {
        ExternalPtr::<T>::lemma_new_view(p, ExternalPtr::<T>::new(0));
        ExternalPtr::<T>::lemma_new_view(0, ExternalPtr::<T>::new(0));
    }

    /// A copy of a handle has the address of the handle.
    pub proof fn lemma_copy_keeps_address(self, copy: ExternalPtr<T>)
        requires
            copy == self,
        ensures
            copy.as_ptr() == self.as_ptr(),
            copy.is_null() == self.is_null(),
    {
    }
}

} // verus!
