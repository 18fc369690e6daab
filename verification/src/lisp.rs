//! The tagged value and the typed handle.

use vstd::prelude::*;
use vstd::std_specs::convert::IntoSpec;

use crate::remacs_sys::{
    EmacsInt, EmacsUint, Qnil, Qt, EMACS_INT_MAX, GCALIGNMENT, INTTYPEBITS, VALMASK,
};

verus! {

/// Largest magnitude of an immediate integer.
pub const INTMASK: EmacsInt = EMACS_INT_MAX >> (INTTYPEBITS - 1);

/// Bit that marks a heap object whose layout is described by its header.
pub const PSEUDOVECTOR_FLAG: EmacsUint = 0x4000_0000_0000_0000;

/// `INTMASK` is the largest word with its two top bits clear, so an
/// immediate integer has one bit less than a word, its sign included.
pub proof fn lemma_intmask_value()
    ensures
        INTMASK == 0x3fff_ffff_ffff_ffff,
        -INTMASK - 1 == -0x4000_0000_0000_0000,
        INTMASK + 1 == PSEUDOVECTOR_FLAG,
{
    assert(EMACS_INT_MAX >> (INTTYPEBITS - 1) == 0x3fff_ffff_ffff_ffffi64) by (bit_vector);
}

/// A Lisp value: one machine word that holds a type tag in its low bits and,
/// in the rest, either the datum itself or the address of a heap object.
///
/// The model of a value is its word: the field `0` as a signed number,
/// `word()` as an unsigned one. Two values are equal exactly when their
/// words are.
#[derive(PartialEq, Eq, Clone, Copy, Debug, Structural)]
pub struct LispObject(pub EmacsInt);

impl LispObject {
    /// The `nil` singleton.
    pub open spec fn nil() -> LispObject {
        LispObject(Qnil)
    }

    /// The `t` singleton.
    pub open spec fn t() -> LispObject {
        LispObject(Qt)
    }

    /// The word as an unsigned number, which is how an address reads it.
    pub open spec fn word(self) -> int {
        if self.0 < 0 {
            self.0 + 0x1_0000_0000_0000_0000
        } else {
            self.0 as int
        }
    }

    /// The value whose word, as an unsigned number, is `w`.
    pub open spec fn from_word(w: int) -> LispObject {
        if w >= 0x8000_0000_0000_0000 {
            LispObject((w - 0x1_0000_0000_0000_0000) as EmacsInt)
        } else {
            LispObject(w as EmacsInt)
        }
    }

    /// The tag of a value: what its word holds below the alignment.
    pub open spec fn tag(self) -> int {
        self.word() % (GCALIGNMENT as int)
    }

    /// Whether an address leaves the tag bits free.
    pub open spec fn is_aligned(addr: EmacsUint) -> bool {
        (addr as int) % (GCALIGNMENT as int) == 0
    }

    /// Whether a number is small enough to be a tag.
    pub open spec fn is_tag(ty: EmacsInt) -> bool {
        0 <= ty < GCALIGNMENT
    }

    pub open spec fn spec_from_c(n: EmacsInt) -> LispObject {
        LispObject(n)
    }

    pub open spec fn spec_to_c(self) -> EmacsInt {
        self.0
    }

    pub open spec fn spec_is_nil(self) -> bool {
        self == LispObject::nil()
    }

    pub open spec fn spec_is_not_nil(self) -> bool {
        self != LispObject::nil()
    }

    pub open spec fn spec_is_t(self) -> bool {
        self == LispObject::t()
    }

    pub open spec fn spec_eq_object(self, other: LispObject) -> bool {
        self.0 == other.0
    }

    /// The word without its tag, as an address.
    pub open spec fn spec_get_untaggedptr(self) -> EmacsUint {
        (self.word() - self.tag()) as EmacsUint
    }

    /// The value whose word is the address of `external` plus the tag `ty`.
    pub open spec fn spec_tag_ptr<T>(external: ExternalPtr<T>, ty: EmacsInt) -> LispObject {
        LispObject::from_word(external@ + ty)
    }

    pub open spec fn spec_fits_fixnum(n: EmacsInt) -> bool {
        -INTMASK - 1 <= n <= INTMASK
    }

    /// Wraps a word that the runtime produced, without looking at it.
    #[allow(non_snake_case)]
    #[verifier::when_used_as_spec(spec_from_c)]
    pub fn from_C(n: EmacsInt) -> (r: Self)
        ensures
            r == LispObject(n),
    {
        Self(n)
    }

    /// Hands the word back, unchanged.
    #[allow(non_snake_case)]
    #[verifier::when_used_as_spec(spec_to_c)]
    pub fn to_C(self) -> (n: EmacsInt)
        ensures
            n == self.0,
    {
        self.0
    }

    /// True exactly for the `nil` singleton.
    #[verifier::when_used_as_spec(spec_is_nil)]
    pub fn is_nil(self) -> (b: bool)
        ensures
            b == (self == LispObject::nil()),
    {
        self.0 == Qnil
    }

    /// True for every value but `nil`.
    #[verifier::when_used_as_spec(spec_is_not_nil)]
    pub fn is_not_nil(self) -> (b: bool)
        ensures
            b == (self != LispObject::nil()),
            b == !self.is_nil(),
    {
        self.0 != Qnil
    }

    /// True exactly for the `t` singleton.
    #[verifier::when_used_as_spec(spec_is_t)]
    pub fn is_t(self) -> (b: bool)
        ensures
            b == (self == LispObject::t()),
    {
        self.0 == Qt
    }

    /// Identity of two values: true exactly when their words are the same.
    /// Nothing is looked up in the heap, so two objects with equal contents
    /// at different addresses are different values.
    #[verifier::when_used_as_spec(spec_eq_object)]
    pub fn eq_object(self, other: LispObject) -> (b: bool)
        ensures
            b == (self.0 == other.0),
            b == (self == other),
    {
        self.0 == other.0
    }

    /// Identity of a value and of what `other` converts to: `eq_object` of
    /// the value and of the one that the conversion returned. Where the
    /// argument's type states what it converts to, that is the value
    /// compared with.
    pub fn eq<O: Into<LispObject>>(self, other: O) -> (b: bool)
        ensures
            exists|o: LispObject|
                #[trigger] call_ensures(<O as Into<LispObject>>::into, (other,), o)
                    && b == self.eq_object(o),
            O::obeys_into_spec() ==> b == self.eq_object(other.into_spec()),
    {
        let o: LispObject = other.into();
        self.eq_object(o)
    }

    /// The payload of the word: the word with its tag cleared, as an address.
    /// Which kind of object the address refers to is not decided here.
    #[verifier::when_used_as_spec(spec_get_untaggedptr)]
    pub fn get_untaggedptr(self) -> (p: EmacsUint)
        ensures
            p == self.word() - self.tag(),
            LispObject::is_aligned(p),
    {
        let w: EmacsInt = self.to_C();
        proof {
            LispObject::lemma_mask_clears_tag(w);
        }
        (w & VALMASK) as EmacsUint
    }

    /// The value that refers to the object behind `external` as one of type
    /// `ty`: its word is the address plus the tag. The address must leave the
    /// tag bits free, and `ty` must be a tag.
    #[verifier::when_used_as_spec(spec_tag_ptr)]
    pub fn tag_ptr<T>(external: ExternalPtr<T>, ty: EmacsInt) -> (r: LispObject)
        requires
            LispObject::is_aligned(external@),
            LispObject::is_tag(ty),
        ensures
            r.word() == external@ + ty,
            r == LispObject::from_word(external@ + ty),
    {
        let addr: EmacsUint = external.as_ptr();
        proof {
            LispObject::lemma_or_adds_tag(addr, ty);
        }
        LispObject::from_C((addr as EmacsInt) | ty)
    }

    /// Whether `n` can be held as an immediate integer: whether it lies
    /// between `-INTMASK - 1` and `INTMASK`. Larger magnitudes are for the
    /// caller to box.
    #[verifier::when_used_as_spec(spec_fits_fixnum)]
    pub fn fits_fixnum(n: EmacsInt) -> (b: bool)
        ensures
            b == (-INTMASK - 1 <= n <= INTMASK),
    {
        proof {
            lemma_intmask_value();
        }
        -INTMASK - 1 <= n && n <= INTMASK
    }

    /// Masking a word with `VALMASK` takes its tag away and leaves the rest.
    proof fn lemma_mask_clears_tag(w: EmacsInt)
        ensures
            ((w & VALMASK) as EmacsUint) == LispObject(w).word() - LispObject(w).tag(),
            LispObject::is_aligned((w & VALMASK) as EmacsUint),
    {
        let u: EmacsUint = w as EmacsUint;
        assert(w < 0 ==> (w as u64) == w + 0x1_0000_0000_0000_0000) by (bit_vector);
        assert(w >= 0 ==> (w as u64) == w) by (bit_vector);
        assert(u == LispObject(w).word());
        assert(((w & VALMASK) as u64) == (w as u64) - (w as u64) % (GCALIGNMENT as u64))
            by (bit_vector);
        assert(((w & VALMASK) as u64) % (GCALIGNMENT as u64) == 0) by (bit_vector);
    }

    /// Or-ing a tag into an aligned address adds the tag to it.
    proof fn lemma_or_adds_tag(addr: EmacsUint, ty: EmacsInt)
        requires
            LispObject::is_aligned(addr),
            LispObject::is_tag(ty),
        ensures
            LispObject((addr as EmacsInt) | ty) == LispObject::from_word(addr + ty),
            LispObject((addr as EmacsInt) | ty).word() == addr + ty,
    {
        let w: EmacsInt = (addr as EmacsInt) | ty;
        assert(addr % (GCALIGNMENT as u64) == 0 && 0 <= ty < GCALIGNMENT ==> (((addr as i64)
            | ty) as u64) == addr + ty) by (bit_vector);
        assert(w < 0 ==> (w as u64) == w + 0x1_0000_0000_0000_0000) by (bit_vector);
        assert(w >= 0 ==> (w as u64) == w) by (bit_vector);
    }
}

impl From<()> for LispObject {
    /// The unit value is `nil`.
    fn from(_v: ()) -> (r: LispObject) {
        LispObject(Qnil)
    }
}

impl vstd::std_specs::convert::FromSpecImpl<()> for LispObject {
    open spec fn obeys_from_spec() -> bool {
        true
    }

    open spec fn from_spec(_v: ()) -> LispObject {
        LispObject::nil()
    }
}

impl From<bool> for LispObject {
    /// `true` is `t`, `false` is `nil`.
    fn from(v: bool) -> (r: LispObject) {
        if v {
            LispObject(Qt)
        } else {
            LispObject(Qnil)
        }
    }
}

impl vstd::std_specs::convert::FromSpecImpl<bool> for LispObject {
    open spec fn obeys_from_spec() -> bool {
        true
    }

    open spec fn from_spec(v: bool) -> LispObject {
        if v {
            LispObject::t()
        } else {
            LispObject::nil()
        }
    }
}

impl From<LispObject> for bool {
    /// Every value but `nil` counts as true.
    fn from(o: LispObject) -> (b: bool) {
        o.is_not_nil()
    }
}

impl vstd::std_specs::convert::FromSpecImpl<LispObject> for bool {
    open spec fn obeys_from_spec() -> bool {
        true
    }

    open spec fn from_spec(o: LispObject) -> bool {
        o != LispObject::nil()
    }
}

/// A handle on an object of layout `T` in the runtime's heap: an address and
/// nothing more. The handle does not own the object, and copying it copies
/// the address only.
///
/// The model of a handle is its address; zero is the null address.
pub struct ExternalPtr<T> {
    addr: EmacsUint,
    pointee: core::marker::PhantomData<T>,
}

impl<T> View for ExternalPtr<T> {
    type V = EmacsUint;

    closed spec fn view(&self) -> EmacsUint {
        self.addr
    }
}

impl<T> Copy for ExternalPtr<T> {

}

impl<T> Clone for ExternalPtr<T> {
    /// A second handle on the same address. The object is not touched.
    fn clone(&self) -> (r: Self)
        ensures
            r == *self,
            r@ == self@,
    {
        Self::new(self.addr)
    }
}

impl<T> ExternalPtr<T> {
    /// The handle on address `p`.
    pub closed spec fn spec_new(p: EmacsUint) -> Self {
        ExternalPtr { addr: p, pointee: core::marker::PhantomData }
    }

    pub open spec fn spec_is_null(self) -> bool {
        self@ == 0
    }

    pub open spec fn spec_as_ptr(self) -> EmacsUint {
        self@
    }

    /// Keeps the address as it is, the null address too.
    #[verifier::when_used_as_spec(spec_new)]
    pub fn new(p: EmacsUint) -> (r: Self)
        ensures
            r == Self::spec_new(p),
            r@ == p,
    {
        ExternalPtr { addr: p, pointee: core::marker::PhantomData }
    }

    /// True exactly for a handle on the null address.
    #[verifier::when_used_as_spec(spec_is_null)]
    pub fn is_null(self) -> (b: bool)
        ensures
            b == (self@ == 0),
    {
        self.addr == 0
    }

    /// The address, for reading.
    #[verifier::when_used_as_spec(spec_as_ptr)]
    pub fn as_ptr(self) -> (p: EmacsUint)
        ensures
            p == self@,
    {
        self.addr
    }

    /// The address, for writing. The handle itself stays as it was.
    pub fn as_mut(&mut self) -> (p: EmacsUint)
        ensures
            p == old(self)@,
            *final(self) == *old(self),
    {
        self.addr
    }

    /// A handle has the address it was made from, and a handle made from
    /// the address of another is that handle.
    pub proof fn lemma_new_view(p: EmacsUint, h: ExternalPtr<T>)
        ensures
            ExternalPtr::<T>::new(p)@ == p,
            ExternalPtr::<T>::new(h@) == h,
    {
    }
}

} // verus!
