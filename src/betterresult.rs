use crate::betteroption::BOption;
use vstd::layout::{align_of, layout_for_type_is_valid, size_of};
use vstd::prelude::*;

verus! {

/// Tag of the stable outcome record.
#[derive(Debug, Clone, Copy, PartialEq, Eq, Structural, Hash)]
pub enum FfiResultTag {
    Success,
    Failure,
}

/// The two payload regions of the stable outcome record, of which at most one
/// is live. Which one is decided by the record's tag; a region is read only
/// through an accessor that asks for that tag's region.
enum Overlay<T, E> {
    Success(T),
    Failure(E),
}

/// The stable outcome record: an explicit tag and storage whose live region is
/// the one the tag names. Dropping it destroys exactly that region's payload.
pub struct FfiResult<T, E> {
    tag: FfiResultTag,
    discriminant: Overlay<T, E>,
}

/// The outcome container: a success value or a failure value.
pub enum BResult<T, E> {
    Success(T),
    Failure(E),
}

/// `size` rounded up to a multiple of `align`.
pub open spec fn round_up(size: nat, align: nat) -> nat
    recommends
        align > 0,
{
    if size % align == 0 {
        size
    } else {
        size + (align - size % align) as nat
    }
}

pub open spec fn max_nat(a: nat, b: nat) -> nat {
    if a >= b {
        a
    } else {
        b
    }
}

/// Size in bytes of the stable outcome record for payloads of the given sizes
/// and alignments: a one-byte tag padded to the larger alignment, then storage
/// as large as the larger payload, rounded up to that alignment.
pub open spec fn result_record_size(
    ok_size: nat,
    ok_align: nat,
    err_size: nat,
    err_align: nat,
) -> nat {
    let align = max_nat(ok_align, err_align);
    align + round_up(max_nat(ok_size, err_size), align)
}

/// Whether the native outcome container for `T` and `E` takes a different
/// number of bytes than the stable record.
pub open spec fn result_niche_optimized<T, E>() -> bool {
    size_of::<BResult<T, E>>() != result_record_size(
        size_of::<T>(),
        align_of::<T>(),
        size_of::<E>(),
        align_of::<E>(),
    )
}

impl<T, E> Overlay<T, E> {
    fn into_success(self) -> (t: T)
        requires
            self is Success,
        ensures
            t == self->Success_0,
    {
        match self {
            Overlay::Success(t) => t,
            Overlay::Failure(_) => vstd::pervasive::unreached(),
        }
    }

    fn into_failure(self) -> (e: E)
        requires
            self is Failure,
        ensures
            e == self->Failure_0,
    {
        match self {
            Overlay::Success(_) => vstd::pervasive::unreached(),
            Overlay::Failure(e) => e,
        }
    }
}

impl<T, E> FfiResult<T, E> {
    #[verifier::type_invariant]
    closed spec fn tag_governs_storage(self) -> bool {
        &&& (self.tag is Success) <==> (self.discriminant is Success)
        &&& (self.tag is Failure) <==> (self.discriminant is Failure)
    }

    pub fn new_ok(t: T) -> (r: Self)
        ensures
            r@ == BResult::<T, E>::Success(t),
    {
        FfiResult { tag: FfiResultTag::Success, discriminant: Overlay::Success(t) }
    }

    pub fn new_err(e: E) -> (r: Self)
        ensures
            r@ == BResult::<T, E>::Failure(e),
    {
        FfiResult { tag: FfiResultTag::Failure, discriminant: Overlay::Failure(e) }
    }

    /// Moves the live payload into the native form. The tag is read first, and
    /// only the region it names is read.
    pub fn into_bresult(self) -> (r: BResult<T, E>)
        ensures
            r == self@,
            r.stable_spec() == self,
    {
        proof {
            use_type_invariant(&self);
        }
        let FfiResult { tag, discriminant } = self;
        match tag {
            FfiResultTag::Success => BResult::Success(discriminant.into_success()),
            FfiResultTag::Failure => BResult::Failure(discriminant.into_failure()),
        }
    }
}

impl<T, E> View for FfiResult<T, E> {
    type V = BResult<T, E>;

    /// The native value that the record stands for.
    closed spec fn view(&self) -> BResult<T, E> {
        match self.tag {
            FfiResultTag::Success => BResult::Success(self.discriminant->Success_0),
            FfiResultTag::Failure => BResult::Failure(self.discriminant->Failure_0),
        }
    }
}

/// Conversion of a host fallible value into the outcome container.
pub trait IntoBResult<T, E>: Sized {
    /// The outcome container that `self` becomes.
    spec fn bresult_spec(self) -> BResult<T, E>;

    fn into_bresult(self) -> (r: BResult<T, E>)
        ensures
            r == self.bresult_spec(),
    ;
}

impl<T, E> IntoBResult<T, E> for Result<T, E> {
    open spec fn bresult_spec(self) -> BResult<T, E> {
        match self {
            Result::Ok(t) => BResult::Success(t),
            Result::Err(e) => BResult::Failure(e),
        }
    }

    fn into_bresult(self) -> (r: BResult<T, E>) {
        match self {
            Result::Ok(t) => BResult::Success(t),
            Result::Err(e) => BResult::Failure(e),
        }
    }
}

impl<T, E> BResult<T, E> {
    /// The stable record that holds this value.
    pub closed spec fn stable_spec(self) -> FfiResult<T, E> {
        match self {
            BResult::Success(t) => FfiResult {
                tag: FfiResultTag::Success,
                discriminant: Overlay::Success(t),
            },
            BResult::Failure(e) => FfiResult {
                tag: FfiResultTag::Failure,
                discriminant: Overlay::Failure(e),
            },
        }
    }

    /// Moves the payload into a stable record whose tag names its region.
    pub fn into_ffi_result(self) -> (r: FfiResult<T, E>)
        ensures
            r == self.stable_spec(),
            r@ == self,
    {
        match self {
            BResult::Success(t) => FfiResult {
                tag: FfiResultTag::Success,
                discriminant: Overlay::Success(t),
            },
            BResult::Failure(e) => FfiResult {
                tag: FfiResultTag::Failure,
                discriminant: Overlay::Failure(e),
            },
        }
    }

    pub fn into_result(self) -> (r: Result<T, E>)
        ensures
            r == (match self {
                BResult::Success(t) => Result::<T, E>::Ok(t),
                BResult::Failure(e) => Result::<T, E>::Err(e),
            }),
    {
        match self {
            BResult::Success(t) => Result::Ok(t),
            BResult::Failure(e) => Result::Err(e),
        }
    }

    /// Whether the native form of `BResult<T, E>` is smaller than the stable
    /// record, i.e. the tag was folded into spare bit patterns of the payloads.
    pub fn niche_optimized() -> (r: bool)
        ensures
            r == result_niche_optimized::<T, E>(),
    {
        layout_for_type_is_valid::<T>();
        layout_for_type_is_valid::<E>();
        let native = core::mem::size_of::<BResult<T, E>>();
        let ok_size = core::mem::size_of::<T>();
        let err_size = core::mem::size_of::<E>();
        let ok_align = core::mem::align_of::<T>();
        let err_align = core::mem::align_of::<E>();
        let size = if ok_size >= err_size {
            ok_size
        } else {
            err_size
        };
        let align = if ok_align >= err_align {
            ok_align
        } else {
            err_align
        };
        let rem = size % align;
        let padded = if rem == 0 {
            Option::Some(size)
        } else {
            size.checked_add(align - rem)
        };
        match padded {
            Option::Some(padded) => match align.checked_add(padded) {
                Option::Some(record) => native != record,
                Option::None => true,
            },
            Option::None => true,
        }
    }

    pub fn is_niche_optimized(&self) -> (r: bool)
        ensures
            r == result_niche_optimized::<T, E>(),
    {
        Self::niche_optimized()
    }
}

impl<T, E> BResult<T, E> {
    pub fn unwrap(self) -> (r: T)
        requires
            self is Success,
        ensures
            r == self->Success_0,
    {
        match self {
            BResult::Success(t) => t,
            BResult::Failure(_) => vstd::pervasive::unreached(),
        }
    }

    pub fn unwrap_or(self, default_eager: T) -> (r: T)
        ensures
            r == (match self {
                BResult::Success(t) => t,
                BResult::Failure(_) => default_eager,
            }),
    {
        match self {
            BResult::Success(t) => t,
            BResult::Failure(_) => default_eager,
        }
    }

    pub fn unwrap_or_else(self, default_lazy: impl FnOnce(E) -> T) -> (r: T)
        requires
            self is Failure ==> default_lazy.requires((self->Failure_0,)),
        ensures
            self is Success ==> r == self->Success_0,
            self is Failure ==> default_lazy.ensures((self->Failure_0,), r),
    {
        match self {
            BResult::Success(t) => t,
            BResult::Failure(e) => default_lazy(e),
        }
    }

    pub fn unwrap_or_default(self) -> (r: T) where T: Default
        ensures
            self is Success ==> r == self->Success_0,
            self is Failure ==> T::default.ensures((), r),
    {
        match self {
            BResult::Success(t) => t,
            BResult::Failure(_) => T::default(),
        }
    }

    pub fn unwrap_err(self) -> (r: E)
        requires
            self is Failure,
        ensures
            r == self->Failure_0,
    {
        match self {
            BResult::Success(_) => vstd::pervasive::unreached(),
            BResult::Failure(e) => e,
        }
    }

    pub fn unwrap_err_or(self, default_eager: E) -> (r: E)
        ensures
            r == (match self {
                BResult::Success(_) => default_eager,
                BResult::Failure(e) => e,
            }),
    {
        match self {
            BResult::Success(_) => default_eager,
            BResult::Failure(e) => e,
        }
    }

    pub fn unwrap_err_or_else(self, default_lazy: impl FnOnce(T) -> E) -> (r: E)
        requires
            self is Success ==> default_lazy.requires((self->Success_0,)),
        ensures
            self is Success ==> default_lazy.ensures((self->Success_0,), r),
            self is Failure ==> r == self->Failure_0,
    {
        match self {
            BResult::Success(t) => default_lazy(t),
            BResult::Failure(e) => e,
        }
    }

    pub fn unwrap_err_or_default(self) -> (r: E) where E: Default
        ensures
            self is Success ==> E::default.ensures((), r),
            self is Failure ==> r == self->Failure_0,
    {
        match self {
            BResult::Success(_) => E::default(),
            BResult::Failure(e) => e,
        }
    }

    /// Takes the success payload; `_message` is the diagnostic of the failure
    /// case, which the precondition rules out.
    pub fn expect(self, _message: &str) -> (r: T)
        requires
            self is Success,
        ensures
            r == self->Success_0,
    {
        match self {
            BResult::Success(t) => t,
            BResult::Failure(_) => vstd::pervasive::unreached(),
        }
    }

    pub fn expect_err(self, _message: &str) -> (r: E)
        requires
            self is Failure,
        ensures
            r == self->Failure_0,
    {
        match self {
            BResult::Success(_) => vstd::pervasive::unreached(),
            BResult::Failure(e) => e,
        }
    }

    /// Takes the success payload without a check at run time: the caller
    /// proves that there is one.
    pub fn unwrap_unchecked(self) -> (r: T)
        requires
            self is Success,
        ensures
            r == self->Success_0,
    {
        match self {
            BResult::Success(t) => t,
            BResult::Failure(_) => vstd::pervasive::unreached(),
        }
    }

    pub fn unwrap_err_unchecked(self) -> (r: E)
        requires
            self is Failure,
        ensures
            r == self->Failure_0,
    {
        match self {
            BResult::Success(_) => vstd::pervasive::unreached(),
            BResult::Failure(e) => e,
        }
    }

    pub fn is_ok(&self) -> (r: bool)
        ensures
            r == (*self is Success),
    {
        match *self {
            BResult::Success(_) => true,
            BResult::Failure(_) => false,
        }
    }

    pub fn is_not_ok(&self) -> (r: bool)
        ensures
            r == (*self is Failure),
    {
        match *self {
            BResult::Success(_) => false,
            BResult::Failure(_) => true,
        }
    }

    pub fn is_err(&self) -> (r: bool)
        ensures
            r == (*self is Failure),
    {
        match *self {
            BResult::Success(_) => false,
            BResult::Failure(_) => true,
        }
    }

    pub fn is_not_err(&self) -> (r: bool)
        ensures
            r == (*self is Success),
    {
        match *self {
            BResult::Success(_) => true,
            BResult::Failure(_) => false,
        }
    }

    pub fn into_is_ok_and(self, cond: impl FnOnce(T) -> bool) -> (r: bool)
        requires
            self is Success ==> cond.requires((self->Success_0,)),
        ensures
            self is Success ==> cond.ensures((self->Success_0,), r),
            self is Failure ==> !r,
    {
        match self {
            BResult::Success(t) => cond(t),
            BResult::Failure(_) => false,
        }
    }

    pub fn into_is_ok_or(self, cond: impl FnOnce(E) -> bool) -> (r: bool)
        requires
            self is Failure ==> cond.requires((self->Failure_0,)),
        ensures
            self is Success ==> r,
            self is Failure ==> cond.ensures((self->Failure_0,), r),
    {
        match self {
            BResult::Success(_) => true,
            BResult::Failure(e) => cond(e),
        }
    }

    pub fn into_is_err_and(self, cond: impl FnOnce(E) -> bool) -> (r: bool)
        requires
            self is Failure ==> cond.requires((self->Failure_0,)),
        ensures
            self is Success ==> !r,
            self is Failure ==> cond.ensures((self->Failure_0,), r),
    {
        match self {
            BResult::Success(_) => false,
            BResult::Failure(e) => cond(e),
        }
    }

    pub fn into_is_err_or(self, cond: impl FnOnce(T) -> bool) -> (r: bool)
        requires
            self is Success ==> cond.requires((self->Success_0,)),
        ensures
            self is Success ==> cond.ensures((self->Success_0,), r),
            self is Failure ==> r,
    {
        match self {
            BResult::Success(t) => cond(t),
            BResult::Failure(_) => true,
        }
    }

    /// The success payload as a presence container; a failure payload is
    /// dropped.
    pub fn into_boption(self) -> (r: BOption<T>)
        ensures
            r == (match self {
                BResult::Success(t) => BOption::Present(t),
                BResult::Failure(_) => BOption::Absent,
            }),
    {
        match self {
            BResult::Success(t) => BOption::Present(t),
            BResult::Failure(_) => BOption::Absent,
        }
    }

    /// The failure payload as a presence container; a success payload is
    /// dropped.
    pub fn into_boption_err(self) -> (r: BOption<E>)
        ensures
            r == (match self {
                BResult::Success(_) => BOption::Absent,
                BResult::Failure(e) => BOption::Present(e),
            }),
    {
        match self {
            BResult::Success(_) => BOption::Absent,
            BResult::Failure(e) => BOption::Present(e),
        }
    }

    pub fn into_boption_unchecked(self) -> (r: BOption<T>)
        requires
            self is Success,
        ensures
            r == BOption::Present(self->Success_0),
    {
        match self {
            BResult::Success(t) => BOption::Present(t),
            BResult::Failure(_) => vstd::pervasive::unreached(),
        }
    }

    pub fn into_boption_err_unchecked(self) -> (r: BOption<E>)
        requires
            self is Failure,
        ensures
            r == BOption::Present(self->Failure_0),
    {
        match self {
            BResult::Success(_) => vstd::pervasive::unreached(),
            BResult::Failure(e) => BOption::Present(e),
        }
    }

    pub fn into_option(self) -> (r: Option<T>)
        ensures
            r == (match self {
                BResult::Success(t) => Option::Some(t),
                BResult::Failure(_) => Option::None,
            }),
    {
        match self {
            BResult::Success(t) => Option::Some(t),
            BResult::Failure(_) => Option::None,
        }
    }

    pub fn into_option_err(self) -> (r: Option<E>)
        ensures
            r == (match self {
                BResult::Success(_) => Option::None,
                BResult::Failure(e) => Option::Some(e),
            }),
    {
        match self {
            BResult::Success(_) => Option::None,
            BResult::Failure(e) => Option::Some(e),
        }
    }

    pub fn into_option_unchecked(self) -> (r: Option<T>)
        requires
            self is Success,
        ensures
            r == Option::Some(self->Success_0),
    {
        match self {
            BResult::Success(t) => Option::Some(t),
            BResult::Failure(_) => vstd::pervasive::unreached(),
        }
    }

    pub fn into_option_err_unchecked(self) -> (r: Option<E>)
        requires
            self is Failure,
        ensures
            r == Option::Some(self->Failure_0),
    {
        match self {
            BResult::Success(_) => vstd::pervasive::unreached(),
            BResult::Failure(e) => Option::Some(e),
        }
    }

    pub fn as_ref(&self) -> (r: BResult<&T, &E>)
        ensures
            (r is Success) == (*self is Success),
            r is Success ==> *r->Success_0 == self->Success_0,
            r is Failure ==> *r->Failure_0 == self->Failure_0,
    {
        match self {
            BResult::Success(t) => BResult::Success(t),
            BResult::Failure(e) => BResult::Failure(e),
        }
    }

    pub fn as_mut(&mut self) -> (r: BResult<&mut T, &mut E>)
        ensures
            (r is Success) == (*old(self) is Success),
            r is Success ==> *r->Success_0 == old(self)->Success_0,
            r is Success ==> *final(self) == BResult::<T, E>::Success(*final(r->Success_0)),
            r is Failure ==> *r->Failure_0 == old(self)->Failure_0,
            r is Failure ==> *final(self) == BResult::<T, E>::Failure(*final(r->Failure_0)),
    {
        match self {
            BResult::Success(t) => BResult::Success(t),
            BResult::Failure(e) => BResult::Failure(e),
        }
    }

    /// Maps the success payload; a failure passes through unchanged.
    pub fn into_map_ok<U>(self, mapper: impl FnOnce(T) -> U) -> (r: BResult<U, E>)
        requires
            self is Success ==> mapper.requires((self->Success_0,)),
        ensures
            self is Success ==> r is Success && mapper.ensures((self->Success_0,), r->Success_0),
            self is Failure ==> r == BResult::<U, E>::Failure(self->Failure_0),
    {
        match self {
            BResult::Success(t) => BResult::Success(mapper(t)),
            BResult::Failure(e) => BResult::Failure(e),
        }
    }

    pub fn into_map_ok_or<U>(self, mapper: impl FnOnce(T) -> U, default_if_err: U) -> (r: U)
        requires
            self is Success ==> mapper.requires((self->Success_0,)),
        ensures
            self is Success ==> mapper.ensures((self->Success_0,), r),
            self is Failure ==> r == default_if_err,
    {
        match self {
            BResult::Success(t) => mapper(t),
            BResult::Failure(_) => default_if_err,
        }
    }

    pub fn into_map_ok_or_else<U>(
        self,
        mapper_t: impl FnOnce(T) -> U,
        mapper_e: impl FnOnce(E) -> U,
    ) -> (r: U)
        requires
            self is Success ==> mapper_t.requires((self->Success_0,)),
            self is Failure ==> mapper_e.requires((self->Failure_0,)),
        ensures
            self is Success ==> mapper_t.ensures((self->Success_0,), r),
            self is Failure ==> mapper_e.ensures((self->Failure_0,), r),
    {
        match self {
            BResult::Success(t) => mapper_t(t),
            BResult::Failure(e) => mapper_e(e),
        }
    }

    pub fn into_map_ok_or_default<U>(self, mapper: impl FnOnce(T) -> U) -> (r: U) where U: Default
        requires
            self is Success ==> mapper.requires((self->Success_0,)),
        ensures
            self is Success ==> mapper.ensures((self->Success_0,), r),
            self is Failure ==> U::default.ensures((), r),
    {
        match self {
            BResult::Success(t) => mapper(t),
            BResult::Failure(_) => U::default(),
        }
    }

    /// Maps the failure payload; a success passes through unchanged.
    pub fn into_map_err<F>(self, mapper_err: impl FnOnce(E) -> F) -> (r: BResult<T, F>)
        requires
            self is Failure ==> mapper_err.requires((self->Failure_0,)),
        ensures
            self is Success ==> r == BResult::<T, F>::Success(self->Success_0),
            self is Failure ==> r is Failure && mapper_err.ensures(
                (self->Failure_0,),
                r->Failure_0,
            ),
    {
        match self {
            BResult::Success(t) => BResult::Success(t),
            BResult::Failure(e) => BResult::Failure(mapper_err(e)),
        }
    }

    pub fn into_map_err_or<F>(self, default_if_ok: F, mapper_err: impl FnOnce(E) -> F) -> (r: F)
        requires
            self is Failure ==> mapper_err.requires((self->Failure_0,)),
        ensures
            self is Success ==> r == default_if_ok,
            self is Failure ==> mapper_err.ensures((self->Failure_0,), r),
    {
        match self {
            BResult::Success(_) => default_if_ok,
            BResult::Failure(e) => mapper_err(e),
        }
    }

    pub fn into_map_err_or_else<F>(
        self,
        mapper_ok: impl FnOnce(T) -> F,
        mapper_err: impl FnOnce(E) -> F,
    ) -> (r: F)
        requires
            self is Success ==> mapper_ok.requires((self->Success_0,)),
            self is Failure ==> mapper_err.requires((self->Failure_0,)),
        ensures
            self is Success ==> mapper_ok.ensures((self->Success_0,), r),
            self is Failure ==> mapper_err.ensures((self->Failure_0,), r),
    {
        match self {
            BResult::Success(t) => mapper_ok(t),
            BResult::Failure(e) => mapper_err(e),
        }
    }

    pub fn into_map_err_or_default<F: Default>(self, mapper_err: impl FnOnce(E) -> F) -> (r: F)
        requires
            self is Failure ==> mapper_err.requires((self->Failure_0,)),
        ensures
            self is Success ==> F::default.ensures((), r),
            self is Failure ==> mapper_err.ensures((self->Failure_0,), r),
    {
        match self {
            BResult::Success(_) => F::default(),
            BResult::Failure(e) => mapper_err(e),
        }
    }

    /// Shows the success payload, if any, to `inspector` and hands the
    /// container back.
    pub fn into_self_inspect_ok(self, inspector: impl FnOnce(&T)) -> (r: BResult<T, E>)
        requires
            self is Success ==> inspector.requires((&self->Success_0,)),
        ensures
            r == self,
    {
        match &self {
            BResult::Success(t) => inspector(t),
            BResult::Failure(_) => {},
        }
        self
    }

    /// Shows the failure payload, if any, to `inspector_err` and hands the
    /// container back.
    pub fn into_self_inspect_err(self, inspector_err: impl FnOnce(&E)) -> (r: BResult<T, E>)
        requires
            self is Failure ==> inspector_err.requires((&self->Failure_0,)),
        ensures
            r == self,
    {
        match &self {
            BResult::Success(_) => {},
            BResult::Failure(e) => inspector_err(e),
        }
        self
    }

    pub fn as_inspect_ok(&self, inspector: impl FnOnce(&T))
        requires
            *self is Success ==> inspector.requires((&self->Success_0,)),
    {
        match self {
            BResult::Success(t) => inspector(t),
            BResult::Failure(_) => {},
        }
    }

    pub fn as_inspect_err(&self, inspector_err: impl FnOnce(&E))
        requires
            *self is Failure ==> inspector_err.requires((&self->Failure_0,)),
    {
        match self {
            BResult::Success(_) => {},
            BResult::Failure(e) => inspector_err(e),
        }
    }

    pub fn into_map_ok_flatten<U>(self, other_if_ok: BResult<U, E>) -> (r: BResult<U, E>)
        ensures
            r == (match self {
                BResult::Success(_) => other_if_ok,
                BResult::Failure(e) => BResult::<U, E>::Failure(e),
            }),
    {
        match self {
            BResult::Success(_) => other_if_ok,
            BResult::Failure(e) => BResult::Failure(e),
        }
    }

    pub fn into_map_ok_flatten_lazy<U>(
        self,
        other_if_ok_lazy: impl FnOnce(T) -> BResult<U, E>,
    ) -> (r: BResult<U, E>)
        requires
            self is Success ==> other_if_ok_lazy.requires((self->Success_0,)),
        ensures
            self is Success ==> other_if_ok_lazy.ensures((self->Success_0,), r),
            self is Failure ==> r == BResult::<U, E>::Failure(self->Failure_0),
    {
        match self {
            BResult::Success(t) => other_if_ok_lazy(t),
            BResult::Failure(e) => BResult::Failure(e),
        }
    }

    pub fn into_map_err_flatten<F>(self, other_if_err: BResult<T, F>) -> (r: BResult<T, F>)
        ensures
            r == (match self {
                BResult::Success(t) => BResult::<T, F>::Success(t),
                BResult::Failure(_) => other_if_err,
            }),
    {
        match self {
            BResult::Success(t) => BResult::Success(t),
            BResult::Failure(_) => other_if_err,
        }
    }

    pub fn into_map_err_flatten_lazy<F>(
        self,
        other_if_err_lazy: impl FnOnce(E) -> BResult<T, F>,
    ) -> (r: BResult<T, F>)
        requires
            self is Failure ==> other_if_err_lazy.requires((self->Failure_0,)),
        ensures
            self is Success ==> r == BResult::<T, F>::Success(self->Success_0),
            self is Failure ==> other_if_err_lazy.ensures((self->Failure_0,), r),
    {
        match self {
            BResult::Success(t) => BResult::Success(t),
            BResult::Failure(e) => other_if_err_lazy(e),
        }
    }
}

impl<'a, T, E> BResult<&'a T, E> {
    pub fn into_cloned(self) -> (r: BResult<T, E>) where T: Clone
        ensures
            (r is Success) == (self is Success),
            self is Success ==> cloned::<T>(*self->Success_0, r->Success_0),
            self is Failure ==> r == BResult::<T, E>::Failure(self->Failure_0),
    {
        match self {
            BResult::Success(t) => BResult::Success(t.clone()),
            BResult::Failure(e) => BResult::Failure(e),
        }
    }

    pub fn into_copied(self) -> (r: BResult<T, E>) where T: Copy
        ensures
            r == (match self {
                BResult::Success(t) => BResult::<T, E>::Success(*t),
                BResult::Failure(e) => BResult::<T, E>::Failure(e),
            }),
    {
        match self {
            BResult::Success(t) => BResult::Success(*t),
            BResult::Failure(e) => BResult::Failure(e),
        }
    }
}

impl<'a, T, E> BResult<&'a mut T, E> {
    pub fn into_cloned(self) -> (r: BResult<T, E>) where T: Clone
        ensures
            (r is Success) == (self is Success),
            self is Success ==> cloned::<T>(*self->Success_0, r->Success_0),
            self is Failure ==> r == BResult::<T, E>::Failure(self->Failure_0),
    {
        match self {
            BResult::Success(t) => BResult::Success(t.clone()),
            BResult::Failure(e) => BResult::Failure(e),
        }
    }

    pub fn into_copied(self) -> (r: BResult<T, E>) where T: Copy
        ensures
            (r is Success) == (self is Success),
            self is Success ==> r->Success_0 == *self->Success_0,
            self is Failure ==> r == BResult::<T, E>::Failure(self->Failure_0),
    {
        match self {
            BResult::Success(t) => BResult::Success(*t),
            BResult::Failure(e) => BResult::Failure(e),
        }
    }
}

impl<'a, T, E> BResult<T, &'a E> {
    pub fn into_err_cloned(self) -> (r: BResult<T, E>) where E: Clone
        ensures
            (r is Failure) == (self is Failure),
            self is Success ==> r == BResult::<T, E>::Success(self->Success_0),
            self is Failure ==> cloned::<E>(*self->Failure_0, r->Failure_0),
    {
        match self {
            BResult::Success(t) => BResult::Success(t),
            BResult::Failure(e) => BResult::Failure(e.clone()),
        }
    }

    pub fn into_err_copied(self) -> (r: BResult<T, E>) where E: Copy
        ensures
            r == (match self {
                BResult::Success(t) => BResult::<T, E>::Success(t),
                BResult::Failure(e) => BResult::<T, E>::Failure(*e),
            }),
    {
        match self {
            BResult::Success(t) => BResult::Success(t),
            BResult::Failure(e) => BResult::Failure(*e),
        }
    }
}

impl<'a, T, E> BResult<T, &'a mut E> {
    pub fn into_err_cloned(self) -> (r: BResult<T, E>) where E: Clone
        ensures
            (r is Failure) == (self is Failure),
            self is Success ==> r == BResult::<T, E>::Success(self->Success_0),
            self is Failure ==> cloned::<E>(*self->Failure_0, r->Failure_0),
    {
        match self {
            BResult::Success(t) => BResult::Success(t),
            BResult::Failure(e) => BResult::Failure(e.clone()),
        }
    }

    pub fn into_err_copied(self) -> (r: BResult<T, E>) where E: Copy
        ensures
            (r is Failure) == (self is Failure),
            self is Success ==> r == BResult::<T, E>::Success(self->Success_0),
            self is Failure ==> r->Failure_0 == *self->Failure_0,
    {
        match self {
            BResult::Success(t) => BResult::Success(t),
            BResult::Failure(e) => BResult::Failure(*e),
        }
    }
}

impl<T, E> BResult<BResult<T, E>, E> {
    pub fn into_flattened(self) -> (r: BResult<T, E>)
        ensures
            r == (match self {
                BResult::Success(inner) => inner,
                BResult::Failure(e) => BResult::<T, E>::Failure(e),
            }),
    {
        match self {
            BResult::Success(inner) => inner,
            BResult::Failure(e) => BResult::Failure(e),
        }
    }
}

impl<T> BResult<T, core::convert::Infallible> {
    /// The success payload: the failure type has no values, so there is one.
    pub fn into_ok_infallible(self) -> (r: T)
        ensures
            r == self->Success_0,
    {
        let BResult::Success(t) = self;
        t
    }
}

impl<E> BResult<core::convert::Infallible, E> {
    /// The failure payload: the success type has no values, so there is one.
    pub fn into_err_infallible(self) -> (r: E)
        ensures
            r == self->Failure_0,
    {
        let BResult::Failure(e) = self;
        e
    }
}

/// Converting a native outcome to the stable record and back yields the value
/// it started from, success or failure.
pub proof fn lemma_result_round_trip<T, E>(r: BResult<T, E>)
    ensures
        r.stable_spec()@ == r,
{
}

} // verus!
