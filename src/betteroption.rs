use vstd::layout::{align_of, layout_for_type_is_valid, size_of};
use crate::betterresult::BResult;
use vstd::prelude::*;

verus! {

/// Tag of the stable presence record.
pub enum FfiOptionTag {
    Present,
    Absent,
}

/// Payload storage of the stable presence record. Whether it holds a live
/// value is decided by the record's tag, never read off the slot itself.
enum Slot<T> {
    Live(T),
    Vacant,
}

/// The stable presence record: an explicit tag and a slot whose contents are
/// live exactly when the tag says `Present`. Dropping it destroys the slot's
/// payload only in that case.
pub struct FfiOption<T> {
    tag: FfiOptionTag,
    discr: Slot<T>,
}

/// The presence container: zero or one value.
pub enum BOption<T> {
    Present(T),
    Absent,
}

/// Size in bytes of the stable presence record for a payload of the given size
/// and alignment: a one-byte tag padded to the payload's alignment, then the
/// slot. (A type's size is a multiple of its alignment, so no tail padding.)
pub open spec fn option_record_size(size: nat, align: nat) -> nat {
    align + size
}

/// Whether the native presence container for `T` takes a different number of
/// bytes than the stable record.
pub open spec fn option_niche_optimized<T>() -> bool {
    size_of::<BOption<T>>() != option_record_size(size_of::<T>(), align_of::<T>())
}

impl<T> FfiOption<T> {
    #[verifier::type_invariant]
    closed spec fn tag_governs_slot(self) -> bool {
        (self.tag is Present) <==> (self.discr is Live)
    }

    pub fn new_ok(t: T) -> (r: Self)
        ensures
            r@ == BOption::Present(t),
    {
        FfiOption { tag: FfiOptionTag::Present, discr: Slot::Live(t) }
    }

    pub fn new_none() -> (r: Self)
        ensures
            r@ == BOption::<T>::Absent,
    {
        FfiOption { tag: FfiOptionTag::Absent, discr: Slot::Vacant }
    }

    /// Moves the payload, if the tag says there is one, into the native form.
    /// The tag is read first; the slot is read only when it is live.
    pub fn into_boption(self) -> (r: BOption<T>)
        ensures
            r == self@,
            r.stable_spec() == self,
    {
        proof {
            use_type_invariant(&self);
        }
        let FfiOption { tag, discr } = self;
        match tag {
            FfiOptionTag::Present => BOption::Present(discr.into_live()),
            FfiOptionTag::Absent => BOption::Absent,
        }
    }
}

impl<T> Slot<T> {
    fn into_live(self) -> (t: T)
        requires
            self is Live,
        ensures
            t == self->Live_0,
    {
        match self {
            Slot::Live(t) => t,
            Slot::Vacant => vstd::pervasive::unreached(),
        }
    }
}

impl<T> View for FfiOption<T> {
    type V = BOption<T>;

    /// The native value that the record stands for.
    closed spec fn view(&self) -> BOption<T> {
        match self.tag {
            FfiOptionTag::Present => BOption::Present(self.discr->Live_0),
            FfiOptionTag::Absent => BOption::Absent,
        }
    }
}

impl<T> BOption<T> {
    /// The stable record that holds this value.
    pub closed spec fn stable_spec(self) -> FfiOption<T> {
        match self {
            BOption::Present(t) => FfiOption { tag: FfiOptionTag::Present, discr: Slot::Live(t) },
            BOption::Absent => FfiOption { tag: FfiOptionTag::Absent, discr: Slot::Vacant },
        }
    }

    pub fn is_some(&self) -> (r: bool)
        ensures
            r == (*self is Present),
    {
        match *self {
            BOption::Present(_) => true,
            BOption::Absent => false,
        }
    }

    pub fn is_not_some(&self) -> (r: bool)
        ensures
            r == (*self is Absent),
    {
        match *self {
            BOption::Present(_) => false,
            BOption::Absent => true,
        }
    }

    pub fn is_none(&self) -> (r: bool)
        ensures
            r == (*self is Absent),
    {
        match *self {
            BOption::Present(_) => false,
            BOption::Absent => true,
        }
    }

    pub fn is_not_none(&self) -> (r: bool)
        ensures
            r == (*self is Present),
    {
        match *self {
            BOption::Present(_) => true,
            BOption::Absent => false,
        }
    }

    /// Whether the native form of `BOption<T>` is smaller than the stable
    /// record, i.e. the tag was folded into a spare bit pattern of `T`.
    pub fn niche_optimized() -> (r: bool)
        ensures
            r == option_niche_optimized::<T>(),
    {
        layout_for_type_is_valid::<T>();
        let native = core::mem::size_of::<BOption<T>>();
        match core::mem::size_of::<T>().checked_add(core::mem::align_of::<T>()) {
            Option::Some(record) => native != record,
            Option::None => true,
        }
    }

    pub fn is_niche_optimized(&self) -> (r: bool)
        ensures
            r == option_niche_optimized::<T>(),
    {
        Self::niche_optimized()
    }

    /// Moves the payload, if any, into a stable record.
    pub fn into_ffi_option(self) -> (r: FfiOption<T>)
        ensures
            r == self.stable_spec(),
            r@ == self,
    {
        match self {
            BOption::Present(t) => FfiOption { tag: FfiOptionTag::Present, discr: Slot::Live(t) },
            BOption::Absent => FfiOption { tag: FfiOptionTag::Absent, discr: Slot::Vacant },
        }
    }
}

impl<T> BOption<T> {
    pub fn unwrap(self) -> (r: T)
        requires
            self is Present,
        ensures
            r == self->Present_0,
    {
        match self {
            BOption::Present(t) => t,
            BOption::Absent => vstd::pervasive::unreached(),
        }
    }

    pub fn unwrap_or(self, default: T) -> (r: T)
        ensures
            r == (match self {
                BOption::Present(t) => t,
                BOption::Absent => default,
            }),
    {
        match self {
            BOption::Present(t) => t,
            BOption::Absent => default,
        }
    }

    pub fn unwrap_or_else(self, default_fn: impl FnOnce() -> T) -> (r: T)
        requires
            self is Absent ==> default_fn.requires(()),
        ensures
            self is Present ==> r == self->Present_0,
            self is Absent ==> default_fn.ensures((), r),
    {
        match self {
            BOption::Present(t) => t,
            BOption::Absent => default_fn(),
        }
    }

    pub fn unwrap_or_default(self) -> (r: T) where T: Default
        ensures
            self is Present ==> r == self->Present_0,
            self is Absent ==> T::default.ensures((), r),
    {
        match self {
            BOption::Present(t) => t,
            BOption::Absent => T::default(),
        }
    }

    pub fn unwrap_none(self)
        requires
            self is Absent,
    {
        match self {
            BOption::Present(_) => vstd::pervasive::unreached(),
            BOption::Absent => (),
        }
    }

    /// Consumes the container, dropping the payload if there is one.
    pub fn unwrap_none_or(self) {
        match self {
            BOption::Present(_payload) => {},
            BOption::Absent => (),
        }
    }

    /// Consumes the container, handing the payload, if any, to `default_none`.
    pub fn unwrap_none_or_else(self, default_none: impl FnOnce(T))
        requires
            self is Present ==> default_none.requires((self->Present_0,)),
        ensures
            self is Present ==> default_none.ensures((self->Present_0,), ()),
    {
        match self {
            BOption::Present(t) => default_none(t),
            BOption::Absent => (),
        }
    }

    /// Consumes the container, dropping the payload if there is one.
    pub fn unwrap_none_or_default(self) {
        match self {
            BOption::Present(_payload) => {},
            BOption::Absent => (),
        }
    }

    /// Takes the payload; `_message` is the diagnostic of the absent case,
    /// which the precondition rules out.
    pub fn expect(self, _message: &str) -> (r: T)
        requires
            self is Present,
        ensures
            r == self->Present_0,
    {
        match self {
            BOption::Present(t) => t,
            BOption::Absent => vstd::pervasive::unreached(),
        }
    }

    pub fn expect_none(self, _message: &str)
        requires
            self is Absent,
    {
        match self {
            BOption::Present(_) => vstd::pervasive::unreached(),
            BOption::Absent => (),
        }
    }

    /// Takes the payload without a check at run time: the caller proves that
    /// there is one.
    pub fn unwrap_unchecked(self) -> (r: T)
        requires
            self is Present,
        ensures
            r == self->Present_0,
    {
        match self {
            BOption::Present(t) => t,
            BOption::Absent => vstd::pervasive::unreached(),
        }
    }

    pub fn unwrap_none_unchecked(self)
        requires
            self is Absent,
    {
        match self {
            BOption::Present(_) => vstd::pervasive::unreached(),
            BOption::Absent => (),
        }
    }

    pub fn as_ref(&self) -> (r: BOption<&T>)
        ensures
            (r is Present) == (*self is Present),
            r is Present ==> *r->Present_0 == self->Present_0,
    {
        match self {
            BOption::Present(t) => BOption::Present(t),
            BOption::Absent => BOption::Absent,
        }
    }

    pub fn as_mut(&mut self) -> (r: BOption<&mut T>)
        ensures
            (r is Present) == (*old(self) is Present),
            *old(self) is Absent ==> *final(self) is Absent,
            r is Present ==> *r->Present_0 == old(self)->Present_0,
            r is Present ==> *final(self) == BOption::Present(*final(r->Present_0)),
    {
        match self {
            BOption::Present(t) => BOption::Present(t),
            BOption::Absent => BOption::Absent,
        }
    }
}

impl<T> BOption<T> {
    pub fn into_option(self) -> (r: Option<T>)
        ensures
            r == (match self {
                BOption::Present(t) => Option::Some(t),
                BOption::Absent => Option::None,
            }),
    {
        match self {
            BOption::Present(t) => Option::Some(t),
            BOption::Absent => Option::None,
        }
    }

    /// Shows the payload, if any, to `inspector` and hands the container back.
    pub fn into_self_inspect(self, inspector: impl FnOnce(&T)) -> (r: BOption<T>)
        requires
            self is Present ==> inspector.requires((&self->Present_0,)),
        ensures
            r == self,
    {
        match &self {
            BOption::Present(t) => inspector(t),
            BOption::Absent => {},
        }
        self
    }

    pub fn as_inspect(&self, inspector: impl FnOnce(&T))
        requires
            *self is Present ==> inspector.requires((&self->Present_0,)),
    {
        match self {
            BOption::Present(t) => inspector(t),
            BOption::Absent => {},
        }
    }

    pub fn into_result_or<E>(self, err: E) -> (r: Result<T, E>)
        ensures
            r == (match self {
                BOption::Present(t) => Result::<T, E>::Ok(t),
                BOption::Absent => Result::<T, E>::Err(err),
            }),
    {
        match self {
            BOption::Present(t) => Result::Ok(t),
            BOption::Absent => Result::Err(err),
        }
    }

    pub fn into_result_or_else<E>(self, default_err_lazy: impl FnOnce() -> E) -> (r: Result<
        T,
        E,
    >)
        requires
            self is Absent ==> default_err_lazy.requires(()),
        ensures
            self is Present ==> r == Result::<T, E>::Ok(self->Present_0),
            self is Absent ==> r is Err && default_err_lazy.ensures((), r->Err_0),
    {
        match self {
            BOption::Present(t) => Result::Ok(t),
            BOption::Absent => Result::Err(default_err_lazy()),
        }
    }

    pub fn into_result_or_default<E>(self) -> (r: Result<T, E>) where E: Default
        ensures
            self is Present ==> r == Result::<T, E>::Ok(self->Present_0),
            self is Absent ==> r is Err && E::default.ensures((), r->Err_0),
    {
        match self {
            BOption::Present(t) => Result::Ok(t),
            BOption::Absent => Result::Err(E::default()),
        }
    }

    pub fn into_bresult_or<E>(self, default_err: E) -> (r: BResult<T, E>)
        ensures
            r == (match self {
                BOption::Present(t) => BResult::<T, E>::Success(t),
                BOption::Absent => BResult::<T, E>::Failure(default_err),
            }),
    {
        match self {
            BOption::Present(t) => BResult::Success(t),
            BOption::Absent => BResult::Failure(default_err),
        }
    }

    pub fn into_bresult_or_else<E>(self, default_err_lazy: impl FnOnce() -> E) -> (r: BResult<
        T,
        E,
    >)
        requires
            self is Absent ==> default_err_lazy.requires(()),
        ensures
            self is Present ==> r == BResult::<T, E>::Success(self->Present_0),
            self is Absent ==> r is Failure && default_err_lazy.ensures((), r->Failure_0),
    {
        match self {
            BOption::Present(t) => BResult::Success(t),
            BOption::Absent => BResult::Failure(default_err_lazy()),
        }
    }

    pub fn into_bresult_or_default<E>(self) -> (r: BResult<T, E>) where E: Default
        ensures
            self is Present ==> r == BResult::<T, E>::Success(self->Present_0),
            self is Absent ==> r is Failure && E::default.ensures((), r->Failure_0),
    {
        match self {
            BOption::Present(t) => BResult::Success(t),
            BOption::Absent => BResult::Failure(E::default()),
        }
    }

    pub fn into_map<U>(self, mapper: impl FnOnce(T) -> U) -> (r: BOption<U>)
        requires
            self is Present ==> mapper.requires((self->Present_0,)),
        ensures
            (r is Present) == (self is Present),
            self is Present ==> mapper.ensures((self->Present_0,), r->Present_0),
    {
        match self {
            BOption::Present(t) => BOption::Present(mapper(t)),
            BOption::Absent => BOption::Absent,
        }
    }

    pub fn into_map_or<U>(self, default: U, mapper: impl FnOnce(T) -> U) -> (r: U)
        requires
            self is Present ==> mapper.requires((self->Present_0,)),
        ensures
            self is Present ==> mapper.ensures((self->Present_0,), r),
            self is Absent ==> r == default,
    {
        match self {
            BOption::Present(t) => mapper(t),
            BOption::Absent => default,
        }
    }

    pub fn into_map_or_else<U>(
        self,
        default_lazy: impl FnOnce() -> U,
        mapper: impl FnOnce(T) -> U,
    ) -> (r: U)
        requires
            self is Present ==> mapper.requires((self->Present_0,)),
            self is Absent ==> default_lazy.requires(()),
        ensures
            self is Present ==> mapper.ensures((self->Present_0,), r),
            self is Absent ==> default_lazy.ensures((), r),
    {
        match self {
            BOption::Present(t) => mapper(t),
            BOption::Absent => default_lazy(),
        }
    }

    pub fn into_map_or_default<U>(self, mapper: impl FnOnce(T) -> U) -> (r: U) where U: Default
        requires
            self is Present ==> mapper.requires((self->Present_0,)),
        ensures
            self is Present ==> mapper.ensures((self->Present_0,), r),
            self is Absent ==> U::default.ensures((), r),
    {
        match self {
            BOption::Present(t) => mapper(t),
            BOption::Absent => U::default(),
        }
    }

    pub fn into_map_flatten<U>(self, other: BOption<U>) -> (r: BOption<U>)
        ensures
            r == (match self {
                BOption::Present(_) => other,
                BOption::Absent => BOption::Absent,
            }),
    {
        match self {
            BOption::Present(_) => other,
            BOption::Absent => BOption::Absent,
        }
    }

    pub fn into_map_flatten_lazy<U>(self, other_lazy: impl FnOnce(T) -> BOption<U>) -> (r:
        BOption<U>)
        requires
            self is Present ==> other_lazy.requires((self->Present_0,)),
        ensures
            self is Present ==> other_lazy.ensures((self->Present_0,), r),
            self is Absent ==> r is Absent,
    {
        match self {
            BOption::Present(t) => other_lazy(t),
            BOption::Absent => BOption::Absent,
        }
    }

    /// Keeps the payload only if `filter` accepts it.
    pub fn into_filter(self, filter: impl FnOnce(&T) -> bool) -> (r: BOption<T>)
        requires
            self is Present ==> filter.requires((&self->Present_0,)),
        ensures
            self is Absent ==> r is Absent,
            self is Present ==> {
                ||| r == self && filter.ensures((&self->Present_0,), true)
                ||| r is Absent && filter.ensures((&self->Present_0,), false)
            },
    {
        match self {
            BOption::Present(t) => {
                if filter(&t) {
                    BOption::Present(t)
                } else {
                    BOption::Absent
                }
            },
            BOption::Absent => BOption::Absent,
        }
    }

    /// The first of the two that is present.
    pub fn into_collect(self, other: BOption<T>) -> (r: BOption<T>)
        ensures
            r == (if self is Present {
                self
            } else {
                other
            }),
    {
        match self {
            BOption::Present(t) => BOption::Present(t),
            BOption::Absent => other,
        }
    }

    pub fn into_collect_lazy(self, other_lazy: impl FnOnce() -> BOption<T>) -> (r: BOption<T>)
        requires
            self is Absent ==> other_lazy.requires(()),
        ensures
            self is Present ==> r == self,
            self is Absent ==> other_lazy.ensures((), r),
    {
        match self {
            BOption::Present(t) => BOption::Present(t),
            BOption::Absent => other_lazy(),
        }
    }

    /// The one of the two that is present, if exactly one is.
    pub fn into_xor(self, other: BOption<T>) -> (r: BOption<T>)
        ensures
            r == (match (self, other) {
                (BOption::Present(t), BOption::Absent) => BOption::Present(t),
                (BOption::Absent, BOption::Present(t)) => BOption::Present(t),
                _ => BOption::Absent,
            }),
    {
        match (self, other) {
            (BOption::Present(t), BOption::Absent) => BOption::Present(t),
            (BOption::Absent, BOption::Present(t)) => BOption::Present(t),
            _ => BOption::Absent,
        }
    }

    pub fn into_zip<U>(self, other: U) -> (r: BOption<(T, U)>)
        ensures
            r == (match self {
                BOption::Present(t) => BOption::Present((t, other)),
                BOption::Absent => BOption::Absent,
            }),
    {
        match self {
            BOption::Present(t) => BOption::Present((t, other)),
            BOption::Absent => BOption::Absent,
        }
    }
}

impl<T> BOption<T> {
    /// Gets the payload, first storing `default` if there is none.
    pub fn as_insert(&mut self, default: T) -> (r: &mut T)
        ensures
            *r == (match *old(self) {
                BOption::Present(t) => t,
                BOption::Absent => default,
            }),
            *final(self) == BOption::Present(*final(r)),
    {
        if self.is_none() {
            *self = BOption::Present(default);
        }
        self.present_mut()
    }

    /// Stores `other`, dropping any earlier payload, and gets it.
    pub fn as_insert_or(&mut self, other: T) -> (r: &mut T)
        ensures
            *r == other,
            *final(self) == BOption::Present(*final(r)),
    {
        *self = BOption::Present(other);
        self.present_mut()
    }

    /// Gets the payload, first storing what `other_lazy` makes if there is none.
    pub fn as_insert_or_else(&mut self, other_lazy: impl FnOnce() -> T) -> (r: &mut T)
        requires
            *old(self) is Absent ==> other_lazy.requires(()),
        ensures
            *old(self) is Present ==> *r == old(self)->Present_0,
            *old(self) is Absent ==> other_lazy.ensures((), *r),
            *final(self) == BOption::Present(*final(r)),
    {
        if self.is_none() {
            *self = BOption::Present(other_lazy());
        }
        self.present_mut()
    }

    pub fn as_insert_or_default(&mut self) -> (r: &mut T) where T: Default
        ensures
            *old(self) is Present ==> *r == old(self)->Present_0,
            *old(self) is Absent ==> T::default.ensures((), *r),
            *final(self) == BOption::Present(*final(r)),
    {
        if self.is_none() {
            *self = BOption::Present(T::default());
        }
        self.present_mut()
    }

    fn present_mut(&mut self) -> (r: &mut T)
        requires
            *old(self) is Present,
        ensures
            *r == old(self)->Present_0,
            *final(self) == BOption::Present(*final(r)),
    {
        match self {
            BOption::Present(t) => t,
            BOption::Absent => vstd::pervasive::unreached(),
        }
    }

    /// Puts `next` in place of the whole container and returns what was there.
    fn swap_in(&mut self, next: BOption<T>) -> (r: BOption<T>)
        ensures
            r == *old(self),
            *final(self) == next,
    {
        let mut r = next;
        core::mem::swap(self, &mut r);
        r
    }

    /// Moves the payload out, leaving the container absent.
    pub fn as_take(&mut self) -> (r: BOption<T>)
        ensures
            r == *old(self),
            *final(self) is Absent,
    {
        self.swap_in(BOption::Absent)
    }

    /// Moves the payload out if `condition` accepts it; `condition` may change
    /// the payload first.
    pub fn as_take_if(&mut self, condition: impl FnOnce(&mut T) -> bool) -> (r: BOption<T>)
        requires
            *old(self) is Present ==> forall|m: &mut T|
                *m == old(self)->Present_0 ==> #[trigger] condition.requires((m,)),
        ensures
            *old(self) is Absent ==> r is Absent && *final(self) is Absent,
            *old(self) is Present ==> exists|m: &mut T, taken: bool|
                {
                    &&& *m == old(self)->Present_0
                    &&& #[trigger] condition.ensures((m,), taken)
                    &&& taken ==> r == BOption::Present(*final(m)) && *final(self) is Absent
                    &&& !taken ==> r is Absent && *final(self) == BOption::Present(*final(m))
                },
    {
        let taken = match self {
            BOption::Present(t) => condition(t),
            BOption::Absent => false,
        };
        if taken {
            self.swap_in(BOption::Absent)
        } else {
            BOption::Absent
        }
    }

    /// Stores `replacer` and hands back what was there before.
    pub fn as_replace(&mut self, replacer: T) -> (r: BOption<T>)
        ensures
            r == *old(self),
            *final(self) == BOption::Present(replacer),
    {
        self.swap_in(BOption::Present(replacer))
    }
}

impl<E> BOption<E> {
    pub fn into_result_err_or<T>(self, ok: T) -> (r: Result<T, E>)
        ensures
            r == (match self {
                BOption::Present(e) => Result::<T, E>::Err(e),
                BOption::Absent => Result::<T, E>::Ok(ok),
            }),
    {
        match self {
            BOption::Present(e) => Result::Err(e),
            BOption::Absent => Result::Ok(ok),
        }
    }

    pub fn into_result_err_or_else<T>(self, default_ok_lazy: impl FnOnce() -> T) -> (r: Result<
        T,
        E,
    >)
        requires
            self is Absent ==> default_ok_lazy.requires(()),
        ensures
            self is Present ==> r == Result::<T, E>::Err(self->Present_0),
            self is Absent ==> r is Ok && default_ok_lazy.ensures((), r->Ok_0),
    {
        match self {
            BOption::Present(e) => Result::Err(e),
            BOption::Absent => Result::Ok(default_ok_lazy()),
        }
    }

    pub fn into_result_err_or_default<T>(self) -> (r: Result<T, E>) where T: Default
        ensures
            self is Present ==> r == Result::<T, E>::Err(self->Present_0),
            self is Absent ==> r is Ok && T::default.ensures((), r->Ok_0),
    {
        match self {
            BOption::Present(e) => Result::Err(e),
            BOption::Absent => Result::Ok(T::default()),
        }
    }

    pub fn into_bresult_err_or<T>(self, default_ok: T) -> (r: BResult<T, E>)
        ensures
            r == (match self {
                BOption::Present(e) => BResult::<T, E>::Failure(e),
                BOption::Absent => BResult::<T, E>::Success(default_ok),
            }),
    {
        match self {
            BOption::Present(e) => BResult::Failure(e),
            BOption::Absent => BResult::Success(default_ok),
        }
    }

    pub fn into_bresult_err_or_else<T>(self, default_ok_lazy: impl FnOnce() -> T) -> (r: BResult<
        T,
        E,
    >)
        requires
            self is Absent ==> default_ok_lazy.requires(()),
        ensures
            self is Present ==> r == BResult::<T, E>::Failure(self->Present_0),
            self is Absent ==> r is Success && default_ok_lazy.ensures((), r->Success_0),
    {
        match self {
            BOption::Present(e) => BResult::Failure(e),
            BOption::Absent => BResult::Success(default_ok_lazy()),
        }
    }

    pub fn into_bresult_err_or_default<T>(self) -> (r: BResult<T, E>) where T: Default
        ensures
            self is Present ==> r == BResult::<T, E>::Failure(self->Present_0),
            self is Absent ==> r is Success && T::default.ensures((), r->Success_0),
    {
        match self {
            BOption::Present(e) => BResult::Failure(e),
            BOption::Absent => BResult::Success(T::default()),
        }
    }
}

impl<T, U> BOption<(T, U)> {
    pub fn into_unzip(self) -> (r: (BOption<T>, BOption<U>))
        ensures
            r == (match self {
                BOption::Present((t, u)) => (BOption::Present(t), BOption::Present(u)),
                BOption::Absent => (BOption::Absent, BOption::Absent),
            }),
    {
        match self {
            BOption::Present((t, u)) => (BOption::Present(t), BOption::Present(u)),
            BOption::Absent => (BOption::Absent, BOption::Absent),
        }
    }
}

impl<'a, T: Clone> BOption<&'a T> {
    pub fn into_cloned(self) -> (r: BOption<T>)
        ensures
            (r is Present) == (self is Present),
            self is Present ==> cloned::<T>(*self->Present_0, r->Present_0),
    {
        match self {
            BOption::Present(t) => BOption::Present(t.clone()),
            BOption::Absent => BOption::Absent,
        }
    }
}

impl<'a, T: Copy> BOption<&'a T> {
    pub fn into_copied(self) -> (r: BOption<T>)
        ensures
            r == (match self {
                BOption::Present(t) => BOption::Present(*t),
                BOption::Absent => BOption::Absent,
            }),
    {
        match self {
            BOption::Present(t) => BOption::Present(*t),
            BOption::Absent => BOption::Absent,
        }
    }
}

/// Conversion of a host optional value into the presence container.
pub trait IntoBOption<T>: Sized {
    /// The presence container that `self` becomes.
    spec fn boption_spec(self) -> BOption<T>;

    fn into_boption(self) -> (r: BOption<T>)
        ensures
            r == self.boption_spec(),
    ;
}

impl<T> IntoBOption<T> for Option<T> {
    open spec fn boption_spec(self) -> BOption<T> {
        match self {
            Option::Some(t) => BOption::Present(t),
            Option::None => BOption::Absent,
        }
    }

    fn into_boption(self) -> (r: BOption<T>) {
        match self {
            Option::Some(t) => BOption::Present(t),
            Option::None => BOption::Absent,
        }
    }
}

/// Converting a native value to the stable record and back yields the value
/// it started from, present or absent.
pub proof fn lemma_option_round_trip<T>(o: BOption<T>)
    ensures
        o.stable_spec()@ == o,
{
}

/// A payload type whose spare bit pattern holds the tag makes the native
/// container as small as the payload, while the stable record is strictly
/// larger; the probe then reports the optimization.
pub proof fn lemma_option_niche_reported<T>()
    requires
        align_of::<T>() > 0,
        size_of::<BOption<T>>() == size_of::<T>(),
    ensures
        option_record_size(size_of::<T>(), align_of::<T>()) > size_of::<BOption<T>>(),
        option_niche_optimized::<T>(),
{
}

} // verus!
