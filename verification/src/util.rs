//! Handle projection, kind narrowing and C string helpers.

use vstd::prelude::*;
use vstd::string::StringSliceAdditionalSpecFns;
use crate::context::Context;

verus! {

/// A reference type that stands for one raw native handle.
///
/// The two conversions are total and inverse to each other: a reference is
/// nothing but its raw handle, so two references are equal exactly when their
/// raw handles are.
pub trait NativeRef: Sized {
    /// The raw handle behind this reference.
    spec fn raw_spec(&self) -> usize;

    /// The reference that stands for `raw`.
    spec fn project(raw: usize) -> Self;

    /// Projects a raw handle to a reference. The null handle is never
    /// projected: callers that may hold it go through [`ptr_to_null`].
    fn from_raw(raw: usize) -> (r: Self)
        requires
            raw != 0,
        ensures
            r == Self::project(raw),
    ;

    /// Gives the raw handle back.
    fn as_raw(&self) -> (raw: usize)
        ensures
            raw == self.raw_spec(),
    ;

    /// Raw handle to reference and back is the identity.
    proof fn raw_round_trip(raw: usize)
        ensures
            Self::project(raw).raw_spec() == raw,
    ;

    /// Reference to raw handle and back is the identity.
    proof fn ref_round_trip(r: Self)
        ensures
            Self::project(r.raw_spec()) == r,
    ;
}

/// Marks `Self` as a more specific view of the handles that `T` stands for.
pub trait Sub<T>: Sized {
    /// Whether `c` names a node of `ctx`.
    spec fn known(ctx: &Context, c: &T) -> bool;

    /// Whether the node that `c` names is of this kind.
    spec fn is_spec(ctx: &Context, c: &T) -> bool;

    /// The specific view of the handle of `c`.
    spec fn narrow(c: &T) -> Self;

    /// The general view of the handle of `self`.
    spec fn widen(&self) -> T;

    /// Checks if the given general reference is an instance of this kind.
    fn is(ctx: &Context, c: &T) -> (b: bool)
        requires
            ctx.wf(),
            Self::known(ctx, c),
        ensures
            b == Self::is_spec(ctx, c),
    ;

    /// Casts the general reference to this kind if its kind tag allows it.
    fn from_super(ctx: &Context, c: &T) -> (r: Option<Self>)
        requires
            ctx.wf(),
            Self::known(ctx, c),
        ensures
            r == (if Self::is_spec(ctx, c) {
                Some(Self::narrow(c))
            } else {
                None
            }),
    ;

    /// Casts this reference to the general kind.
    fn to_super(&self) -> (r: T)
        ensures
            r == self.widen(),
    ;

    /// Widening a narrowed reference gives the reference that was narrowed.
    proof fn widen_narrow(c: &T)
        ensures
            Self::narrow(c).widen() == *c,
    ;

    /// Narrowing a widened reference gives the reference that was widened.
    proof fn narrow_widen(s: &Self)
        ensures
            Self::narrow(&s.widen()) == *s,
    ;
}

/// What [`Sub::from_super`] returns.
pub open spec fn narrowed<T, S: Sub<T>>(ctx: &Context, c: &T) -> Option<S> {
    if S::is_spec(ctx, c) {
        Some(S::narrow(c))
    } else {
        None
    }
}

/// A raw handle projected to a reference and taken back is the same handle.
pub proof fn lemma_projection_round_trip<R: NativeRef>(raw: usize)
    ensures
        R::project(raw).raw_spec() == raw,
        forall|r: R| #[trigger] R::project(r.raw_spec()) == r,
{
    R::raw_round_trip(raw);
    assert forall|r: R| #[trigger] R::project(r.raw_spec()) == r by {
        R::ref_round_trip(r);
    }
}

/// Two references are equal exactly when their raw handles are.
pub proof fn lemma_equality_is_identity<R: NativeRef>(a: R, b: R)
    ensures
        (a == b) <==> (a.raw_spec() == b.raw_spec()),
{
    R::ref_round_trip(a);
    R::ref_round_trip(b);
}

/// Narrowing succeeds exactly on a matching kind, and widening what it
/// returned gives the reference that went in.
pub proof fn lemma_narrow_then_widen<T, S: Sub<T>>(ctx: &Context, c: &T)
    ensures
        S::is_spec(ctx, c) ==> narrowed::<T, S>(ctx, c).is_some() && narrowed::<T, S>(
            ctx,
            c,
        ).unwrap().widen() == *c,
        !S::is_spec(ctx, c) ==> narrowed::<T, S>(ctx, c).is_none(),
{
    S::widen_narrow(c);
}

/// Narrowing does not consume or change anything: narrowing, widening and
/// narrowing again gives what the first narrowing gave.
pub proof fn lemma_narrow_twice<T, S: Sub<T>>(ctx: &Context, c: &T)
    requires
        S::is_spec(ctx, c),
    ensures
        narrowed::<T, S>(ctx, &narrowed::<T, S>(ctx, c).unwrap().widen()) == narrowed::<T, S>(
            ctx,
            c,
        ),
        narrowed::<T, S>(ctx, &narrowed::<T, S>(ctx, c).unwrap().widen()).unwrap().widen() == *c,
{
    S::widen_narrow(c);
}

/// The null-to-`Option` adapter: `None` for the null handle, else the
/// projected reference.
pub fn ptr_to_null<R: NativeRef>(raw: usize) -> (r: Option<R>)
    ensures
        r == (if raw == 0 {
            None
        } else {
            Some(R::project(raw))
        }),
{
    if raw == 0 {
        None
    } else {
        Some(R::from_raw(raw))
    }
}

/// Whether `bytes` holds no NUL byte.
pub open spec fn nul_free(bytes: Seq<u8>) -> bool {
    forall|i: int| 0 <= i < bytes.len() ==> bytes[i] != 0
}

/// Checks that `text` holds no NUL byte, so that it can be handed to the
/// native library as a C string.
pub fn is_nul_free(text: &str) -> (b: bool)
    ensures
        b == nul_free(text.spec_bytes()),
{
    let bytes = text.as_bytes();
    let mut i: usize = 0;
    while i < bytes.len()
        invariant
            i <= bytes.len(),
            bytes@ == text.spec_bytes(),
            forall|j: int| 0 <= j < i ==> bytes@[j] != 0,
        decreases bytes.len() - i,
    {
        if bytes[i] == 0 {
            return false;
        }
        i += 1;
    }
    true
}

/// The length of the C string that starts `bytes`: the place of its first NUL
/// byte, or the whole length where it has none.
pub open spec fn c_len(bytes: Seq<u8>) -> int
    decreases bytes.len(),
{
    if bytes.len() == 0 || bytes[0] == 0 {
        0
    } else {
        1 + c_len(bytes.subrange(1, bytes.len() as int))
    }
}

/// If the first `n` bytes are not NUL and the buffer ends there or holds a NUL
/// there, the C string is `n` bytes long.
pub proof fn lemma_c_len_is(bytes: Seq<u8>, n: int)
    requires
        0 <= n <= bytes.len(),
        forall|i: int| 0 <= i < n ==> bytes[i] != 0,
        n < bytes.len() ==> bytes[n] == 0,
    ensures
        c_len(bytes) == n,
    decreases n,
{
    if n == 0 {
    } else {
        let rest = bytes.subrange(1, bytes.len() as int);
        assert forall|i: int| 0 <= i < n - 1 implies rest[i] != 0 by {
            assert(rest[i] == bytes[i + 1]);
        }
        lemma_c_len_is(rest, n - 1);
    }
}

/// Copies a byte string.
pub fn copy_bytes(bytes: &[u8]) -> (buf: Vec<u8>)
    ensures
        buf@ == bytes@,
{
    let mut buf: Vec<u8> = Vec::new();
    let mut i: usize = 0;
    while i < bytes.len()
        invariant
            i <= bytes.len(),
            buf@ == bytes@.subrange(0, i as int),
        decreases bytes.len() - i,
    {
        buf.push(bytes[i]);
        i += 1;
        assert(buf@ =~= bytes@.subrange(0, i as int));
    }
    assert(bytes@.subrange(0, i as int) =~= bytes@);
    buf
}

/// Copies the bytes of `text`.
pub fn to_bytes(text: &str) -> (buf: Vec<u8>)
    ensures
        buf@ == text.spec_bytes(),
{
    copy_bytes(text.as_bytes())
}

/// Makes the NUL-terminated buffer that a native call reads `text` from.
pub fn with_cstr(text: &str) -> (buf: Vec<u8>)
    requires
        nul_free(text.spec_bytes()),
    ensures
        buf@ == text.spec_bytes().push(0u8),
{
    let mut buf = to_bytes(text);
    buf.push(0u8);
    buf
}

/// Copies the C string that starts `text`: the bytes before its first NUL.
pub fn to_str(text: &[u8]) -> (s: Vec<u8>)
    ensures
        s@ == text@.subrange(0, c_len(text@)),
{
    let mut s: Vec<u8> = Vec::new();
    let mut i: usize = 0;
    while i < text.len() && text[i] != 0
        invariant
            i <= text.len(),
            s@ == text@.subrange(0, i as int),
            forall|j: int| 0 <= j < i ==> text@[j] != 0,
        decreases text.len() - i,
    {
        s.push(text[i]);
        i += 1;
        assert(s@ =~= text@.subrange(0, i as int));
    }
    proof {
        lemma_c_len_is(text@, i as int);
    }
    s
}

/// Copies the C string behind a buffer that may be absent, as a native call
/// hands it out where an entity may lack a name.
pub fn to_null_str(text: Option<&[u8]>) -> (s: Option<Vec<u8>>)
    ensures
        text.is_none() ==> s.is_none(),
        text.is_some() ==> s.is_some() && s.unwrap()@ == text.unwrap()@.subrange(
            0,
            c_len(text.unwrap()@),
        ),
{
    match text {
        None => None,
        Some(t) => Some(to_str(t)),
    }
}

} // verus!
