//! Owners of disposable native resources.
//!
//! An owner guards one raw handle. Giving the owner up calls the resource's
//! disposer, and an owner can be given up only once, because doing so takes
//! it by value. The disposer calls are written to a [`Ledger`], in the order
//! in which they are made.

use vstd::prelude::*;

verus! {

/// The kinds of disposable resource. Each has one disposer of its own.
#[derive(Clone, Copy, Debug, PartialEq, Eq, Structural)]
pub enum Resource {
    Context,
    Module,
    Builder,
    TargetData,
    ExecutionEngine,
    GenericValue,
    MemoryBuffer,
    ObjectFile,
    SymbolIterator,
    Message,
}

/// One call of a disposer: which one, and on which handle.
#[derive(Clone, Copy, Debug, PartialEq, Eq, Structural)]
pub struct Disposal {
    pub resource: Resource,
    pub raw: usize,
}

/// The record of the disposer calls made so far, oldest first.
pub struct Ledger {
    pub calls: Vec<Disposal>,
}

/// How many times the call `d` occurs in `calls`.
pub open spec fn times(calls: Seq<Disposal>, d: Disposal) -> nat
    decreases calls.len(),
{
    if calls.len() == 0 {
        0
    } else {
        times(calls.drop_last(), d) + if calls.last() == d {
            1nat
        } else {
            0nat
        }
    }
}

/// One more call of a disposer raises the count of that call by one and
/// leaves every other count as it was.
pub proof fn lemma_dispose_once(calls: Seq<Disposal>, d: Disposal)
    ensures
        times(calls.push(d), d) == times(calls, d) + 1,
        forall|e: Disposal| e != d ==> times(calls.push(d), e) == times(calls, e),
{
    assert(calls.push(d).drop_last() =~= calls);
}

impl Ledger {
    /// Creates a ledger with no call in it.
    pub fn new() -> (ledger: Ledger)
        ensures
            ledger.calls@ == Seq::<Disposal>::empty(),
    {
        Ledger { calls: Vec::new() }
    }

    /// Counts the calls of the disposer of `resource` on the handle `raw`.
    pub fn count(&self, resource: Resource, raw: usize) -> (n: usize)
        ensures
            n == times(self.calls@, Disposal { resource, raw }),
    {
        let ghost d = Disposal { resource, raw };
        let mut n: usize = 0;
        let mut i: usize = 0;
        while i < self.calls.len()
            invariant
                i <= self.calls.len(),
                d == (Disposal { resource, raw }),
                n == times(self.calls@.subrange(0, i as int), d),
                n <= i,
            decreases self.calls.len() - i,
        {
            let call = self.calls[i];
            proof {
                assert(self.calls@.subrange(0, i + 1).drop_last() =~= self.calls@.subrange(
                    0,
                    i as int,
                ));
            }
            if call.resource == resource && call.raw == raw {
                n += 1;
            }
            i += 1;
        }
        assert(self.calls@.subrange(0, i as int) =~= self.calls@);
        n
    }
}

/// The owner of one native resource. It disposes of the resource when it is
/// given up, and it cannot be copied.
#[derive(Debug)]
pub struct CBox {
    pub resource: Resource,
    pub raw: usize,
}

impl CBox {
    /// The disposer call that giving this owner up makes.
    pub open spec fn disposal(&self) -> Disposal {
        Disposal { resource: self.resource, raw: self.raw }
    }

    /// Takes ownership of the resource behind a raw handle. The handle is not
    /// inspected; it must not be the null handle.
    pub fn new(resource: Resource, raw: usize) -> (owner: CBox)
        requires
            raw != 0,
        ensures
            owner.resource == resource,
            owner.raw == raw,
    {
        CBox { resource, raw }
    }

    /// Returns the raw handle, which stays owned.
    pub fn as_ptr(&self) -> (raw: usize)
        ensures
            raw == self.raw,
    {
        self.raw
    }

    /// Gives the raw handle out and the ownership with it: no disposer runs.
    pub fn unwrap(self) -> (raw: usize)
        ensures
            raw == self.raw,
    {
        self.raw
    }

    /// Gives the owner up: the resource's disposer is called, once.
    pub fn dispose(self, ledger: &mut Ledger)
        ensures
            final(ledger).calls@ == old(ledger).calls@.push(self.disposal()),
            times(final(ledger).calls@, self.disposal()) == times(
                old(ledger).calls@,
                self.disposal(),
            ) + 1,
            forall|e: Disposal|
                e != self.disposal() ==> times(final(ledger).calls@, e) == times(
                    old(ledger).calls@,
                    e,
                ),
    {
        proof {
            lemma_dispose_once(ledger.calls@, self.disposal());
        }
        ledger.calls.push(Disposal { resource: self.resource, raw: self.raw });
    }
}

/// An owner that may hold a second owner inside it, for a resource that comes
/// with another one to release. Giving it up disposes of the inner resource
/// first and of its own after that.
#[derive(Debug)]
pub struct CSemiBox {
    pub own: CBox,
    pub inner: Option<CBox>,
}

impl CSemiBox {
    /// The disposer calls that giving this owner up makes, in order.
    pub open spec fn disposals(&self) -> Seq<Disposal> {
        match self.inner {
            Some(inner) => seq![inner.disposal(), self.own.disposal()],
            None => seq![self.own.disposal()],
        }
    }

    /// Takes ownership of the resource behind a raw handle.
    pub fn new(resource: Resource, raw: usize) -> (owner: CSemiBox)
        requires
            raw != 0,
        ensures
            owner.own.resource == resource,
            owner.own.raw == raw,
            owner.inner.is_none(),
    {
        CSemiBox { own: CBox { resource, raw }, inner: None }
    }

    /// Takes ownership of the resource behind a raw handle, and of the owner
    /// of the resource that is to be released with it.
    pub fn chained(resource: Resource, raw: usize, inner: CBox) -> (owner: CSemiBox)
        requires
            raw != 0,
        ensures
            owner.own.resource == resource,
            owner.own.raw == raw,
            owner.inner == Some(inner),
    {
        CSemiBox { own: CBox { resource, raw }, inner: Some(inner) }
    }

    /// Returns the raw handle, which stays owned.
    pub fn as_ptr(&self) -> (raw: usize)
        ensures
            raw == self.own.raw,
    {
        self.own.raw
    }

    /// Gives the owner up: the inner resource is disposed of first, if there
    /// is one, then its own.
    pub fn dispose(self, ledger: &mut Ledger)
        ensures
            final(ledger).calls@ == old(ledger).calls@ + self.disposals(),
    {
        let CSemiBox { own, inner } = self;
        match inner {
            Some(i) => {
                i.dispose(ledger);
            },
            None => {},
        }
        own.dispose(ledger);
        assert(ledger.calls@ =~= old(ledger).calls@ + self.disposals());
    }
}

/// What a fallible native factory hands back, read by the rule that the
/// status 1 means failure: on failure the owner of the diagnostic message,
/// else the owner of the resource that was made.
pub fn unless_one(status: i32, resource: Resource, output: usize, message: usize) -> (r: Result<
    CBox,
    CBox,
>)
    requires
        status == 1 ==> message != 0,
        status != 1 ==> output != 0,
    ensures
        status == 1 ==> r == Err::<CBox, CBox>(CBox { resource: Resource::Message, raw: message }),
        status != 1 ==> r == Ok::<CBox, CBox>(CBox { resource, raw: output }),
{
    if status == 1 {
        Err(CBox::new(Resource::Message, message))
    } else {
        Ok(CBox::new(resource, output))
    }
}

/// What a fallible native factory hands back, read by the rule that the
/// status 0 means success: on success the owner of the resource that was
/// made, else the owner of the diagnostic message.
pub fn if_zero(status: i32, resource: Resource, output: usize, message: usize) -> (r: Result<
    CSemiBox,
    CBox,
>)
    requires
        status == 0 ==> output != 0,
        status != 0 ==> message != 0,
    ensures
        status == 0 ==> r == Ok::<CSemiBox, CBox>(
            CSemiBox { own: CBox { resource, raw: output }, inner: None },
        ),
        status != 0 ==> r == Err::<CSemiBox, CBox>(
            CBox { resource: Resource::Message, raw: message },
        ),
{
    if status == 0 {
        Ok(CSemiBox::new(resource, output))
    } else {
        Err(CBox::new(Resource::Message, message))
    }
}

/// What a native check hands back, read by the rule that the status 1 means
/// failure: on failure the owner of the diagnostic message.
pub fn checked(status: i32, message: usize) -> (r: Result<(), CBox>)
    requires
        status == 1 ==> message != 0,
    ensures
        status == 1 ==> r == Err::<(), CBox>(CBox { resource: Resource::Message, raw: message }),
        status != 1 ==> r == Ok::<(), CBox>(()),
{
    if status == 1 {
        Err(CBox::new(Resource::Message, message))
    } else {
        Ok(())
    }
}

} // verus!
