//! Who is to destroy an object of the host.

use vstd::prelude::*;

verus! {

/// An object that the framework made and has to destroy, with what
/// destroys it.
#[derive(Debug)]
pub struct DestroyLater<T, D> {
    inner: T,
    destructor: D,
}

/// An address that is not null.
#[derive(Clone, Copy, Debug, PartialEq, Eq)]
pub struct NonNull {
    address: u64,
}

/// An object of the host, with the knowledge of who destroys it.
///
/// * **Owned**: made by the framework, which has to destroy it, once.
/// * **Foreign**: made by the host, which the framework must leave alone.
#[derive(Debug)]
pub enum FfiPointer<O, D> {
    Owned(DestroyLater<O, D>),
    Foreign(NonNull),
}

/// What a pointer designates.
#[derive(Debug)]
pub enum Pointee<'a, O> {
    /// The object itself, held by the framework.
    Object(&'a O),
    /// An object of the host at this address, which is not null.
    Address(u64),
}

/// What a pointer designates, for changing it.
#[derive(Debug)]
pub enum PointeeMut<'a, O> {
    /// The object itself, held by the framework.
    Object(&'a mut O),
    /// An object of the host at this address, which is not null.
    Address(u64),
}

impl NonNull {
    #[verifier::type_invariant]
    spec fn not_null(self) -> bool {
        self.address != 0
    }

    /// The address.
    pub closed spec fn addr(self) -> u64 {
        self.address
    }

    /// `address` as an address that is not null: absent if it is null.
    pub fn new(address: u64) -> (r: Option<NonNull>)
        ensures
            address == 0 <==> r is None,
            r is Some ==> r->0.addr() == address,
    {
        if address == 0 {
            None
        } else {
            Some(NonNull { address })
        }
    }

    /// The address, which is not null.
    pub fn as_ptr(&self) -> (address: u64)
        ensures
            address == self.addr(),
            address != 0,
    {
        proof {
            use_type_invariant(self);
        }
        self.address
    }
}

impl<T, D> DestroyLater<T, D> {
    /// The object.
    pub closed spec fn object(self) -> T {
        self.inner
    }

    /// What destroys the object.
    pub closed spec fn destroyer(self) -> D {
        self.destructor
    }

    /// The object.
    pub fn inner(&self) -> (object: &T)
        ensures
            *object == self.object(),
    {
        &self.inner
    }

    /// Gives up the object and what destroys it, for the caller to destroy
    /// the object.
    pub fn into_parts(self) -> (parts: (T, D))
        ensures
            parts == (self.object(), self.destroyer()),
    {
        (self.inner, self.destructor)
    }
}

impl<O, D> FfiPointer<O, D> {
    /// The pointer to an object that the framework made, to be destroyed
    /// by `destructor`.
    pub fn new_owned(obj: O, destructor: D) -> (pointer: FfiPointer<O, D>)
        ensures
            pointer is Owned,
            pointer->Owned_0.object() == obj,
            pointer->Owned_0.destroyer() == destructor,
    {
        FfiPointer::Owned(DestroyLater { inner: obj, destructor })
    }

    /// The pointer to the host's object at address `ptr`, absent if `ptr`
    /// is null.
    pub fn from_ptr(ptr: u64) -> (pointer: Option<FfiPointer<O, D>>)
        ensures
            ptr == 0 <==> pointer is None,
            pointer is Some ==> pointer->0 is Foreign && pointer->0->Foreign_0.addr() == ptr,
    {
        match NonNull::new(ptr) {
            Some(address) => Some(FfiPointer::Foreign(address)),
            None => None,
        }
    }

    /// The pointer to the host's object at address `ptr`, absent if `ptr`
    /// is null.
    pub fn from_mut_ptr(ptr: u64) -> (pointer: Option<FfiPointer<O, D>>)
        ensures
            ptr == 0 <==> pointer is None,
            pointer is Some ==> pointer->0 is Foreign && pointer->0->Foreign_0.addr() == ptr,
    {
        FfiPointer::from_ptr(ptr)
    }

    /// What the pointer designates: the object that the framework holds,
    /// or the address of the host's object.
    pub fn as_ptr(&self) -> (pointee: Pointee<'_, O>)
        ensures
            match *self {
                FfiPointer::Owned(owned) => pointee == Pointee::Object(&owned.object()),
                FfiPointer::Foreign(address) => pointee == Pointee::<O>::Address(address.addr())
                    && address.addr() != 0,
            },
    {
        match self {
            FfiPointer::Owned(owned) => Pointee::Object(owned.inner()),
            FfiPointer::Foreign(address) => Pointee::Address(address.as_ptr()),
        }
    }

    /// What the pointer designates, for changing it.
    pub fn as_mut_ptr(&mut self) -> (pointee: PointeeMut<'_, O>)
        ensures
            match *old(self) {
                FfiPointer::Owned(owned) => {
                    &&& pointee is Object
                    &&& *pointee->Object_0 == owned.object()
                    &&& *final(self) is Owned
                    &&& (*final(self))->Owned_0.object() == *final(pointee->Object_0)
                    &&& (*final(self))->Owned_0.destroyer() == owned.destroyer()
                },
                FfiPointer::Foreign(address) => pointee == PointeeMut::<O>::Address(
                    address.addr(),
                ) && address.addr() != 0 && *final(self) == *old(self),
            },
    {
        match self {
            FfiPointer::Owned(owned) => PointeeMut::Object(&mut owned.inner),
            FfiPointer::Foreign(address) => PointeeMut::Address(address.as_ptr()),
        }
    }

    /// The address of the host's object, zero for an object that the
    /// framework holds itself.
    pub fn address(&self) -> (address: u64)
        ensures
            address == (match *self {
                FfiPointer::Owned(_) => 0u64,
                FfiPointer::Foreign(address) => address.addr(),
            }),
            *self is Foreign ==> address != 0,
    {
        match self {
            FfiPointer::Owned(_) => 0,
            FfiPointer::Foreign(address) => address.as_ptr(),
        }
    }

    /// Ends the pointer's life. For an object that the framework made, the
    /// object and what destroys it are handed out, so that it is destroyed
    /// once; for an object of the host there is nothing to destroy.
    pub fn release(self) -> (owned: Option<(O, D)>)
        ensures
            owned == (match self {
                FfiPointer::Owned(owned) => Some((owned.object(), owned.destroyer())),
                FfiPointer::Foreign(_) => None::<(O, D)>,
            }),
    {
        match self {
            FfiPointer::Owned(owned) => Some(owned.into_parts()),
            FfiPointer::Foreign(_) => None,
        }
    }
}

} // verus!
