//! Bookkeeping of the interrupt table: which interrupt requests have a handler.

use vstd::prelude::*;
use core::marker::PhantomData;

verus! {

/// The error type that can occur when handling with interrupts.
#[derive(Debug, Clone, Copy, PartialEq, Eq, Structural)]
pub enum Error {
    /// The error type which is returned when an interrupt is registered that is already being used.
    ///
    /// Gives you back the index that you used to try to register the interrupt
    InterruptAlreadyInUse(u8),
}

/// The number of interrupt requests that can have a handler.
pub const NUMBER_OF_INTERRUPTS: usize = 98;

/// The `InterruptHandle` is used to access and configure an active interrupt; `T` is the type
/// of the data that the handler owns.
pub struct InterruptHandle<T, REQ> {
    _data_type: PhantomData<T>,
    irq: REQ,
}

impl<T, REQ> InterruptHandle<T, REQ> {
    /// The interrupt request of the handle.
    pub closed spec fn spec_irq(&self) -> REQ {
        self.irq
    }

    /// Creates the handle of an interrupt request.
    pub fn new(irq: REQ) -> (r: Self)
        ensures
            r.spec_irq() == irq,
    {
        InterruptHandle { irq, _data_type: PhantomData }
    }

    /// The interrupt request of the handle.
    pub fn irq(&self) -> (r: &REQ)
        ensures
            *r == self.spec_irq(),
    {
        &self.irq
    }
}

/// A low level API for interrupts, implemented for the hardware's interrupt controller.
pub trait InterruptController {
    /// A priority identifier, forwarded to the controller as it is.
    type Priority;

    /// Whether interrupt request `irq` is enabled.
    spec fn enabled(&self, irq: u8) -> bool;

    /// The priority of interrupt request `irq`.
    spec fn priority(&self, irq: u8) -> Self::Priority;

    /// Sets the priority of interrupt request `irq`; nothing else changes.
    fn set_priority(&mut self, irq: u8, priority: Self::Priority)
        ensures
            final(self).priority(irq) == priority,
            forall|j: u8| j != irq ==> #[trigger] final(self).priority(j) == old(self).priority(j),
            forall|j: u8| #[trigger] final(self).enabled(j) == old(self).enabled(j),
    ;

    /// Enables interrupt request `irq`; nothing else changes.
    fn enable(&mut self, irq: u8)
        ensures
            final(self).enabled(irq),
            forall|j: u8| j != irq ==> #[trigger] final(self).enabled(j) == old(self).enabled(j),
            forall|j: u8| #[trigger] final(self).priority(j) == old(self).priority(j),
    ;

    /// Disables interrupt request `irq`; nothing else changes.
    fn disable(&mut self, irq: u8)
        ensures
            !final(self).enabled(irq),
            forall|j: u8| j != irq ==> #[trigger] final(self).enabled(j) == old(self).enabled(j),
            forall|j: u8| #[trigger] final(self).priority(j) == old(self).priority(j),
    ;
}

/// `after` is the controller `before` with interrupt request `irq` enabled at `priority`;
/// every other request is unchanged.
pub open spec fn enabled_at<IC: InterruptController>(
    before: IC,
    after: IC,
    irq: u8,
    priority: IC::Priority,
) -> bool {
    &&& after.enabled(irq)
    &&& after.priority(irq) == priority
    &&& forall|j: u8| j != irq ==> #[trigger] after.enabled(j) == before.enabled(j)
    &&& forall|j: u8| j != irq ==> #[trigger] after.priority(j) == before.priority(j)
}

/// The table of registered interrupt handlers on the controller `IC`: which interrupt
/// requests have a handler, and the data that each handler owns.
pub struct InterruptTable<IC: InterruptController, D> {
    ic: IC,
    in_use: [bool; 98],
    data: Vec<Option<D>>,
}

impl<IC: InterruptController, D> InterruptTable<IC, D> {
    /// Which interrupt requests have a handler, by number.
    pub closed spec fn used(&self) -> Seq<bool> {
        self.in_use@
    }

    /// The data owned by the handler of each interrupt request, by number: `None` for a
    /// request without a handler or whose handler owns nothing.
    pub closed spec fn owned(&self) -> Seq<Option<D>> {
        self.data@
    }

    /// The interrupt controller.
    pub closed spec fn controller(&self) -> IC {
        self.ic
    }

    /// The table holds one entry per interrupt request.
    pub open spec fn wf(&self) -> bool {
        &&& self.used().len() == 98
        &&& self.owned().len() == 98
    }

    /// The in-use table has one entry per interrupt request.
    pub proof fn lemma_used_len(&self)
        ensures
            self.used().len() == 98,
    {
    }

    /// A table without handlers on the controller `ic`.
    pub fn new(ic: IC) -> (r: Self)
        ensures
            r.wf(),
            r.used() == Seq::new(98, |i: int| false),
            r.owned() == Seq::new(98, |i: int| None::<D>),
            r.controller() == ic,
    {
        let mut data: Vec<Option<D>> = Vec::new();
        let mut i: usize = 0;
        while i < NUMBER_OF_INTERRUPTS
            invariant
                i <= 98,
                data@ == Seq::new(i as nat, |k: int| None::<D>),
            decreases 98 - i,
        {
            data.push(None);
            i = i + 1;
        }
        let r = InterruptTable { ic, in_use: [false; 98], data };
        assert(r.used() =~= Seq::new(98, |i: int| false));
        assert(r.owned() =~= Seq::new(98, |i: int| None::<D>));
        r
    }

    /// Fails with `InterruptAlreadyInUse` if the interrupt request `irq` has a handler.
    pub fn err_if_irq_in_use(&self, irq: u8) -> (r: Result<(), Error>)
        requires
            irq < 98,
        ensures
            r == if self.used()[irq as int] {
                Err(Error::InterruptAlreadyInUse(irq))
            } else {
                Ok(())
            },
    {
        if self.in_use[irq as usize] {
            Err(Error::InterruptAlreadyInUse(irq))
        } else {
            Ok(())
        }
    }

    /// Registers a handler for the interrupt request `irq` that owns `owned_data`, unless the
    /// request has a handler: then sets its priority and enables it, and returns the handle.
    /// On failure nothing changes.
    pub fn register_owned(&mut self, irq: u8, priority: IC::Priority, owned_data: D) -> (r: Result<
        InterruptHandle<D, u8>,
        Error,
    >)
        requires
            old(self).wf(),
            irq < 98,
        ensures
            final(self).wf(),
            old(self).used()[irq as int] ==> r == Err::<InterruptHandle<D, u8>, Error>(
                Error::InterruptAlreadyInUse(irq),
            ) && *final(self) == *old(self),
            !old(self).used()[irq as int] ==> {
                &&& r is Ok
                &&& r->Ok_0.spec_irq() == irq
                &&& final(self).used() == old(self).used().update(irq as int, true)
                &&& final(self).owned() == old(self).owned().update(irq as int, Some(owned_data))
                &&& enabled_at(old(self).controller(), final(self).controller(), irq, priority)
            },
    {
        self.insert(irq, priority, Some(owned_data))
    }

    /// Registers a handler for the interrupt request `irq` that owns no data, unless the
    /// request has a handler: then sets its priority and enables it, and returns the handle.
    /// On failure nothing changes.
    pub fn register(&mut self, irq: u8, priority: IC::Priority) -> (r: Result<
        InterruptHandle<(), u8>,
        Error,
    >)
        requires
            old(self).wf(),
            irq < 98,
        ensures
            final(self).wf(),
            old(self).used()[irq as int] ==> r == Err::<InterruptHandle<(), u8>, Error>(
                Error::InterruptAlreadyInUse(irq),
            ) && *final(self) == *old(self),
            !old(self).used()[irq as int] ==> {
                &&& r is Ok
                &&& r->Ok_0.spec_irq() == irq
                &&& final(self).used() == old(self).used().update(irq as int, true)
                &&& final(self).owned() == old(self).owned().update(irq as int, None)
                &&& enabled_at(old(self).controller(), final(self).controller(), irq, priority)
            },
    {
        self.insert(irq, priority, None)
    }

    fn insert<T>(&mut self, irq: u8, priority: IC::Priority, owned_data: Option<D>) -> (r: Result<
        InterruptHandle<T, u8>,
        Error,
    >)
        requires
            old(self).wf(),
            irq < 98,
        ensures
            final(self).wf(),
            old(self).used()[irq as int] ==> r == Err::<InterruptHandle<T, u8>, Error>(
                Error::InterruptAlreadyInUse(irq),
            ) && *final(self) == *old(self),
            !old(self).used()[irq as int] ==> {
                &&& r is Ok
                &&& r->Ok_0.spec_irq() == irq
                &&& final(self).used() == old(self).used().update(irq as int, true)
                &&& final(self).owned() == old(self).owned().update(irq as int, owned_data)
                &&& enabled_at(old(self).controller(), final(self).controller(), irq, priority)
            },
    {
        if self.in_use[irq as usize] {
            return Err(Error::InterruptAlreadyInUse(irq));
        }
        self.in_use[irq as usize] = true;
        self.data.set(irq as usize, owned_data);
        self.ic.set_priority(irq, priority);
        self.ic.enable(irq);
        Ok(InterruptHandle::new(irq))
    }

    /// Removes the handler of an interrupt request and disables the request: gives back the
    /// data that the handler owned (`None` for a handler registered without data).
    pub fn unregister<T>(&mut self, interrupt_handle: InterruptHandle<T, u8>) -> (r: Option<D>)
        requires
            old(self).wf(),
            interrupt_handle.spec_irq() < 98,
        ensures
            final(self).wf(),
            r == old(self).owned()[interrupt_handle.spec_irq() as int],
            final(self).used() == old(self).used().update(interrupt_handle.spec_irq() as int, false),
            final(self).owned() == old(self).owned().update(interrupt_handle.spec_irq() as int, None),
            !final(self).controller().enabled(interrupt_handle.spec_irq()),
            forall|j: u8| j != interrupt_handle.spec_irq() ==> #[trigger] final(self).controller().enabled(j)
                == old(self).controller().enabled(j),
            forall|j: u8| #[trigger] final(self).controller().priority(j) == old(self).controller().priority(j),
    {
        let irq = interrupt_handle.irq;
        self.ic.disable(irq);
        self.in_use[irq as usize] = false;
        let mut taken: Option<D> = None;
        let ghost before = self.data@;
        core::mem::swap(&mut taken, &mut self.data[irq as usize]);
        proof {
            assert(self.data@ =~= before.update(irq as int, None));
        }
        taken
    }

    /// Sets the priority of the interrupt of the handle; nothing else changes.
    pub fn set_priority<T>(&mut self, interrupt_handle: &InterruptHandle<T, u8>, priority: IC::Priority)
        ensures
            final(self).used() == old(self).used(),
            final(self).owned() == old(self).owned(),
            final(self).controller().priority(interrupt_handle.spec_irq()) == priority,
            forall|j: u8| j != interrupt_handle.spec_irq() ==> #[trigger] final(self).controller().priority(j)
                == old(self).controller().priority(j),
            forall|j: u8| #[trigger] final(self).controller().enabled(j) == old(self).controller().enabled(j),
    {
        self.ic.set_priority(interrupt_handle.irq, priority)
    }

    /// The interrupt controller.
    pub fn interrupt_controller(&self) -> (r: &IC)
        ensures
            *r == self.controller(),
    {
        &self.ic
    }

    /// Whether no interrupt request has a handler, as the table requires when it is dropped.
    pub fn all_unregistered(&self) -> (r: bool)
        ensures
            r == (forall|i: int| 0 <= i < 98 ==> !#[trigger] self.used()[i]),
    {
        let mut i: usize = 0;
        while i < NUMBER_OF_INTERRUPTS
            invariant
                i <= 98,
                forall|k: int| 0 <= k < i ==> !#[trigger] self.in_use@[k],
            decreases 98 - i,
        {
            if self.in_use[i] {
                assert(self.used()[i as int]);
                return false;
            }
            i = i + 1;
        }
        true
    }
}

/// What a handler owns is what [`unregister`](InterruptTable::unregister) gives back: on a
/// valid table, after [`register_owned`](InterruptTable::register_owned) stored `d` for a free
/// request `irq`, unregistering that request gives `Some(d)` and frees the request again.
pub proof fn lemma_unregister_gives_back_owned_data<IC: InterruptController, D>(
    table: InterruptTable<IC, D>,
    irq: u8,
    d: D,
)
    requires
        table.wf(),
        irq < 98,
        !table.used()[irq as int],
    ensures
        table.owned().update(irq as int, Some(d))[irq as int] == Some(d),
        table.used().update(irq as int, true).update(irq as int, false) == table.used(),
        !table.used().update(irq as int, true).update(irq as int, false)[irq as int],
{
    assert(table.used().update(irq as int, true).update(irq as int, false) =~= table.used());
}

/// Registering a handler for a free interrupt request and unregistering it again leaves the
/// table as it was: a scoped handler is gone at the end of its scope.
pub proof fn lemma_register_unregister_restores(used: Seq<bool>, irq: int)
    requires
        0 <= irq < used.len(),
        !used[irq],
    ensures
        used.update(irq, true).update(irq, false) == used,
{
    assert(used.update(irq, true).update(irq, false) =~= used);
}

} // verus!
