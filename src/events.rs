use vstd::prelude::*;
use crate::types::Address;

verus! {

/// A notification, as plain values.
pub ghost enum EventRecord {
    Mint { to: Seq<char>, certificate_id: u32 },
    IssuerAdded { count: u32 },
    IssuerRemoved { count: u32 },
    AdminTransferInitiated { new_admin: Seq<char> },
    AdminTransferCompleted { new_admin: Seq<char> },
}

/// A notification published by a state-changing operation.
#[derive(Debug)]
pub enum Event {
    Mint { to: Address, certificate_id: u32 },
    IssuerAdded { count: u32 },
    IssuerRemoved { count: u32 },
    AdminTransferInitiated { new_admin: Address },
    AdminTransferCompleted { new_admin: Address },
}

impl View for Event {
    type V = EventRecord;

    open spec fn view(&self) -> EventRecord {
        match self {
            Event::Mint { to, certificate_id } => EventRecord::Mint {
                to: to@,
                certificate_id: *certificate_id,
            },
            Event::IssuerAdded { count } => EventRecord::IssuerAdded { count: *count },
            Event::IssuerRemoved { count } => EventRecord::IssuerRemoved { count: *count },
            Event::AdminTransferInitiated { new_admin } => EventRecord::AdminTransferInitiated {
                new_admin: new_admin@,
            },
            Event::AdminTransferCompleted { new_admin } => EventRecord::AdminTransferCompleted {
                new_admin: new_admin@,
            },
        }
    }
}

/// The log of notifications published so far, oldest first.
pub struct Events {
    log: Vec<Event>,
}

impl View for Events {
    type V = Seq<EventRecord>;

    closed spec fn view(&self) -> Seq<EventRecord> {
        self.log@.map_values(|e: Event| e@)
    }
}

impl Events {
    /// An empty log.
    pub fn new() -> (r: Events)
        ensures
            r@ == Seq::<EventRecord>::empty(),
    {
        let r = Events { log: Vec::new() };
        assert(r@ =~= Seq::<EventRecord>::empty());
        r
    }

    /// The notifications published so far, oldest first.
    pub fn published(&self) -> (r: &Vec<Event>)
        ensures
            r@.map_values(|e: Event| e@) == self@,
    {
        &self.log
    }

    fn publish(&mut self, event: Event)
        ensures
            final(self)@ == old(self)@.push(event@),
    {
        self.log.push(event);
        assert(final(self)@ =~= old(self)@.push(event@));
    }

    /// Publishes that certificate `certificate_id` went to `to`.
    pub fn mint(&mut self, to: &Address, certificate_id: u32)
        ensures
            final(self)@ == old(self)@.push(EventRecord::Mint { to: to@, certificate_id }),
    {
        self.publish(Event::Mint { to: to.clone(), certificate_id });
    }

    /// Publishes that an issuer was added, leaving `count` issuers.
    pub fn add_issuer(&mut self, count: u32)
        ensures
            final(self)@ == old(self)@.push(EventRecord::IssuerAdded { count }),
    {
        self.publish(Event::IssuerAdded { count });
    }

    /// Publishes that an issuer was removed, leaving `count` issuers.
    pub fn remove_issuer(&mut self, count: u32)
        ensures
            final(self)@ == old(self)@.push(EventRecord::IssuerRemoved { count }),
    {
        self.publish(Event::IssuerRemoved { count });
    }

    /// Publishes that the admin role was offered to `new_admin`.
    pub fn admin_transfer_initiated(&mut self, new_admin: &Address)
        ensures
            final(self)@ == old(self)@.push(
                EventRecord::AdminTransferInitiated { new_admin: new_admin@ },
            ),
    {
        self.publish(Event::AdminTransferInitiated { new_admin: new_admin.clone() });
    }

    /// Publishes that `new_admin` took the admin role.
    pub fn admin_transfer_completed(&mut self, new_admin: &Address)
        ensures
            final(self)@ == old(self)@.push(
                EventRecord::AdminTransferCompleted { new_admin: new_admin@ },
            ),
    {
        self.publish(Event::AdminTransferCompleted { new_admin: new_admin.clone() });
    }
}

} // verus!
